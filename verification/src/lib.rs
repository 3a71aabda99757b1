//! Colours from the display server's resource database.
//!
//! The library assembles a themed palette — foreground, background, cursor
//! and sixteen indexed colours — from string lookups under a caller-supplied
//! prefix against a snapshot of the resource database. The snapshot itself is
//! modelled here as plain key/value data; opening the display connection and
//! reading the live database are left to an unverified shell around the
//! library.

mod database;
mod session;
mod x11api;
mod xcolors;

pub use crate::session::Step;
pub use crate::session::count_steps;
pub use crate::session::lemma_no_resource_string_no_lookup;
pub use crate::session::lemma_resource_balance;
pub use crate::session::lemma_snapshot_released_before_connection;
pub use crate::session::session_plan;
pub use crate::session::session_trace;

pub use crate::database::Database;
pub use crate::database::map_get;
pub use crate::x11api::XDisplayError;
pub use crate::xcolors::PaletteView;
pub use crate::xcolors::XColors;
pub use crate::xcolors::bg_key;
pub use crate::xcolors::bg_key_string;
pub use crate::xcolors::color_key;
pub use crate::xcolors::color_key_string;
pub use crate::xcolors::cursor_key;
pub use crate::xcolors::cursor_key_string;
pub use crate::xcolors::fetch_palette;
pub use crate::xcolors::fg_key;
pub use crate::xcolors::fg_key_string;
pub use crate::xcolors::index_digits;
pub use crate::xcolors::index_string;
pub use crate::xcolors::key_under;
pub use crate::xcolors::lemma_colors_round_trip;
pub use crate::xcolors::lemma_fetch_deterministic;
pub use crate::xcolors::lemma_no_matching_keys_all_absent;
pub use crate::xcolors::lemma_only_foreground;
pub use crate::xcolors::lemma_palette_keys_under;
pub use crate::xcolors::lemma_unrelated_prefix_all_absent;
pub use crate::xcolors::palette_keys;
pub use crate::xcolors::palette_keys_spec;
pub use crate::xcolors::palette_of;
