use crate::database::Database;
use crate::database::map_get;
use vstd::prelude::*;
use vstd::string::StringExecFns;

verus! {

/// Spec-level image of a palette record: each field as the optional sequence
/// of characters it holds.
pub struct PaletteView {
    pub fg: Option<Seq<char>>,
    pub bg: Option<Seq<char>>,
    pub cursor: Option<Seq<char>>,
    pub colors: Seq<Option<Seq<char>>>,
}

/// The colours found under one prefix of the resource database.
///
/// Any subset of the fields may be present independently: a key that is not
/// bound in the database simply leaves its field absent.
#[derive(Clone, Debug, Default, PartialEq)]
pub struct XColors {
    /// Foreground colour: matches the "foreground" key.
    pub fg: Option<String>,
    /// Background colour: matches the "background" key.
    pub bg: Option<String>,
    /// Cursor colour: matches the "cursorColor" key.
    pub cursor: Option<String>,
    /// Colours 0 to 15: match the "color{}" keys, where {} is a number from 0 to 15 inclusive.
    pub colors: [Option<String>; 16],
}

impl View for XColors {
    type V = PaletteView;

    open spec fn view(&self) -> PaletteView {
        PaletteView {
            fg: self.fg.deep_view(),
            bg: self.bg.deep_view(),
            cursor: self.cursor.deep_view(),
            colors: self.colors.deep_view(),
        }
    }
}

/// The key whose value gives the foreground colour: `prefix.foreground`.
pub open spec fn fg_key(prefix: Seq<char>) -> Seq<char> {
    prefix + ".foreground"@
}

/// The key whose value gives the background colour: `prefix.background`.
pub open spec fn bg_key(prefix: Seq<char>) -> Seq<char> {
    prefix + ".background"@
}

/// The key whose value gives the cursor colour: `prefix.cursorColor`.
pub open spec fn cursor_key(prefix: Seq<char>) -> Seq<char> {
    prefix + ".cursorColor"@
}

/// The decimal text of a colour index between 0 and 15.
pub open spec fn index_digits(i: int) -> Seq<char> {
    if i == 0 {
        "0"@
    } else if i == 1 {
        "1"@
    } else if i == 2 {
        "2"@
    } else if i == 3 {
        "3"@
    } else if i == 4 {
        "4"@
    } else if i == 5 {
        "5"@
    } else if i == 6 {
        "6"@
    } else if i == 7 {
        "7"@
    } else if i == 8 {
        "8"@
    } else if i == 9 {
        "9"@
    } else if i == 10 {
        "10"@
    } else if i == 11 {
        "11"@
    } else if i == 12 {
        "12"@
    } else if i == 13 {
        "13"@
    } else if i == 14 {
        "14"@
    } else {
        "15"@
    }
}

/// The key whose value gives indexed colour `i`: `prefix.color{i}`.
pub open spec fn color_key(prefix: Seq<char>, i: int) -> Seq<char> {
    prefix + ".color"@ + index_digits(i)
}

/// What a fetch assembles for prefix `p` from a database whose contents are
/// `m`: one independent lookup per field, in slot order.
pub open spec fn palette_of(m: Map<Seq<char>, Seq<char>>, p: Seq<char>) -> PaletteView {
    PaletteView {
        fg: map_get(m, fg_key(p)),
        bg: map_get(m, bg_key(p)),
        cursor: map_get(m, cursor_key(p)),
        colors: Seq::new(16, |i: int| map_get(m, color_key(p, i))),
    }
}

/// Build the key `prefix.foreground`.
pub fn fg_key_string(prefix: &str) -> (r: String)
    ensures
        r@ == fg_key(prefix@),
{
    prefix.to_owned().concat(".foreground")
}

/// Build the key `prefix.background`.
pub fn bg_key_string(prefix: &str) -> (r: String)
    ensures
        r@ == bg_key(prefix@),
{
    prefix.to_owned().concat(".background")
}

/// Build the key `prefix.cursorColor`.
pub fn cursor_key_string(prefix: &str) -> (r: String)
    ensures
        r@ == cursor_key(prefix@),
{
    prefix.to_owned().concat(".cursorColor")
}

/// The decimal text of colour index `i`.
pub fn index_string(i: usize) -> (r: &'static str)
    requires
        i < 16,
    ensures
        r@ == index_digits(i as int),
{
    if i == 0 {
        "0"
    } else if i == 1 {
        "1"
    } else if i == 2 {
        "2"
    } else if i == 3 {
        "3"
    } else if i == 4 {
        "4"
    } else if i == 5 {
        "5"
    } else if i == 6 {
        "6"
    } else if i == 7 {
        "7"
    } else if i == 8 {
        "8"
    } else if i == 9 {
        "9"
    } else if i == 10 {
        "10"
    } else if i == 11 {
        "11"
    } else if i == 12 {
        "12"
    } else if i == 13 {
        "13"
    } else if i == 14 {
        "14"
    } else {
        "15"
    }
}

/// Build the key `prefix.color{i}`.
pub fn color_key_string(prefix: &str, i: usize) -> (r: String)
    requires
        i < 16,
    ensures
        r@ == color_key(prefix@, i as int),
{
    prefix.to_owned().concat(".color").concat(index_string(i))
}

impl XColors {
    /// Assemble the palette for `prefix` by nineteen independent lookups
    /// against `db`: the three scalar keys first, then the indexed colour
    /// keys in ascending order. Every present value is an owned copy.
    pub fn from_database(db: &Database, prefix: &str) -> (r: XColors)
        ensures
            r@ == palette_of(db@, prefix@),
    {
        let fg = db.query(&fg_key_string(prefix));
        let bg = db.query(&bg_key_string(prefix));
        let cursor = db.query(&cursor_key_string(prefix));
        let c0 = db.query(&color_key_string(prefix, 0));
        let c1 = db.query(&color_key_string(prefix, 1));
        let c2 = db.query(&color_key_string(prefix, 2));
        let c3 = db.query(&color_key_string(prefix, 3));
        let c4 = db.query(&color_key_string(prefix, 4));
        let c5 = db.query(&color_key_string(prefix, 5));
        let c6 = db.query(&color_key_string(prefix, 6));
        let c7 = db.query(&color_key_string(prefix, 7));
        let c8 = db.query(&color_key_string(prefix, 8));
        let c9 = db.query(&color_key_string(prefix, 9));
        let c10 = db.query(&color_key_string(prefix, 10));
        let c11 = db.query(&color_key_string(prefix, 11));
        let c12 = db.query(&color_key_string(prefix, 12));
        let c13 = db.query(&color_key_string(prefix, 13));
        let c14 = db.query(&color_key_string(prefix, 14));
        let c15 = db.query(&color_key_string(prefix, 15));
        let r = XColors {
            fg,
            bg,
            cursor,
            colors: [
                c0,
                c1,
                c2,
                c3,
                c4,
                c5,
                c6,
                c7,
                c8,
                c9,
                c10,
                c11,
                c12,
                c13,
                c14,
                c15,
            ],
        };
        proof {
            assert(r@.colors =~= palette_of(db@, prefix@).colors);
        }
        r
    }
}

/// The nineteen keys a fetch consults for prefix `p`, in lookup order:
/// foreground, background, cursorColor, then color0 through color15.
pub open spec fn palette_keys_spec(p: Seq<char>) -> Seq<Seq<char>> {
    seq![fg_key(p), bg_key(p), cursor_key(p)] + Seq::new(16, |i: int| color_key(p, i))
}

/// Build the nineteen keys consulted for `prefix`, in lookup order.
pub fn palette_keys(prefix: &str) -> (r: Vec<String>)
    ensures
        r.deep_view() == palette_keys_spec(prefix@),
{
    let mut r: Vec<String> = Vec::new();
    r.push(fg_key_string(prefix));
    r.push(bg_key_string(prefix));
    r.push(cursor_key_string(prefix));
    let mut i: usize = 0;
    while i < 16
        invariant
            r@.len() == 3 + i,
            r.deep_view() =~= palette_keys_spec(prefix@).take(3 + i as int),
            i <= 16,
        decreases 16 - i,
    {
        r.push(color_key_string(prefix, i));
        i = i + 1;
        proof {
            assert(r.deep_view() =~= palette_keys_spec(prefix@).take(3 + i as int));
        }
    }
    proof {
        assert(palette_keys_spec(prefix@).take(19) =~= palette_keys_spec(prefix@));
    }
    r
}

/// Fetch the palette for `prefix` from a database snapshot, when one is
/// available. A session without a resource database is a normal condition:
/// it yields an absent result, never an error. With a database present the
/// result is always a present record, one field per key, absent keys giving
/// absent fields.
pub fn fetch_palette(db: Option<&Database>, prefix: &str) -> (r: Option<XColors>)
    ensures
        r is Some <==> db is Some,
        db is Some ==> r->Some_0@ == palette_of(db->Some_0@, prefix@),
{
    match db {
        None => None,
        Some(d) => Some(XColors::from_database(d, prefix)),
    }
}

/// Whether key `k` lies under namespace `p`: it begins with `p` followed by
/// a period.
pub open spec fn key_under(p: Seq<char>, k: Seq<char>) -> bool {
    k.len() > p.len() && k.take(p.len() as int + 1) == p + "."@
}

/// The decimal text of an index between 0 and 15 is one or two characters.
proof fn lemma_index_digits_len(i: int)
    requires
        0 <= i < 16,
    ensures
        1 <= index_digits(i).len() <= 2,
{
    reveal_strlit("0");
    reveal_strlit("1");
    reveal_strlit("2");
    reveal_strlit("3");
    reveal_strlit("4");
    reveal_strlit("5");
    reveal_strlit("6");
    reveal_strlit("7");
    reveal_strlit("8");
    reveal_strlit("9");
    reveal_strlit("10");
    reveal_strlit("11");
    reveal_strlit("12");
    reveal_strlit("13");
    reveal_strlit("14");
    reveal_strlit("15");
}

/// Every key a fetch consults for `p` lies under `p`.
pub proof fn lemma_palette_keys_under(p: Seq<char>)
    ensures
        key_under(p, fg_key(p)),
        key_under(p, bg_key(p)),
        key_under(p, cursor_key(p)),
        forall|i: int| 0 <= i < 16 ==> key_under(p, #[trigger] color_key(p, i)),
{
    reveal_strlit(".");
    reveal_strlit(".foreground");
    reveal_strlit(".background");
    reveal_strlit(".cursorColor");
    reveal_strlit(".color");
    assert(fg_key(p).take(p.len() as int + 1) =~= p + "."@);
    assert(bg_key(p).take(p.len() as int + 1) =~= p + "."@);
    assert(cursor_key(p).take(p.len() as int + 1) =~= p + "."@);
    assert forall|i: int| 0 <= i < 16 implies key_under(p, #[trigger] color_key(p, i)) by {
        lemma_index_digits_len(i);
        assert(color_key(p, i).take(p.len() as int + 1) =~= p + "."@);
    }
}

/// The foreground key for `p` differs from every other key consulted for `p`.
proof fn lemma_fg_key_distinct(p: Seq<char>)
    ensures
        fg_key(p) != bg_key(p),
        fg_key(p) != cursor_key(p),
        forall|i: int| 0 <= i < 16 ==> fg_key(p) != #[trigger] color_key(p, i),
{
    reveal_strlit(".foreground");
    reveal_strlit(".background");
    reveal_strlit(".cursorColor");
    reveal_strlit(".color");
    assert(fg_key(p)[p.len() as int + 1] == 'f');
    assert(bg_key(p)[p.len() as int + 1] == 'b');
    assert(fg_key(p).len() == p.len() + 11);
    assert(cursor_key(p).len() == p.len() + 12);
    assert forall|i: int| 0 <= i < 16 implies fg_key(p) != #[trigger] color_key(p, i) by {
        lemma_index_digits_len(i);
        assert(color_key(p, i).len() <= p.len() + 8);
    }
}

/// A database that binds none of the nineteen keys for `p` yields a record
/// with every field absent. Together with the contract of `fetch_palette`
/// this distinguishes "database present, no matching keys" — a present,
/// all-absent record — from "no database" — an absent result.
pub proof fn lemma_no_matching_keys_all_absent(m: Map<Seq<char>, Seq<char>>, p: Seq<char>)
    requires
        !m.contains_key(fg_key(p)),
        !m.contains_key(bg_key(p)),
        !m.contains_key(cursor_key(p)),
        forall|i: int| 0 <= i < 16 ==> !m.contains_key(#[trigger] color_key(p, i)),
    ensures
        palette_of(m, p).fg is None,
        palette_of(m, p).bg is None,
        palette_of(m, p).cursor is None,
        forall|i: int| 0 <= i < 16 ==> palette_of(m, p).colors[i] is None,
{
}

/// Isolation: a fetch for `p` reads only keys under `p`, so a database none
/// of whose keys lies under `p` yields a record with every field absent.
pub proof fn lemma_unrelated_prefix_all_absent(m: Map<Seq<char>, Seq<char>>, p: Seq<char>)
    requires
        forall|k: Seq<char>| m.contains_key(k) ==> !key_under(p, k),
    ensures
        palette_of(m, p).fg is None,
        palette_of(m, p).bg is None,
        palette_of(m, p).cursor is None,
        forall|i: int| 0 <= i < 16 ==> palette_of(m, p).colors[i] is None,
{
    lemma_palette_keys_under(p);
    assert(!m.contains_key(fg_key(p)));
    assert(!m.contains_key(bg_key(p)));
    assert(!m.contains_key(cursor_key(p)));
    assert forall|i: int| 0 <= i < 16 implies palette_of(m, p).colors[i] is None by {
        assert(!m.contains_key(color_key(p, i)));
    }
}

/// When the database binds exactly the foreground key for `p`, the record
/// has the foreground present, bound to the stored value, and every other
/// field absent.
pub proof fn lemma_only_foreground(m: Map<Seq<char>, Seq<char>>, p: Seq<char>)
    requires
        m.dom() == set![fg_key(p)],
    ensures
        palette_of(m, p).fg == Some(m[fg_key(p)]),
        palette_of(m, p).bg is None,
        palette_of(m, p).cursor is None,
        forall|i: int| 0 <= i < 16 ==> palette_of(m, p).colors[i] is None,
{
    lemma_fg_key_distinct(p);
    assert(m.contains_key(fg_key(p)));
    assert forall|i: int| 0 <= i < 16 implies palette_of(m, p).colors[i] is None by {
        assert(!m.contains_key(color_key(p, i)));
    }
}

/// Round-trip: values stored under the sixteen indexed colour keys come back
/// in the slot whose index matches the key's decimal suffix.
pub proof fn lemma_colors_round_trip(m: Map<Seq<char>, Seq<char>>, p: Seq<char>, vs: Seq<Seq<char>>)
    requires
        vs.len() == 16,
        forall|i: int|
            0 <= i < 16 ==> m.contains_key(#[trigger] color_key(p, i)) && m[color_key(p, i)]
                == vs[i],
    ensures
        forall|i: int| 0 <= i < 16 ==> palette_of(m, p).colors[i] == Some(vs[i]),
{
}

/// Idempotence: the palette is a function of the database contents and the
/// prefix alone, so two fetches against an unchanged database yield
/// structurally equal records.
pub proof fn lemma_fetch_deterministic(
    m: Map<Seq<char>, Seq<char>>,
    p: Seq<char>,
    r1: PaletteView,
    r2: PaletteView,
)
    requires
        r1 == palette_of(m, p),
        r2 == palette_of(m, p),
    ensures
        r1 == r2,
{
}

} // verus!
