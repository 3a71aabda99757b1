use vstd::prelude::*;

verus! {

/// One interaction with the display-server library during a fetch.
#[derive(Clone, Copy, Debug, PartialEq, Eq, Structural)]
pub enum Step {
    /// Open the connection to the display server.
    OpenDisplay,
    /// Read the resource-manager string owned by the connection.
    FetchResourceString,
    /// Parse the resource-manager string into a database snapshot.
    ParseDatabase,
    /// Query the snapshot for one key.
    LookupKey,
    /// Destroy the database snapshot.
    DestroyDatabase,
    /// Close the connection to the display server.
    CloseDisplay,
}

/// How many times step `x` occurs in `s`.
pub open spec fn count_steps(s: Seq<Step>, x: Step) -> int
    decreases s.len(),
{
    if s.len() == 0 {
        0
    } else {
        count_steps(s.drop_last(), x) + if s.last() == x {
            1int
        } else {
            0int
        }
    }
}

/// The sequence of library interactions a fetch performs, given whether the
/// resource-manager string was present and, if so, whether it parsed into a
/// database. Acquisition order is strict: connection, resource-manager
/// string, snapshot, lookups; release order is the reverse, the snapshot
/// strictly before the connection.
pub open spec fn session_trace(rms_present: bool, db_parsed: bool) -> Seq<Step> {
    if !rms_present {
        seq![Step::OpenDisplay, Step::FetchResourceString, Step::CloseDisplay]
    } else if !db_parsed {
        seq![Step::OpenDisplay, Step::FetchResourceString, Step::ParseDatabase, Step::CloseDisplay]
    } else {
        seq![Step::OpenDisplay, Step::FetchResourceString, Step::ParseDatabase] + Seq::new(
            19,
            |i: int| Step::LookupKey,
        ) + seq![Step::DestroyDatabase, Step::CloseDisplay]
    }
}

/// The plan of a whole session, for a shell that drives the display-server
/// library: the same interactions, as executable data.
pub fn session_plan(rms_present: bool, db_parsed: bool) -> (r: Vec<Step>)
    ensures
        r@ == session_trace(rms_present, db_parsed),
{
    let mut r: Vec<Step> = Vec::new();
    r.push(Step::OpenDisplay);
    r.push(Step::FetchResourceString);
    if rms_present {
        r.push(Step::ParseDatabase);
        if db_parsed {
            let mut i: usize = 0;
            while i < 19
                invariant
                    i <= 19,
                    r@ =~= seq![
                        Step::OpenDisplay,
                        Step::FetchResourceString,
                        Step::ParseDatabase,
                    ] + Seq::new(i as nat, |j: int| Step::LookupKey),
                decreases 19 - i,
            {
                r.push(Step::LookupKey);
                i = i + 1;
            }
            r.push(Step::DestroyDatabase);
        }
    }
    r.push(Step::CloseDisplay);
    proof {
        assert(r@ =~= session_trace(rms_present, db_parsed));
    }
    r
}

/// Counting distributes over concatenation of traces.
proof fn lemma_count_concat(a: Seq<Step>, b: Seq<Step>, x: Step)
    ensures
        count_steps(a + b, x) == count_steps(a, x) + count_steps(b, x),
    decreases b.len(),
{
    if b.len() == 0 {
        assert(a + b =~= a);
    } else {
        assert((a + b).drop_last() =~= a + b.drop_last());
        lemma_count_concat(a, b.drop_last(), x);
    }
}

/// A run of `n` equal steps holds `n` of that step and none of any other.
proof fn lemma_count_repeat(n: nat, c: Step, x: Step)
    ensures
        count_steps(Seq::new(n, |i: int| c), x) == if c == x {
            n as int
        } else {
            0
        },
    decreases n,
{
    if n > 0 {
        assert(Seq::new(n, |i: int| c).drop_last() =~= Seq::new((n - 1) as nat, |i: int| c));
        lemma_count_repeat((n - 1) as nat, c, x);
    }
}

/// Resource safety: on every path, the connection is opened exactly once and
/// closed exactly once, and the database snapshot is destroyed exactly as
/// often as one was produced — once when the resource-manager string parsed
/// into a database, and not at all otherwise.
pub proof fn lemma_resource_balance(rms_present: bool, db_parsed: bool)
    ensures
        count_steps(session_trace(rms_present, db_parsed), Step::OpenDisplay) == 1,
        count_steps(session_trace(rms_present, db_parsed), Step::CloseDisplay) == 1,
        count_steps(session_trace(rms_present, db_parsed), Step::DestroyDatabase) == if rms_present
            && db_parsed {
            1int
        } else {
            0int
        },
{
    reveal_with_fuel(count_steps, 5);
    if rms_present && db_parsed {
        let head = seq![Step::OpenDisplay, Step::FetchResourceString, Step::ParseDatabase];
        let looks = Seq::new(19, |i: int| Step::LookupKey);
        let tail = seq![Step::DestroyDatabase, Step::CloseDisplay];
        lemma_trace_parts(head, looks, tail, Step::OpenDisplay);
        lemma_trace_parts(head, looks, tail, Step::CloseDisplay);
        lemma_trace_parts(head, looks, tail, Step::DestroyDatabase);
    }
}

/// Counting over the three parts of the full-session trace.
proof fn lemma_trace_parts(head: Seq<Step>, looks: Seq<Step>, tail: Seq<Step>, x: Step)
    requires
        looks == Seq::new(19, |i: int| Step::LookupKey),
    ensures
        count_steps(head + looks + tail, x) == count_steps(head, x) + count_steps(looks, x)
            + count_steps(tail, x),
        count_steps(looks, x) == if x == Step::LookupKey {
            19int
        } else {
            0int
        },
{
    lemma_count_concat(head + looks, tail, x);
    lemma_count_concat(head, looks, x);
    lemma_count_repeat(19, Step::LookupKey, x);
}

/// Release order is strict: every session ends by closing the connection,
/// and when a snapshot was parsed it is destroyed immediately before that —
/// never after the connection is gone, and never skipped.
pub proof fn lemma_snapshot_released_before_connection(rms_present: bool, db_parsed: bool)
    ensures
        session_trace(rms_present, db_parsed).last() == Step::CloseDisplay,
        rms_present && db_parsed ==> session_trace(rms_present, db_parsed)[session_trace(
            rms_present,
            db_parsed,
        ).len() - 2] == Step::DestroyDatabase,
{
}

/// A session whose resource-manager string is absent neither queries the
/// snapshot nor destroys one: no lookup and no release is even attempted.
pub proof fn lemma_no_resource_string_no_lookup(db_parsed: bool)
    ensures
        count_steps(session_trace(false, db_parsed), Step::LookupKey) == 0,
        count_steps(session_trace(false, db_parsed), Step::DestroyDatabase) == 0,
        count_steps(session_trace(false, db_parsed), Step::ParseDatabase) == 0,
{
    reveal_with_fuel(count_steps, 4);
}

} // verus!
