//! Server-time classification from two weak signals.
//!
//! Each tick has a two-second window `(sec0, sec1)`: `sec1` is the
//! seconds component of the target second, `sec0` the one just before it
//! (wrapping at the minute). A reading says whether the remote commit
//! landed on the earlier second (`Early`, before the target), on the
//! target second (`Late`, at or after it), or on neither (`Other`,
//! inconclusive). One reading comes from the coarse textual timestamp in
//! the response metadata, one from the numeric edit-confirmation
//! timestamp; both have whole-second resolution, so the controller acts
//! only when they agree.

use crate::digits::{digit_char, to_digit_char};
use vstd::prelude::*;

verus! {

/// One classifier reading for a tick.
#[derive(Clone, Copy, Debug, PartialEq, Eq, Structural)]
pub enum ServerTime {
    /// The remote committed before the target second.
    Early,
    /// The remote committed at or after the target second.
    Late,
    /// Neither second value was recognized.
    Other,
}

/// The four characters of a textual seconds field showing the value `v`:
/// a colon, the two zero-padded digits of `v`, and a trailing space.
pub open spec fn sec_text_at(s: Seq<char>, i: int, v: int) -> bool {
    &&& s[i] == ':'
    &&& s[i + 1] == digit_char(v / 10)
    &&& s[i + 2] == digit_char(v % 10)
    &&& s[i + 3] == ' '
}

/// Whether the text shows the seconds value `v` anywhere.
pub open spec fn contains_sec(s: Seq<char>, v: int) -> bool {
    exists|i: int| 0 <= i && i + 4 <= s.len() && sec_text_at(s, i, v)
}

/// Scans the text for a seconds field showing the value `v`.
pub fn contains_sec_exec(s: &str, v: u32) -> (b: bool)
    requires
        v < 60,
    ensures
        b == contains_sec(s@, v as int),
{
    let n = s.unicode_len();
    if n < 4 {
        return false;
    }
    let tens = to_digit_char(v / 10);
    let ones = to_digit_char(v % 10);
    let mut i: usize = 0;
    while i <= n - 4
        invariant
            n == s@.len(),
            4 <= n,
            i <= n - 3,
            tens == digit_char(v as int / 10),
            ones == digit_char(v as int % 10),
            forall|j: int| 0 <= j < i ==> !sec_text_at(s@, j, v as int),
        decreases n - i,
    {
        if s.get_char(i) == ':' && s.get_char(i + 1) == tens && s.get_char(i + 2) == ones
            && s.get_char(i + 3) == ' ' {
            proof {
                assert(sec_text_at(s@, i as int, v as int));
            }
            return true;
        }
        i = i + 1;
    }
    false
}

impl ServerTime {
    /// Classifies the coarse textual timestamp of the response metadata
    /// against the window `(s0, s1)`: `Early` if it shows the second
    /// before the target, else `Late` if it shows the target second,
    /// else `Other`.
    pub fn from_header(s: &str, s0: u32, s1: u32) -> (r: ServerTime)
        requires
            s0 < 60,
            s1 < 60,
        ensures
            (r == ServerTime::Early) == contains_sec(s@, s0 as int),
            (r == ServerTime::Late) == (!contains_sec(s@, s0 as int) && contains_sec(
                s@,
                s1 as int,
            )),
            (r == ServerTime::Other) == (!contains_sec(s@, s0 as int) && !contains_sec(
                s@,
                s1 as int,
            )),
    {
        if contains_sec_exec(s, s0) {
            ServerTime::Early
        } else if contains_sec_exec(s, s1) {
            ServerTime::Late
        } else {
            ServerTime::Other
        }
    }

    /// Classifies the numeric edit-confirmation timestamp (epoch seconds)
    /// against the window `(s0, s1)` by its second-of-minute.
    pub fn from_timestamp(timestamp: u64, s0: u32, s1: u32) -> (r: ServerTime)
        ensures
            (r == ServerTime::Early) == (timestamp as int % 60 == s0),
            (r == ServerTime::Late) == (timestamp as int % 60 != s0 && timestamp as int % 60
                == s1),
            (r == ServerTime::Other) == (timestamp as int % 60 != s0 && timestamp as int % 60
                != s1),
    {
        let sec = (timestamp % 60) as u32;
        if sec == s0 {
            ServerTime::Early
        } else if sec == s1 {
            ServerTime::Late
        } else {
            ServerTime::Other
        }
    }

    /// A one-character tag for logs: '-' early, '+' late, '0' otherwise.
    pub fn symbol(&self) -> (c: char)
        ensures
            c == (match *self {
                ServerTime::Early => '-',
                ServerTime::Late => '+',
                ServerTime::Other => '0',
            }),
    {
        match self {
            ServerTime::Early => '-',
            ServerTime::Late => '+',
            ServerTime::Other => '0',
        }
    }
}

/// What the pair of readings, fine-grained first, says to the controller.
#[derive(Clone, Copy, Debug, PartialEq, Eq, Structural)]
pub enum Consensus {
    /// Both readings show the second before the target: the send landed
    /// early, the lead time should shrink.
    TooEarly,
    /// Both readings show the target second: the send landed late, the
    /// lead time should grow.
    TooLate,
    /// The fine reading leads, the coarse one lags: a benign split,
    /// nothing to correct.
    Split,
    /// The coarse reading leads the fine one, an ordering transport
    /// causality forbids: a clock anomaly worth a diagnostic, no
    /// correction.
    Anomaly,
    /// At least one reading is inconclusive: too little information
    /// this tick.
    Unclear,
}

/// The verdict the pair `(field, header)` yields, fine-grained
/// confirmation reading first, coarse metadata reading second.
pub open spec fn consensus_of(field: ServerTime, header: ServerTime) -> Consensus {
    match (field, header) {
        (ServerTime::Early, ServerTime::Early) => Consensus::TooEarly,
        (ServerTime::Early, ServerTime::Late) => Consensus::Split,
        (ServerTime::Late, ServerTime::Late) => Consensus::TooLate,
        (ServerTime::Late, ServerTime::Early) => Consensus::Anomaly,
        _ => Consensus::Unclear,
    }
}

/// Joins the two readings of one tick into a single verdict.
pub fn consensus(field: ServerTime, header: ServerTime) -> (r: Consensus)
    ensures
        r == consensus_of(field, header),
{
    match (field, header) {
        (ServerTime::Early, ServerTime::Early) => Consensus::TooEarly,
        (ServerTime::Early, ServerTime::Late) => Consensus::Split,
        (ServerTime::Late, ServerTime::Late) => Consensus::TooLate,
        (ServerTime::Late, ServerTime::Early) => Consensus::Anomaly,
        _ => Consensus::Unclear,
    }
}

/// The two-second window for a target second `sec`: the target itself and
/// the second just before it, wrapping below zero to fifty-nine.
pub fn second_window(sec: u32) -> (r: (u32, u32))
    requires
        sec < 60,
    ensures
        r.0 == (if sec == 0 {
            59int
        } else {
            sec - 1
        }),
        r.1 == sec,
{
    let before = if sec == 0 {
        59
    } else {
        sec - 1
    };
    (before, sec)
}

} // verus!
