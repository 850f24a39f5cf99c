//! Progress reporting: the per-batch record and the exact text of the
//! progress lines printed after each completed batch. Formatting is purely
//! observational and never feeds back into control decisions.

use vstd::prelude::*;
use vstd::string::StringExecFns;

verus! {

/// Immutable record of one committed batch.
pub struct BatchResult {
    /// Items written in this batch.
    pub items_written: usize,
    /// Wall time of the batch's put phase, in milliseconds.
    pub batch_millis: u64,
    /// Wall time of the commit, in milliseconds.
    pub commit_millis: u64,
    /// Backend occupancy snapshot, where the backend offers one.
    pub occupancy: Option<String>,
}

/// The character for one decimal digit.
pub open spec fn digit_char(d: nat) -> char {
    if d == 0 {
        '0'
    } else if d == 1 {
        '1'
    } else if d == 2 {
        '2'
    } else if d == 3 {
        '3'
    } else if d == 4 {
        '4'
    } else if d == 5 {
        '5'
    } else if d == 6 {
        '6'
    } else if d == 7 {
        '7'
    } else if d == 8 {
        '8'
    } else {
        '9'
    }
}

/// The decimal digits of a number, most significant first, with no leading
/// zeros (zero itself is the single digit 0).
pub open spec fn dec_digits(n: nat) -> Seq<char>
    decreases n,
{
    if n < 10 {
        seq![digit_char(n)]
    } else {
        dec_digits(n / 10) + seq![digit_char(n % 10)]
    }
}

/// The one-character string for a decimal digit.
fn digit_str(d: u64) -> (s: &'static str)
    requires
        d < 10,
    ensures
        s@ == seq![digit_char(d as nat)],
{
    proof {
        reveal_strlit("0");
        reveal_strlit("1");
        reveal_strlit("2");
        reveal_strlit("3");
        reveal_strlit("4");
        reveal_strlit("5");
        reveal_strlit("6");
        reveal_strlit("7");
        reveal_strlit("8");
        reveal_strlit("9");
    }
    let s: &'static str = if d == 0 {
        "0"
    } else if d == 1 {
        "1"
    } else if d == 2 {
        "2"
    } else if d == 3 {
        "3"
    } else if d == 4 {
        "4"
    } else if d == 5 {
        "5"
    } else if d == 6 {
        "6"
    } else if d == 7 {
        "7"
    } else if d == 8 {
        "8"
    } else {
        "9"
    };
    proof {
        assert(s@ =~= seq![digit_char(d as nat)]);
    }
    s
}

/// Renders a number in decimal.
pub fn u64_to_dec(n: u64) -> (s: String)
    ensures
        s@ == dec_digits(n as nat),
    decreases n,
{
    if n < 10 {
        let mut s = String::new();
        s.append(digit_str(n));
        proof {
            assert(s@ =~= dec_digits(n as nat));
        }
        s
    } else {
        let mut s = u64_to_dec(n / 10);
        s.append(digit_str(n % 10));
        proof {
            assert(s@ =~= dec_digits(n as nat));
        }
        s
    }
}

/// The text of the line reporting one commit: how many items the batch
/// held and how long the commit took.
pub open spec fn commit_line(items: nat, commit_ms: nat) -> Seq<char> {
    "Commit "@ + dec_digits(items) + " items in "@ + dec_digits(commit_ms) + " ms"@
}

/// The text of the line reporting cumulative progress: how many items the
/// run has inserted so far and the cumulative wall time since the run
/// started.
pub open spec fn inserted_line(total_items: nat, elapsed_ms: nat) -> Seq<char> {
    "Inserted "@ + dec_digits(total_items) + " items in "@ + dec_digits(elapsed_ms) + " ms"@
}

/// Formats the commit-latency progress line for one batch.
pub fn format_commit_line(items: u64, commit_ms: u64) -> (s: String)
    ensures
        s@ == commit_line(items as nat, commit_ms as nat),
{
    let mut s = String::from_str("Commit ");
    s.append(u64_to_dec(items).as_str());
    s.append(" items in ");
    s.append(u64_to_dec(commit_ms).as_str());
    s.append(" ms");
    proof {
        assert(s@ =~= commit_line(items as nat, commit_ms as nat));
    }
    s
}

/// Formats the cumulative-progress line for one batch.
pub fn format_inserted_line(total_items: u64, elapsed_ms: u64) -> (s: String)
    ensures
        s@ == inserted_line(total_items as nat, elapsed_ms as nat),
{
    let mut s = String::from_str("Inserted ");
    s.append(u64_to_dec(total_items).as_str());
    s.append(" items in ");
    s.append(u64_to_dec(elapsed_ms).as_str());
    s.append(" ms");
    proof {
        assert(s@ =~= inserted_line(total_items as nat, elapsed_ms as nat));
    }
    s
}

/// The full progress report for one batch: the commit-latency line, the
/// cumulative-progress line, and the occupancy snapshot when the backend
/// offered one.
pub open spec fn batch_report(
    items: nat,
    commit_ms: nat,
    total_items: nat,
    elapsed_ms: nat,
    occupancy: Option<Seq<char>>,
) -> Seq<Seq<char>> {
    let base = seq![commit_line(items, commit_ms), inserted_line(total_items, elapsed_ms)];
    match occupancy {
        Some(snapshot) => base.push(snapshot),
        None => base,
    }
}

/// Formats the whole report for one committed batch, given its record, the
/// cumulative items inserted so far and the wall time since the run began.
pub fn format_batch_report(result: &BatchResult, total_items: u64, elapsed_ms: u64) -> (lines: Vec<
    String,
>)
    ensures
        lines@.map_values(|s: String| s@) == batch_report(
            result.items_written as nat,
            result.commit_millis as nat,
            total_items as nat,
            elapsed_ms as nat,
            match result.occupancy {
                Some(snapshot) => Some(snapshot@),
                None => None,
            },
        ),
{
    let mut lines: Vec<String> = Vec::new();
    lines.push(format_commit_line(result.items_written as u64, result.commit_millis));
    lines.push(format_inserted_line(total_items, elapsed_ms));
    match &result.occupancy {
        Some(snapshot) => {
            lines.push(snapshot.clone());
        },
        None => {
        },
    }
    proof {
        assert(lines@.map_values(|s: String| s@) =~= batch_report(
            result.items_written as nat,
            result.commit_millis as nat,
            total_items as nat,
            elapsed_ms as nat,
            match result.occupancy {
                Some(snapshot) => Some(snapshot@),
                None => None,
            },
        ));
    }
    lines
}

} // verus!
