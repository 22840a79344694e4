//! The progress parser: what one line of an operation's output says about
//! how far the operation has come.

use crate::sandbox_backend::SandboxBackend;
use crate::text::{all_digits, decimal_of, decimal_value, is_digit};
use crate::transaction_state::{
    SoukTransactionMode, SoukTransactionState, TransactionStateView, FULL_PERCENTAGE,
};
use vstd::prelude::*;
use vstd::string::*;

verus! {

/// The pattern of a percentage in a progress line: one to three digits and
/// a percent sign. The digits are the pattern's first group.
pub const PERCENTAGE_PATTERN: &'static str = r"(\d{1,3})%";

/// What the first group of `pattern` holds in the leftmost match of
/// `pattern` in `haystack`, as the `regex` crate finds it; `None` where
/// `pattern` does not compile, where nothing matches, and where the group
/// took no part in the match.
pub uninterp spec fn regex_first_group(pattern: Seq<char>, haystack: Seq<char>) -> Option<
    Seq<char>,
>;

/// Compiles `pattern` with `regex::Regex::new`, searches `haystack` with
/// `Regex::captures`, and hands out the text of group 1 of the match
/// (`Captures::get`, `Match::as_str`). The contract only gives that text its
/// name, `regex_first_group`: the crate computes it from the two arguments
/// alone. A pattern that does not compile gives `None`, as no match does.
#[verifier::external_body]
fn first_group(pattern: &str, haystack: &str) -> (group: Option<String>)
    ensures
        group matches Some(text) ==> regex_first_group(pattern@, haystack@) == Some(text@),
        group is None ==> regex_first_group(pattern@, haystack@) is None,
{
    let regex = match regex::Regex::new(pattern) {
        Ok(regex) => regex,
        Err(_) => return None,
    };
    let found = regex.captures(haystack)?;
    let group = found.get(1)?;
    Some(group.as_str().to_string())
}

/// The percentage that the captured digits stand for, in hundredths: the
/// number they write, but no more than the whole. Without a capture, and
/// for a capture that is not one to three ASCII digits, there is none.
pub open spec fn percentage_of_capture(capture: Option<Seq<char>>) -> Option<u32> {
    match capture {
        Some(digits) => if 1 <= digits.len() <= 3 && all_digits(digits) {
            if decimal_value(digits) <= FULL_PERCENTAGE {
                Some(decimal_value(digits) as u32)
            } else {
                Some(FULL_PERCENTAGE)
            }
        } else {
            None
        },
        None => None,
    }
}

/// The snapshot for a progress line whose percentage pattern captured
/// `capture`: the running stage, the whole line as the message, and the
/// percentage of the capture. A line tells neither the step of the
/// operation nor the download rate.
pub open spec fn state_of_line(line: Seq<char>, capture: Option<Seq<char>>)
    -> TransactionStateView {
    TransactionStateView {
        message: line,
        percentage: percentage_of_capture(capture),
        mode: SoukTransactionMode::Running,
        operation_index: 0,
        operation_count: 0,
        download_rate: None,
    }
}

/// The snapshot that a progress line gives.
pub open spec fn parsed_line(line: Seq<char>) -> TransactionStateView {
    state_of_line(line, regex_first_group(PERCENTAGE_PATTERN@, line))
}

impl SandboxBackend {
    /// Reads one line of an operation's output. Every line gives a snapshot
    /// in the running stage with the line as its message. The percentage is
    /// that of the first place in the line where one to three digits stand
    /// before a percent sign; a line without such a place gives a snapshot
    /// without a percentage.
    pub fn parse_line(line: String) -> (state: SoukTransactionState)
        ensures
            state@ == parsed_line(line@),
            state@.wf(),
    {
        let capture = first_group(PERCENTAGE_PATTERN, line.as_str());
        Self::state_from_capture(line, capture)
    }

    /// Builds the snapshot of a line from what the percentage pattern
    /// captured in it.
    pub fn state_from_capture(line: String, capture: Option<String>) -> (state:
        SoukTransactionState)
        ensures
            state@ == state_of_line(
                line@,
                match capture {
                    Some(digits) => Some(digits@),
                    None => None,
                },
            ),
            state@.wf(),
    {
        let percentage = match capture {
            Some(digits) => Self::percentage_from_digits(digits.as_str()),
            None => None,
        };
        SoukTransactionState {
            message: line,
            percentage,
            mode: SoukTransactionMode::Running,
            operation_index: 0,
            operation_count: 0,
            download_rate: None,
        }
    }

    /// Turns the captured digits into hundredths, capped at the whole.
    fn percentage_from_digits(digits: &str) -> (percentage: Option<u32>)
        ensures
            percentage == percentage_of_capture(Some(digits@)),
    {
        broadcast use is_ascii_spec_bytes;

        if !digits.is_ascii() {
            assert(!all_digits(digits@)) by {
                if all_digits(digits@) {
                    assert forall|i: int| 0 <= i < digits@.len() implies '\0'
                        <= #[trigger] digits@[i] <= '\u{7f}' by {
                        assert(is_digit(digits@[i]));
                    }
                }
            }
            return None;
        }
        let len = digits.as_bytes().len();
        proof {
            is_ascii_spec_bytes(digits);
            assert(digits.spec_bytes().len() == digits@.len());
        }
        if len < 1 || len > 3 {
            return None;
        }
        match decimal_of(digits) {
            Some(number) => if number <= FULL_PERCENTAGE as u64 {
                Some(number as u32)
            } else {
                Some(FULL_PERCENTAGE)
            },
            None => {
                proof {
                    if all_digits(digits@) {
                        lemma_short_numeral_is_small(digits@);
                    }
                }
                None
            },
        }
    }
}

/// No line is dropped: whatever a line holds, its snapshot is well-formed,
/// is in the running stage and carries the whole line as its message.
pub proof fn lemma_every_line_gives_a_snapshot(line: Seq<char>)
    ensures
        parsed_line(line).wf(),
        parsed_line(line).message == line,
        parsed_line(line).mode == SoukTransactionMode::Running,
{
}

/// Reading a line is a function of the line: two snapshots read from the
/// same line are the same snapshot.
pub proof fn lemma_same_line_same_snapshot(
    line: Seq<char>,
    first: SoukTransactionState,
    second: SoukTransactionState,
)
    requires
        first@ == parsed_line(line),
        second@ == parsed_line(line),
    ensures
        first@ == second@,
{
}

/// A line in which the percentage pattern finds nothing gives a snapshot
/// without a percentage, and the percentage held before the line is the
/// percentage held after it.
pub proof fn lemma_line_without_percentage(line: Seq<char>, held: TransactionStateView)
    requires
        regex_first_group(PERCENTAGE_PATTERN@, line) is None,
    ensures
        parsed_line(line).percentage is None,
        held.followed_by(parsed_line(line)).percentage == held.percentage,
        held.followed_by(parsed_line(line)).message == line,
{
}

/// A numeral of at most three digits writes a number below a thousand.
pub proof fn lemma_short_numeral_is_small(digits: Seq<char>)
    requires
        all_digits(digits),
        digits.len() <= 3,
    ensures
        decimal_value(digits) <= 999,
{
    reveal_with_fuel(decimal_value, 4);
    if digits.len() >= 1 {
        let a = digits.drop_last();
        assert(is_digit(digits.last()));
        if a.len() >= 1 {
            let b = a.drop_last();
            assert(a.last() == digits[digits.len() - 2]);
            assert(is_digit(a.last()));
            if b.len() >= 1 {
                assert(b.last() == digits[digits.len() - 3]);
                assert(is_digit(b.last()));
                assert(b.drop_last().len() == 0);
            }
        }
    }
}

} // verus!
