//! Character-safe truncation of text for bounded display.
//!
//! Counting and slicing are defined over code points, never over raw storage
//! units, so a multi-byte character is never split. Two formats exist: the
//! generic `"..."` suffix of [`safe_truncate`], and the verbose annotation of
//! [`truncate_tool_text_for_display`] meant for large tool outputs.

use vstd::prelude::*;
use vstd::string::*;

verus! {

/// Display limit for tool output: content beyond this many code points is
/// truncated with an annotation giving the full length.
pub const MAX_TOOL_OUTPUT_DISPLAY_CHARS: usize = 10000;

/// The three ASCII periods that mark a generic truncation.
pub open spec fn ellipsis() -> Seq<char> {
    seq!['.', '.', '.']
}

/// What truncation to `max_chars` code points returns: the text itself when
/// it fits, else the first `max_chars - 3` code points (an empty prefix when
/// `max_chars < 3`) followed by `"..."`.
pub open spec fn safe_truncate_spec(s: Seq<char>, max_chars: int) -> Seq<char> {
    if s.len() <= max_chars {
        s
    } else {
        s.take(
            if max_chars >= 3 {
                max_chars - 3
            } else {
                0
            },
        ) + ellipsis()
    }
}

/// The decimal digit character for a value below ten.
pub open spec fn digit_char(d: int) -> char {
    if d == 0 {
        '0'
    } else if d == 1 {
        '1'
    } else if d == 2 {
        '2'
    } else if d == 3 {
        '3'
    } else if d == 4 {
        '4'
    } else if d == 5 {
        '5'
    } else if d == 6 {
        '6'
    } else if d == 7 {
        '7'
    } else if d == 8 {
        '8'
    } else {
        '9'
    }
}

/// The decimal rendering of a nonnegative number, without sign or padding.
pub open spec fn dec_str(n: int) -> Seq<char>
    recommends
        n >= 0,
    decreases n,
{
    if n < 10 {
        seq![digit_char(n)]
    } else {
        dec_str(n / 10).push(digit_char(n % 10))
    }
}

fn digit_to_str(d: u64) -> (r: &'static str)
    requires
        d < 10,
    ensures
        r@.len() == 1,
        r@[0] == digit_char(d as int),
{
    proof {
        reveal_strlit("0");
        reveal_strlit("1");
        reveal_strlit("2");
        reveal_strlit("3");
        reveal_strlit("4");
        reveal_strlit("5");
        reveal_strlit("6");
        reveal_strlit("7");
        reveal_strlit("8");
        reveal_strlit("9");
    }
    if d == 0 {
        "0"
    } else if d == 1 {
        "1"
    } else if d == 2 {
        "2"
    } else if d == 3 {
        "3"
    } else if d == 4 {
        "4"
    } else if d == 5 {
        "5"
    } else if d == 6 {
        "6"
    } else if d == 7 {
        "7"
    } else if d == 8 {
        "8"
    } else {
        "9"
    }
}

fn u64_to_string(n: u64) -> (r: String)
    ensures
        r@ == dec_str(n as int),
    decreases n,
{
    if n < 10 {
        let mut out = String::new();
        out.append(digit_to_str(n));
        proof {
            assert(out@ =~= dec_str(n as int));
        }
        out
    } else {
        let mut out = u64_to_string(n / 10);
        out.append(digit_to_str(n % 10));
        proof {
            assert(out@ =~= dec_str(n as int));
        }
        out
    }
}

/// Truncate a string at code-point boundaries, keeping at most `max_chars`
/// code points of visible budget: text that fits is returned unchanged, text
/// that does not is cut and marked with `"..."`. For `max_chars` below three
/// the marker alone already exceeds the budget; the result is then `"..."`
/// with an empty prefix, and the call still succeeds.
pub fn safe_truncate(s: &str, max_chars: usize) -> (r: String)
    ensures
        r@ == safe_truncate_spec(s@, max_chars as int),
{
    let len = s.unicode_len();
    if len <= max_chars {
        s.to_owned()
    } else {
        let keep: usize = if max_chars >= 3 {
            max_chars - 3
        } else {
            0
        };
        let mut out = s.substring_char(0, keep).to_owned();
        out.append("...");
        proof {
            reveal_strlit("...");
            assert("..."@ =~= ellipsis());
            assert(out@ =~= safe_truncate_spec(s@, max_chars as int));
        }
        out
    }
}

/// Truncation to a limit never grows text that fits, always marks text that
/// does not, and for limits of at least three keeps the result within the
/// limit. (For limits below three the `"..."` marker alone is longer than
/// the limit, so only the marker clause holds there.)
pub proof fn lemma_safe_truncate_bounds(s: Seq<char>, max_chars: int)
    requires
        max_chars >= 0,
    ensures
        s.len() <= max_chars ==> safe_truncate_spec(s, max_chars) == s,
        s.len() > max_chars ==> safe_truncate_spec(s, max_chars).len() >= 3 && safe_truncate_spec(
            s,
            max_chars,
        ).skip(safe_truncate_spec(s, max_chars).len() - 3) == ellipsis(),
        s.len() > max_chars && max_chars >= 3 ==> safe_truncate_spec(s, max_chars).len()
            == max_chars,
{
    if s.len() > max_chars {
        let r = safe_truncate_spec(s, max_chars);
        assert(r.skip(r.len() - 3) =~= ellipsis());
    }
}

/// What display truncation returns for text over the limit: the first
/// `MAX_TOOL_OUTPUT_DISPLAY_CHARS` code points, a blank line, and the
/// annotation `... [output truncated: showing {limit} of {total} characters]`.
pub open spec fn truncated_display(s: Seq<char>) -> Seq<char> {
    s.take(MAX_TOOL_OUTPUT_DISPLAY_CHARS as int) + "\n\n... [output truncated: showing "@ + dec_str(
        MAX_TOOL_OUTPUT_DISPLAY_CHARS as int,
    ) + " of "@ + dec_str(s.len() as int) + " characters]"@
}

/// Truncate tool output text for user display, leaving the original intact
/// for agent processing. Text at or under the display limit needs no change
/// and yields `None`; longer text yields the truncated copy with an
/// annotation naming the limit and the full code-point count.
pub fn truncate_tool_text_for_display(text: &str) -> (r: Option<String>)
    ensures
        text@.len() <= MAX_TOOL_OUTPUT_DISPLAY_CHARS ==> r is None,
        text@.len() > MAX_TOOL_OUTPUT_DISPLAY_CHARS ==> (r matches Some(t) && t@
            == truncated_display(text@)),
{
    let count = text.unicode_len();
    if count <= MAX_TOOL_OUTPUT_DISPLAY_CHARS {
        return None;
    }
    let mut out = text.substring_char(0, MAX_TOOL_OUTPUT_DISPLAY_CHARS).to_owned();
    out.append("\n\n... [output truncated: showing ");
    let limit_digits = u64_to_string(MAX_TOOL_OUTPUT_DISPLAY_CHARS as u64);
    out.append(limit_digits.as_str());
    out.append(" of ");
    let count_digits = u64_to_string(count as u64);
    out.append(count_digits.as_str());
    out.append(" characters]");
    proof {
        assert(out@ =~= truncated_display(text@));
    }
    Some(out)
}

} // verus!
