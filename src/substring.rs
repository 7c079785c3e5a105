use crate::diagnostic::DiagnosticCollector;
use vstd::prelude::*;
use vstd::string::StrSliceExecFns;
use vstd::utf8::is_ascii_chars;

verus! {

/// Why `substring(input, start, stop, _)` gives no result, if it gives none:
/// the first of the three conditions that fails.
pub open spec fn substring_error(input: Seq<char>, start: nat, stop: nat) -> Option<Seq<char>> {
    if start >= stop {
        Some("start > stop"@)
    } else if !is_ascii_chars(input) {
        Some("the input to substring was not ascii"@)
    } else if input.len() < stop {
        Some("the input was too short"@)
    } else {
        None
    }
}

/// The characters that `substring` picks when it succeeds: `[start, stop)`
/// counted from the front, or from the back when `reverse` holds.
pub open spec fn substring_of(input: Seq<char>, start: nat, stop: nat, reverse: bool) -> Seq<char> {
    if !reverse {
        input.subrange(start as int, stop as int)
    } else {
        input.subrange(input.len() - stop, input.len() - start)
    }
}

/// Substring of an ASCII `input`.
///
/// When `reverse` is false the indexes count from the beginning of the
/// string; when it is true they count from its end, and the result still
/// reads forwards. `start` must be below `stop`; non-ASCII input gives `None`.
pub fn substring<'a>(
    input: &'a str,
    start: usize,
    stop: usize,
    reverse: bool,
    e: &mut DiagnosticCollector,
) -> (r: Option<&'a str>)
    ensures
        substring_error(input@, start as nat, stop as nat) is Some ==> {
            &&& r is None
            &&& final(e)@ == substring_error(input@, start as nat, stop as nat)
        },
        substring_error(input@, start as nat, stop as nat) is None ==> {
            &&& r is Some
            &&& r.unwrap()@ == substring_of(input@, start as nat, stop as nat, reverse)
            &&& final(e)@ == old(e)@
        },
{
    if start >= stop {
        return e.capture_error("start > stop");
    }
    if !input.is_ascii() {
        return e.capture_error("the input to substring was not ascii");
    }
    let len = input.unicode_len();
    if len < stop {
        return e.capture_error("the input was too short");
    }
    let (effective_start, effective_stop) = if !reverse {
        (start, stop)
    } else {
        (len - stop, len - start)
    };
    Some(input.substring_ascii(effective_start, effective_stop))
}

} // verus!
