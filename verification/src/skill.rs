//! Upstream validation of the spoken slot values. Out-of-range or
//! non-numeric values are rejected here, before a command is ever built,
//! so the codec itself is total over what reaches it.
use crate::wire::{all_digits, digits_value};
use vstd::prelude::*;

verus! {

/// The digit characters of a spoken slot value: one leading plus sign, if
/// present, is not part of them.
pub open spec fn slot_digits(s: Seq<char>) -> Seq<char> {
    if s.len() > 0 && s[0] == '+' {
        s.subrange(1, s.len() as int)
    } else {
        s
    }
}

/// The string spells a whole number — decimal digits after an optional
/// leading plus sign — that lies between 1 and `max`.
pub open spec fn slot_in_range(s: Seq<char>, max: int) -> bool {
    let d = slot_digits(s);
    d.len() > 0 && all_digits(d) && 1 <= digits_value(d) <= max
}

/// Read a spoken slot value as a number between 1 and `max`; `None` for
/// anything else, including the `?` an unrecognized utterance arrives as.
#[verifier::loop_isolation(false)]
fn parse_bounded(value: &str, max: u8) -> (r: Option<u8>)
    requires
        1 <= max,
    ensures
        r matches Some(v) ==> slot_in_range(value@, max as int) && v as int == digits_value(
            slot_digits(value@),
        ),
        r is None ==> !slot_in_range(value@, max as int),
{
    let len = value.unicode_len();
    let start: usize = if len > 0 && value.get_char(0) == '+' {
        1
    } else {
        0
    };
    proof {
        assert(slot_digits(value@) =~= value@.subrange(start as int, len as int));
    }
    if start >= len {
        return None;
    }
    let mut acc: u16 = 0;
    let mut i: usize = start;
    while i < len
        invariant
            start <= i <= len,
            all_digits(value@.subrange(start as int, i as int)),
            acc <= max as u16 + 1,
            if digits_value(value@.subrange(start as int, i as int)) <= max as int {
                acc as int == digits_value(value@.subrange(start as int, i as int))
            } else {
                acc as int == max as int + 1
            },
        decreases len - i,
    {
        let c = value.get_char(i);
        if !(c as u32 >= 48 && c as u32 <= 57) {
            proof {
                assert(value@.subrange(start as int, len as int)[i - start] == value@[i as int]);
            }
            return None;
        }
        let d: u16 = (c as u32 - 48) as u16;
        proof {
            assert(value@.subrange(start as int, i + 1).drop_last() =~= value@.subrange(
                start as int,
                i as int,
            ));
            assert(value@.subrange(start as int, i + 1).last() == value@[i as int]);
            crate::wire::lemma_digits_value_nonneg(value@.subrange(start as int, i as int));
        }
        acc = acc * 10 + d;
        if acc > max as u16 {
            acc = max as u16 + 1;
        }
        i += 1;
    }
    if acc == 0 || acc > max as u16 {
        return None;
    }
    Some(acc as u8)
}

/// Validate the spoken volume level: an integer between 1 and 10.
pub fn validate_volume_value(value: String) -> (r: Option<u8>)
    ensures
        r matches Some(v) ==> slot_in_range(value@, 10) && v as int == digits_value(
            slot_digits(value@),
        ),
        r is None ==> !slot_in_range(value@, 10),
{
    parse_bounded(value.as_str(), 10)
}

/// Validate the spoken input id: an integer between 1 and 22.
pub fn validate_input_value(value: String) -> (r: Option<u8>)
    ensures
        r matches Some(v) ==> slot_in_range(value@, 22) && v as int == digits_value(
            slot_digits(value@),
        ),
        r is None ==> !slot_in_range(value@, 22),
{
    parse_bounded(value.as_str(), 22)
}

} // verus!
