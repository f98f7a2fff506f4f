//! Character-level model of the device's wire protocol: decimal digits,
//! zero-padded numeric fields, and substring matching of acknowledgement
//! patterns, together with the verified text utilities the codec and the
//! orchestrator build on.
use vstd::prelude::*;

verus! {

/// A decimal digit character.
pub open spec fn is_digit_char(c: char) -> bool {
    '0' <= c && c <= '9'
}

/// Numeric value of a digit character.
pub open spec fn digit_val(c: char) -> int {
    c as u32 - '0' as u32
}

/// The digit character for a value between 0 and 9.
pub open spec fn digit_char(d: int) -> char {
    if d == 0 {
        '0'
    } else if d == 1 {
        '1'
    } else if d == 2 {
        '2'
    } else if d == 3 {
        '3'
    } else if d == 4 {
        '4'
    } else if d == 5 {
        '5'
    } else if d == 6 {
        '6'
    } else if d == 7 {
        '7'
    } else if d == 8 {
        '8'
    } else {
        '9'
    }
}

/// Every character of the sequence is a decimal digit.
pub open spec fn all_digits(s: Seq<char>) -> bool {
    forall|i: int| 0 <= i < s.len() ==> is_digit_char(#[trigger] s[i])
}

/// The number written by a sequence of digit characters, most significant
/// first.
pub open spec fn digits_value(s: Seq<char>) -> int
    decreases s.len(),
{
    if s.len() == 0 {
        0
    } else {
        digits_value(s.drop_last()) * 10 + digit_val(s.last())
    }
}

/// A value below 1000 written as exactly three digits, zero padded.
pub open spec fn three_digits(v: int) -> Seq<char> {
    seq![digit_char(v / 100 % 10), digit_char(v / 10 % 10), digit_char(v % 10)]
}

/// The pattern occurs in the text starting at position `i`.
pub open spec fn pattern_at(text: Seq<char>, pat: Seq<char>, i: int) -> bool {
    0 <= i && i + pat.len() <= text.len() && text.subrange(i, i + pat.len()) == pat
}

/// The pattern occurs somewhere in the text.
pub open spec fn has_pattern(text: Seq<char>, pat: Seq<char>) -> bool {
    exists|i: int| pattern_at(text, pat, i)
}

/// The concatenation of `n` copies of `s`.
pub open spec fn repeated(s: Seq<char>, n: nat) -> Seq<char>
    decreases n,
{
    if n == 0 {
        Seq::empty()
    } else {
        repeated(s, (n - 1) as nat) + s
    }
}

/// Characters the device may append after a value: line terminators and
/// spaces.
pub open spec fn is_trail_char(c: char) -> bool {
    c == '\r' || c == '\n' || c == ' '
}

/// The whole sequence is trailing padding.
pub open spec fn all_trail(s: Seq<char>) -> bool {
    forall|i: int| 0 <= i < s.len() ==> is_trail_char(#[trigger] s[i])
}

/// End of the run of digit characters that starts at position `i`.
pub open spec fn digit_run_end(s: Seq<char>, i: int) -> int
    decreases s.len() - i,
{
    if i < s.len() && 0 <= i && is_digit_char(s[i]) {
        digit_run_end(s, i + 1)
    } else {
        i
    }
}

/// The single-character string for a digit value.
pub fn digit_str(d: u8) -> (r: &'static str)
    requires
        d <= 9,
    ensures
        r@ == seq![digit_char(d as int)],
        r@.len() == 1,
{
    let r: &'static str = match d {
        0 => "0",
        1 => "1",
        2 => "2",
        3 => "3",
        4 => "4",
        5 => "5",
        6 => "6",
        7 => "7",
        8 => "8",
        _ => "9",
    };
    proof {
        reveal_strlit("0");
        reveal_strlit("1");
        reveal_strlit("2");
        reveal_strlit("3");
        reveal_strlit("4");
        reveal_strlit("5");
        reveal_strlit("6");
        reveal_strlit("7");
        reveal_strlit("8");
        reveal_strlit("9");
        assert(r@ =~= seq![digit_char(d as int)]);
    }
    r
}

/// Whether the pattern occurs in the text starting exactly at position `i`.
fn pattern_matches_at(text: &str, pat: &str, i: usize) -> (r: bool)
    requires
        i + pat@.len() <= text@.len(),
    ensures
        r == pattern_at(text@, pat@, i as int),
{
    let text_len = text.unicode_len();
    let pat_len = pat.unicode_len();
    let mut j: usize = 0;
    while j < pat_len
        invariant
            0 <= j <= pat_len,
            pat_len == pat@.len(),
            text_len == text@.len(),
            i + pat_len <= text_len,
            forall|k: int| 0 <= k < j ==> text@[i + k] == pat@[k],
        decreases pat_len - j,
    {
        if text.get_char(i + j) != pat.get_char(j) {
            proof {
                assert(text@.subrange(i as int, i + pat@.len())[j as int] == text@[i + j]);
            }
            return false;
        }
        j += 1;
    }
    proof {
        assert(text@.subrange(i as int, i + pat@.len()) =~= pat@);
    }
    true
}

/// Whether `pat` occurs as a contiguous substring of `text`.
pub fn contains_pattern(text: &str, pat: &str) -> (r: bool)
    ensures
        r == has_pattern(text@, pat@),
{
    let text_len = text.unicode_len();
    let pat_len = pat.unicode_len();
    if pat_len > text_len {
        proof {
            assert(forall|i: int| !pattern_at(text@, pat@, i));
        }
        return false;
    }
    if pat_len == 0 {
        proof {
            assert(text@.subrange(0, 0) =~= pat@);
            assert(pattern_at(text@, pat@, 0));
        }
        return true;
    }
    let mut i: usize = 0;
    loop
        invariant
            0 <= i <= text_len - pat_len + 1,
            1 <= pat_len <= text_len,
            text_len == text@.len(),
            pat_len == pat@.len(),
            forall|k: int| 0 <= k < i ==> !pattern_at(text@, pat@, k),
        decreases text_len - pat_len + 1 - i,
    {
        if i > text_len - pat_len {
            proof {
                assert(forall|k: int| !pattern_at(text@, pat@, k));
            }
            return false;
        }
        if pattern_matches_at(text, pat, i) {
            return true;
        }
        i += 1;
    }
}

/// The string made of `n` copies of `s`.
pub fn repeat_str(s: &str, n: usize) -> (r: String)
    ensures
        r@ == repeated(s@, n as nat),
{
    let mut r = String::new();
    let mut i: usize = 0;
    while i < n
        invariant
            0 <= i <= n,
            r@ == repeated(s@, i as nat),
        decreases n - i,
    {
        r.append(s);
        i += 1;
    }
    r
}

/// A run of digits always writes a nonnegative number.
pub proof fn lemma_digits_value_nonneg(s: Seq<char>)
    requires
        all_digits(s),
    ensures
        0 <= digits_value(s),
    decreases s.len(),
{
    if s.len() > 0 {
        assert(all_digits(s.drop_last()));
        lemma_digits_value_nonneg(s.drop_last());
    }
}

/// Digits written back from a value below 1000 read back as that value.
pub proof fn lemma_three_digits_value(v: int)
    requires
        0 <= v < 1000,
    ensures
        all_digits(three_digits(v)),
        digits_value(three_digits(v)) == v,
        three_digits(v).len() == 3,
{
    let s = three_digits(v);
    let s2 = s.drop_last();
    let s1 = s2.drop_last();
    let s0 = s1.drop_last();
    assert(s2 =~= seq![digit_char(v / 100 % 10), digit_char(v / 10 % 10)]);
    assert(s1 =~= seq![digit_char(v / 100 % 10)]);
    assert(s0 =~= Seq::<char>::empty());
    assert(digits_value(s0) == 0);
    assert(digits_value(s1) == digit_val(digit_char(v / 100 % 10)));
    assert(digits_value(s2) == digits_value(s1) * 10 + digit_val(digit_char(v / 10 % 10)));
    assert(digits_value(s) == digits_value(s2) * 10 + digit_val(digit_char(v % 10)));
    assert(digit_val(digit_char(v / 100 % 10)) == v / 100 % 10);
    assert(digit_val(digit_char(v / 10 % 10)) == v / 10 % 10);
    assert(digit_val(digit_char(v % 10)) == v % 10);
    assert(v / 100 % 10 == v / 100);
    assert((v / 100) * 100 + (v / 10 % 10) * 10 + v % 10 == v) by {
        vstd::arithmetic::div_mod::lemma_fundamental_div_mod(v, 100);
        vstd::arithmetic::div_mod::lemma_mod_breakdown(v, 10, 10);
    };
}

} // verus!
