//! Character and string helpers shared by the parser, the response catalog and
//! the session: ASCII-case-insensitive comparison and CRLF line termination.

use vstd::prelude::*;

verus! {

/// The two characters are equal up to ASCII case: either identical, or the
/// same letter once as a capital and once as a small letter.
pub open spec fn ieq_char(a: char, b: char) -> bool {
    ||| a == b
    ||| ('A' <= a && a <= 'Z' && b as u32 == a as u32 + 32)
    ||| ('A' <= b && b <= 'Z' && a as u32 == b as u32 + 32)
}

/// The two character sequences are equal up to ASCII case.
pub open spec fn seq_ieq(a: Seq<char>, b: Seq<char>) -> bool {
    a.len() == b.len() && forall|i: int| 0 <= i < a.len() ==> ieq_char(a[i], b[i])
}

/// Case-insensitive equality of characters is an equivalence relation; this
/// gives its transitivity, which makes [`seq_ieq`] transitive as well.
pub proof fn lemma_ieq_char_trans(a: char, b: char, c: char)
    requires
        ieq_char(a, b),
        ieq_char(b, c),
    ensures
        ieq_char(a, c),
{
}

/// Exact equality of two string slices, decided character by character.
pub fn str_eq(a: &str, b: &str) -> (r: bool)
    ensures
        r == (a@ == b@),
{
    let alen = a.unicode_len();
    let blen = b.unicode_len();
    if alen != blen {
        return false;
    }
    let mut i: usize = 0;
    while i < alen
        invariant
            alen == a@.len(),
            blen == b@.len(),
            alen == blen,
            i <= alen,
            forall|j: int| 0 <= j < i ==> a@[j] == b@[j],
        decreases alen - i,
    {
        if a.get_char(i) != b.get_char(i) {
            return false;
        }
        i += 1;
    }
    proof {
        assert(a@ =~= b@);
    }
    true
}

/// Equality of two string slices up to ASCII case, decided character by
/// character.
pub fn str_ieq(a: &str, b: &str) -> (r: bool)
    ensures
        r == seq_ieq(a@, b@),
{
    let alen = a.unicode_len();
    let blen = b.unicode_len();
    if alen != blen {
        return false;
    }
    let mut i: usize = 0;
    while i < alen
        invariant
            alen == a@.len(),
            blen == b@.len(),
            alen == blen,
            i <= alen,
            forall|j: int| 0 <= j < i ==> ieq_char(a@[j], b@[j]),
        decreases alen - i,
    {
        let ca = a.get_char(i);
        let cb = b.get_char(i);
        let same = ca == cb
            || ('A' <= ca && ca <= 'Z' && cb as u32 == ca as u32 + 32)
            || ('A' <= cb && cb <= 'Z' && ca as u32 == cb as u32 + 32);
        if !same {
            return false;
        }
        i += 1;
    }
    true
}

/// The sequence ends in the two-character line terminator `\r\n`.
pub open spec fn ends_crlf(s: Seq<char>) -> bool {
    s.len() >= 2 && s[s.len() - 2] == '\r' && s[s.len() - 1] == '\n'
}

/// Decides [`ends_crlf`] on a string slice.
pub fn ends_with_crlf(s: &str) -> (r: bool)
    ensures
        r == ends_crlf(s@),
{
    let n = s.unicode_len();
    if n < 2 {
        return false;
    }
    s.get_char(n - 2) == '\r' && s.get_char(n - 1) == '\n'
}

/// Terminates a line for the wire: the message unchanged when it already ends
/// in `\r\n`, and with `\r\n` appended otherwise.
pub fn ensure_crlf(msg: &str) -> (r: String)
    ensures
        ends_crlf(msg@) ==> r@ == msg@,
        !ends_crlf(msg@) ==> r@ == msg@ + seq!['\r', '\n'],
{
    let mut r = String::from_str(msg);
    if !ends_with_crlf(msg) {
        r.append("\r\n");
        proof {
            reveal_strlit("\r\n");
            assert(r@ =~= msg@ + seq!['\r', '\n']);
        }
    }
    r
}

/// The digit character of a value below ten.
pub open spec fn digit_char(d: int) -> char {
    if d == 0 {
        '0'
    } else if d == 1 {
        '1'
    } else if d == 2 {
        '2'
    } else if d == 3 {
        '3'
    } else if d == 4 {
        '4'
    } else if d == 5 {
        '5'
    } else if d == 6 {
        '6'
    } else if d == 7 {
        '7'
    } else if d == 8 {
        '8'
    } else {
        '9'
    }
}

/// The decimal writing of `n`, most significant digit first and without
/// leading zeroes (a single `0` for zero itself).
pub open spec fn dec_digits(n: nat) -> Seq<char>
    decreases n,
{
    if n < 10 {
        seq![digit_char(n as int)]
    } else {
        dec_digits(n / 10).push(digit_char((n % 10) as int))
    }
}

/// The digit character of a value below ten.
fn digit_str(d: u16) -> (r: &'static str)
    requires
        d < 10,
    ensures
        r@ == seq![digit_char(d as int)],
{
    let r: &'static str = if d == 0 {
        "0"
    } else if d == 1 {
        "1"
    } else if d == 2 {
        "2"
    } else if d == 3 {
        "3"
    } else if d == 4 {
        "4"
    } else if d == 5 {
        "5"
    } else if d == 6 {
        "6"
    } else if d == 7 {
        "7"
    } else if d == 8 {
        "8"
    } else {
        "9"
    };
    proof {
        reveal_strlit("0");
        reveal_strlit("1");
        reveal_strlit("2");
        reveal_strlit("3");
        reveal_strlit("4");
        reveal_strlit("5");
        reveal_strlit("6");
        reveal_strlit("7");
        reveal_strlit("8");
        reveal_strlit("9");
        assert(r@ =~= seq![digit_char(d as int)]);
    }
    r
}

/// Writes `n` in decimal.
pub fn u16_to_dec(n: u16) -> (r: String)
    ensures
        r@ == dec_digits(n as nat),
    decreases n,
{
    if n < 10 {
        String::from_str(digit_str(n))
    } else {
        let mut r = u16_to_dec(n / 10);
        r.append(digit_str(n % 10));
        proof {
            assert(r@ =~= dec_digits((n / 10) as nat).push(digit_char((n % 10) as int)));
        }
        r
    }
}

} // verus!
