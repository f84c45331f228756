//! Small verified text helpers: comparing strings and writing numbers.

use vstd::prelude::*;

verus! {

/// Compares two strings character by character.
pub fn text_eq(a: &str, b: &str) -> (r: bool)
    ensures
        r == (a@ == b@),
{
    let n = a.unicode_len();
    if n != b.unicode_len() {
        return false;
    }
    let mut i: usize = 0;
    while i < n
        invariant
            n == a@.len(),
            n == b@.len(),
            i <= n,
            forall|j: int| 0 <= j < i ==> a@[j] == b@[j],
        decreases n - i,
    {
        if a.get_char(i) != b.get_char(i) {
            return false;
        }
        i = i + 1;
    }
    assert(a@ =~= b@);
    true
}

/// The character of a decimal digit.
pub open spec fn digit_char(d: nat) -> char {
    if d == 0 {
        '0'
    } else if d == 1 {
        '1'
    } else if d == 2 {
        '2'
    } else if d == 3 {
        '3'
    } else if d == 4 {
        '4'
    } else if d == 5 {
        '5'
    } else if d == 6 {
        '6'
    } else if d == 7 {
        '7'
    } else if d == 8 {
        '8'
    } else {
        '9'
    }
}

/// The decimal notation of a natural number, without leading zeros.
pub open spec fn decimal(n: nat) -> Seq<char>
    decreases n,
{
    if n < 10 {
        seq![digit_char(n)]
    } else {
        decimal(n / 10).push(digit_char(n % 10))
    }
}

fn digit_text(d: u64) -> (r: &'static str)
    requires
        d < 10,
    ensures
        r@ == seq![digit_char(d as nat)],
{
    proof {
        reveal_strlit("0");
        reveal_strlit("1");
        reveal_strlit("2");
        reveal_strlit("3");
        reveal_strlit("4");
        reveal_strlit("5");
        reveal_strlit("6");
        reveal_strlit("7");
        reveal_strlit("8");
        reveal_strlit("9");
    }
    if d == 0 {
        "0"
    } else if d == 1 {
        "1"
    } else if d == 2 {
        "2"
    } else if d == 3 {
        "3"
    } else if d == 4 {
        "4"
    } else if d == 5 {
        "5"
    } else if d == 6 {
        "6"
    } else if d == 7 {
        "7"
    } else if d == 8 {
        "8"
    } else {
        "9"
    }
}

/// Appends the decimal notation of `n` to `out`.
pub fn push_decimal(out: &mut String, n: u64)
    ensures
        final(out)@ == old(out)@ + decimal(n as nat),
    decreases n,
{
    if n < 10 {
        out.append(digit_text(n));
    } else {
        push_decimal(out, n / 10);
        out.append(digit_text(n % 10));
        assert(decimal(n as nat) == decimal((n / 10) as nat).push(digit_char((n % 10) as nat)));
    }
}

/// Whether a character stands for itself in a percent-encoded URL
/// component (the unreserved characters of RFC 3986).
pub open spec fn unreserved(c: char) -> bool {
    ||| ('A' <= c && c <= 'Z')
    ||| ('a' <= c && c <= 'z')
    ||| ('0' <= c && c <= '9')
    ||| c == '-'
    ||| c == '.'
    ||| c == '_'
    ||| c == '~'
}

/// The upper-case hexadecimal digit of `d`.
pub open spec fn hex_char(d: nat) -> char {
    if d == 0 {
        '0'
    } else if d == 1 {
        '1'
    } else if d == 2 {
        '2'
    } else if d == 3 {
        '3'
    } else if d == 4 {
        '4'
    } else if d == 5 {
        '5'
    } else if d == 6 {
        '6'
    } else if d == 7 {
        '7'
    } else if d == 8 {
        '8'
    } else if d == 9 {
        '9'
    } else if d == 10 {
        'A'
    } else if d == 11 {
        'B'
    } else if d == 12 {
        'C'
    } else if d == 13 {
        'D'
    } else if d == 14 {
        'E'
    } else {
        'F'
    }
}

/// A byte written as `%XX`.
pub open spec fn percent_byte(b: nat) -> Seq<char> {
    seq!['%', hex_char(b / 16), hex_char(b % 16)]
}

/// The percent-encoding of one character: the character itself where it
/// is unreserved, else each byte of its UTF-8 encoding as `%XX`.
pub open spec fn encode_char(c: char) -> Seq<char> {
    let n = c as nat;
    if unreserved(c) {
        seq![c]
    } else if n < 0x80 {
        percent_byte(n)
    } else if n < 0x800 {
        percent_byte(0xC0 + n / 64) + percent_byte(0x80 + n % 64)
    } else if n < 0x10000 {
        percent_byte(0xE0 + n / 4096) + percent_byte(0x80 + (n / 64) % 64) + percent_byte(
            0x80 + n % 64,
        )
    } else {
        percent_byte(0xF0 + n / 262144) + percent_byte(0x80 + (n / 4096) % 64) + percent_byte(
            0x80 + (n / 64) % 64,
        ) + percent_byte(0x80 + n % 64)
    }
}

/// The percent-encoding of a text, character by character.
pub open spec fn percent_encode(s: Seq<char>) -> Seq<char>
    decreases s.len(),
{
    if s.len() == 0 {
        Seq::empty()
    } else {
        percent_encode(s.drop_last()) + encode_char(s.last())
    }
}

fn hex_text(d: u32) -> (r: &'static str)
    requires
        d < 16,
    ensures
        r@ == seq![hex_char(d as nat)],
{
    proof {
        reveal_strlit("0");
        reveal_strlit("1");
        reveal_strlit("2");
        reveal_strlit("3");
        reveal_strlit("4");
        reveal_strlit("5");
        reveal_strlit("6");
        reveal_strlit("7");
        reveal_strlit("8");
        reveal_strlit("9");
        reveal_strlit("A");
        reveal_strlit("B");
        reveal_strlit("C");
        reveal_strlit("D");
        reveal_strlit("E");
        reveal_strlit("F");
    }
    if d == 0 {
        "0"
    } else if d == 1 {
        "1"
    } else if d == 2 {
        "2"
    } else if d == 3 {
        "3"
    } else if d == 4 {
        "4"
    } else if d == 5 {
        "5"
    } else if d == 6 {
        "6"
    } else if d == 7 {
        "7"
    } else if d == 8 {
        "8"
    } else if d == 9 {
        "9"
    } else if d == 10 {
        "A"
    } else if d == 11 {
        "B"
    } else if d == 12 {
        "C"
    } else if d == 13 {
        "D"
    } else if d == 14 {
        "E"
    } else {
        "F"
    }
}

/// Appends the upper-case hexadecimal digit of `d`.
pub fn push_hex_digit(out: &mut String, d: u32)
    requires
        d < 16,
    ensures
        final(out)@ == old(out)@ + seq![hex_char(d as nat)],
{
    out.append(hex_text(d));
}

fn push_percent_byte(out: &mut String, b: u32)
    requires
        b < 256,
    ensures
        final(out)@ == old(out)@ + percent_byte(b as nat),
{
    proof {
        reveal_strlit("%");
    }
    out.append("%");
    out.append(hex_text(b / 16));
    out.append(hex_text(b % 16));
    assert(final(out)@ =~= old(out)@ + percent_byte(b as nat));
}

fn is_unreserved(c: char) -> (r: bool)
    ensures
        r == unreserved(c),
{
    ('A' <= c && c <= 'Z') || ('a' <= c && c <= 'z') || ('0' <= c && c <= '9') || c == '-' || c
        == '.' || c == '_' || c == '~'
}

/// Appends the percent-encoding of `s` to `out`.
pub fn push_percent_encoded(out: &mut String, s: &str)
    ensures
        final(out)@ == old(out)@ + percent_encode(s@),
{
    let n = s.unicode_len();
    let ghost start = out@;
    let mut i: usize = 0;
    while i < n
        invariant
            n == s@.len(),
            i <= n,
            out@ == start + percent_encode(s@.subrange(0, i as int)),
        decreases n - i,
    {
        let c = s.get_char(i);
        let ghost before = out@;
        if is_unreserved(c) {
            out.append(s.substring_char(i, i + 1));
            assert(s@.subrange(i as int, i + 1) =~= seq![c]);
        } else {
            let code = c as u32;
            if code < 0x80 {
                push_percent_byte(out, code);
            } else if code < 0x800 {
                push_percent_byte(out, 0xC0 + code / 64);
                push_percent_byte(out, 0x80 + code % 64);
            } else if code < 0x10000 {
                push_percent_byte(out, 0xE0 + code / 4096);
                push_percent_byte(out, 0x80 + (code / 64) % 64);
                push_percent_byte(out, 0x80 + code % 64);
            } else {
                push_percent_byte(out, 0xF0 + code / 262144);
                push_percent_byte(out, 0x80 + (code / 4096) % 64);
                push_percent_byte(out, 0x80 + (code / 64) % 64);
                push_percent_byte(out, 0x80 + code % 64);
            }
            assert(out@ =~= before + encode_char(c));
        }
        let ghost prefix = s@.subrange(0, i + 1);
        assert(prefix.drop_last() =~= s@.subrange(0, i as int));
        assert(prefix.last() == c);
        i = i + 1;
    }
    assert(s@.subrange(0, n as int) =~= s@);
}

} // verus!
