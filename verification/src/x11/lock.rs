//! The lock file of an X display: it holds the pid of the server that owns
//! the display, right-aligned in ten columns, then a newline.
use vstd::prelude::*;
use vstd::utf8::{decode_utf8, valid_utf8};
use crate::x11::window::string_from_utf8;

verus! {

/// How many bytes of a lock file are read back.
pub const LOCK_READ_LEN: usize = 11;

/// The ASCII code of the digit `d`.
pub open spec fn digit_byte(d: nat) -> u8 {
    (48 + d) as u8
}

/// The decimal digits of `n`, as ASCII bytes, most significant first.
pub open spec fn decimal(n: nat) -> Seq<u8>
    decreases n,
{
    if n < 10 {
        seq![digit_byte(n)]
    } else {
        decimal(n / 10).push(digit_byte(n % 10))
    }
}

/// The decimal text of `v`, with a leading `-` when it is negative.
pub open spec fn int_text(v: int) -> Seq<u8> {
    if v < 0 {
        seq![45u8] + decimal((-v) as nat)
    } else {
        decimal(v as nat)
    }
}

/// The bytes of a lock file for `pid`: its text, padded on the left with
/// spaces to ten columns, and a newline.
pub open spec fn lock_bytes(pid: i32) -> Seq<u8> {
    let t = int_text(pid as int);
    let padded = if t.len() < 10 {
        Seq::new((10 - t.len()) as nat, |i: int| 32u8) + t
    } else {
        t
    };
    padded.push(10u8)
}

/// Appends the decimal digits of `n`.
fn push_decimal(out: &mut Vec<u8>, n: u32)
    ensures
        final(out)@ == old(out)@ + decimal(n as nat),
    decreases n,
{
    if n >= 10 {
        push_decimal(out, n / 10);
    }
    let d: u8 = (n % 10) as u8;
    out.push(48 + d);
    proof {
        if n >= 10 {
            assert(decimal(n as nat) == decimal((n / 10) as nat).push(digit_byte((n % 10) as nat)));
        } else {
            assert(decimal(n as nat) == seq![digit_byte(n as nat)]);
        }
    }
}

/// The bytes to write to a new lock file for the server `pid`.
pub fn lock_file_contents(pid: i32) -> (r: Vec<u8>)
    ensures
        r@ == lock_bytes(pid),
{
    let mut text: Vec<u8> = Vec::new();
    if pid < 0 {
        text.push(45u8);
    }
    let magnitude: u32 = if pid < 0 {
        (-(pid as i64)) as u32
    } else {
        pid as u32
    };
    push_decimal(&mut text, magnitude);
    assert(text@ == int_text(pid as int));
    let mut out: Vec<u8> = Vec::new();
    if text.len() < 10 {
        let pad = 10 - text.len();
        let mut i: usize = 0;
        while i < pad
            invariant
                i <= pad,
                out@ == Seq::new(i as nat, |k: int| 32u8),
            decreases pad - i,
        {
            out.push(32u8);
            i = i + 1;
            assert(out@ =~= Seq::new(i as nat, |k: int| 32u8));
        }
    }
    let ghost head = out@;
    let mut j: usize = 0;
    while j < text.len()
        invariant
            j <= text.len(),
            out@ == head + text@.take(j as int),
        decreases text.len() - j,
    {
        out.push(text[j]);
        j = j + 1;
        assert(out@ =~= head + text@.take(j as int));
    }
    assert(text@.take(j as int) =~= text@);
    out.push(10u8);
    out
}

/// `c` has the Unicode `White_Space` property.
pub open spec fn is_white_space(c: char) -> bool {
    ||| ('\u{9}' <= c && c <= '\u{d}')
    ||| c == ' '
    ||| c == '\u{85}'
    ||| c == '\u{a0}'
    ||| c == '\u{1680}'
    ||| ('\u{2000}' <= c && c <= '\u{200a}')
    ||| c == '\u{2028}'
    ||| c == '\u{2029}'
    ||| c == '\u{202f}'
    ||| c == '\u{205f}'
    ||| c == '\u{3000}'
}

/// `s` without its leading white space.
pub open spec fn trim_start(s: Seq<char>) -> Seq<char>
    decreases s.len(),
{
    if s.len() > 0 && is_white_space(s[0]) {
        trim_start(s.drop_first())
    } else {
        s
    }
}

/// `s` without its trailing white space.
pub open spec fn trim_end(s: Seq<char>) -> Seq<char>
    decreases s.len(),
{
    if s.len() > 0 && is_white_space(s.last()) {
        trim_end(s.drop_last())
    } else {
        s
    }
}

/// `s` without white space at either end.
pub open spec fn trim(s: Seq<char>) -> Seq<char> {
    trim_end(trim_start(s))
}

/// `c` is an ASCII decimal digit.
pub open spec fn is_digit(c: char) -> bool {
    '0' <= c && c <= '9'
}

/// The number that a sequence of decimal digits writes.
pub open spec fn digits_value(s: Seq<char>) -> nat
    decreases s.len(),
{
    if s.len() == 0 {
        0
    } else {
        digits_value(s.drop_last()) * 10 + ((s.last() as nat) - 48) as nat
    }
}

/// The digits of a number's text: what follows its sign, if it has one.
pub open spec fn unsigned_part(t: Seq<char>) -> Seq<char> {
    if t.len() > 0 && (t[0] == '-' || t[0] == '+') {
        t.drop_first()
    } else {
        t
    }
}

/// The `i32` that the text `t` writes, the way `str::parse::<i32>` reads
/// it: an optional sign, then one or more decimal digits, the value within
/// range.
pub open spec fn parse_i32(t: Seq<char>) -> Option<i32> {
    let digits = unsigned_part(t);
    if digits.len() == 0 || exists|i: int| 0 <= i < digits.len() && !is_digit(#[trigger] digits[i]) {
        None
    } else {
        let v: int = if t[0] == '-' {
            -(digits_value(digits) as int)
        } else {
            digits_value(digits) as int
        };
        if i32::MIN <= v && v <= i32::MAX {
            Some(v as i32)
        } else {
            None
        }
    }
}

/// The pid that the first bytes of a lock file name: their text, as UTF-8,
/// without white space at either end, read as an `i32`.
pub open spec fn lock_pid(bytes: Seq<u8>) -> Option<i32> {
    if valid_utf8(bytes) {
        parse_i32(trim(decode_utf8(bytes)))
    } else {
        None
    }
}

/// Whether `c` has the Unicode `White_Space` property.
fn white_space(c: char) -> (r: bool)
    ensures
        r == is_white_space(c),
{
    ('\u{9}' <= c && c <= '\u{d}') || c == ' ' || c == '\u{85}' || c == '\u{a0}' || c
        == '\u{1680}' || ('\u{2000}' <= c && c <= '\u{200a}') || c == '\u{2028}' || c
        == '\u{2029}' || c == '\u{202f}' || c == '\u{205f}' || c == '\u{3000}'
}

/// A longer run of digits writes a number no smaller than its prefix.
proof fn lemma_digits_value_grows(s: Seq<char>, k: int)
    requires
        0 <= k <= s.len(),
    ensures
        digits_value(s) >= digits_value(s.take(k)),
    decreases s.len(),
{
    if k < s.len() {
        assert(s.drop_last().take(k) =~= s.take(k));
        lemma_digits_value_grows(s.drop_last(), k);
    } else {
        assert(s.take(k) =~= s);
    }
}

/// Reads the text `t` as an `i32`.
fn parse_chars(t: &Vec<char>) -> (r: Option<i32>)
    ensures
        r == parse_i32(t@),
{
    let n = t.len();
    let mut start: usize = 0;
    if n > 0 && (t[0] == '-' || t[0] == '+') {
        start = 1;
    }
    let negative = n > 0 && t[0] == '-';
    let ghost digits = unsigned_part(t@);
    assert(digits =~= t@.subrange(start as int, n as int));
    if start == n {
        return None;
    }
    let mut value: u64 = 0;
    let mut k: usize = start;
    while k < n
        invariant
            start <= k <= n,
            n == t@.len(),
            digits == unsigned_part(t@),
            digits =~= t@.subrange(start as int, n as int),
            value == digits_value(digits.take(k - start)),
            value <= 0x8000_0000,
            forall|i: int| 0 <= i < k - start ==> is_digit(#[trigger] digits[i]),
        decreases n - k,
    {
        let c = t[k];
        if !('0' <= c && c <= '9') {
            assert(!is_digit(digits[k - start]));
            return None;
        }
        let d = (c as u32 - 48) as u64;
        proof {
            assert(digits.take(k + 1 - start).drop_last() =~= digits.take(k - start));
        }
        value = value * 10 + d;
        k = k + 1;
        if value > 0x8000_0000 {
            proof {
                if forall|i: int| 0 <= i < digits.len() ==> is_digit(#[trigger] digits[i]) {
                    lemma_digits_value_grows(digits, k - start);
                }
            }
            return None;
        }
    }
    assert(digits.take(k - start) =~= digits);
    if negative {
        Some((-(value as i64)) as i32)
    } else if value <= 0x7fff_ffff {
        Some(value as i32)
    } else {
        None
    }
}

/// The pid that the first bytes read from a lock file name, if they name
/// one.
pub fn parse_lock_pid(bytes: Vec<u8>) -> (r: Option<i32>)
    ensures
        r == lock_pid(bytes@),
{
    let text = match string_from_utf8(bytes) {
        Some(s) => s,
        None => {
            return None;
        },
    };
    let s = text.as_str();
    let n = s.unicode_len();
    let mut chars: Vec<char> = Vec::new();
    let mut i: usize = 0;
    while i < n
        invariant
            i <= n,
            n == s@.len(),
            chars@ == s@.take(i as int),
        decreases n - i,
    {
        chars.push(s.get_char(i));
        i = i + 1;
        assert(chars@ =~= s@.take(i as int));
    }
    assert(chars@ =~= s@);
    let mut a: usize = 0;
    while a < n && white_space(chars[a])
        invariant
            a <= n,
            n == chars@.len(),
            trim_start(chars@) == trim_start(chars@.subrange(a as int, n as int)),
        decreases n - a,
    {
        assert(chars@.subrange(a as int, n as int).drop_first() =~= chars@.subrange(a + 1, n as int));
        a = a + 1;
    }
    assert(trim_start(chars@) == chars@.subrange(a as int, n as int));
    let mut b: usize = n;
    while b > a && white_space(chars[b - 1])
        invariant
            a <= b <= n,
            n == chars@.len(),
            trim_end(chars@.subrange(a as int, n as int)) == trim_end(
                chars@.subrange(a as int, b as int),
            ),
        decreases b - a,
    {
        assert(chars@.subrange(a as int, b as int).drop_last() =~= chars@.subrange(
            a as int,
            b - 1,
        ));
        b = b - 1;
    }
    assert(trim_end(chars@.subrange(a as int, b as int)) == chars@.subrange(a as int, b as int));
    let mut trimmed: Vec<char> = Vec::new();
    let mut k: usize = a;
    while k < b
        invariant
            a <= k <= b <= n,
            n == chars@.len(),
            trimmed@ == chars@.subrange(a as int, k as int),
        decreases b - k,
    {
        trimmed.push(chars[k]);
        k = k + 1;
        assert(trimmed@ =~= chars@.subrange(a as int, k as int));
    }
    parse_chars(&trimmed)
}

/// The characters of ASCII bytes.
pub open spec fn ascii_chars(b: Seq<u8>) -> Seq<char> {
    b.map_values(|x: u8| x as char)
}

/// Bytes below 128 are valid UTF-8, one character each.
proof fn lemma_ascii_utf8(b: Seq<u8>)
    requires
        forall|i: int| 0 <= i < b.len() ==> #[trigger] b[i] < 128,
    ensures
        valid_utf8(b),
        decode_utf8(b) == ascii_chars(b),
    decreases b.len(),
{
    if b.len() > 0 {
        let x = b[0];
        assert(x & 0x7f == x) by (bit_vector)
            requires
                x < 128,
        ;
        let rest = b.subrange(1, b.len() as int);
        assert forall|i: int| 0 <= i < rest.len() implies #[trigger] rest[i] < 128 by {
            assert(rest[i] == b[i + 1]);
        }
        lemma_ascii_utf8(rest);
        assert(vstd::utf8::pop_first_scalar(b) == rest);
        assert(ascii_chars(b) =~= seq![x as char] + ascii_chars(rest));
    } else {
        assert(ascii_chars(b) =~= Seq::<char>::empty());
    }
}

/// Ten to the power `k`.
pub open spec fn pow10(k: nat) -> nat
    decreases k,
{
    if k == 0 {
        1
    } else {
        10 * pow10((k - 1) as nat)
    }
}

/// The digits of `n`: at least one, no more than its size allows, each a
/// decimal digit, and they read back as `n`.
proof fn lemma_decimal(n: nat, k: nat)
    requires
        k >= 1,
        n < pow10(k),
    ensures
        1 <= decimal(n).len() <= k,
        forall|i: int| 0 <= i < decimal(n).len() ==> 48 <= #[trigger] decimal(n)[i] <= 57,
        digits_value(ascii_chars(decimal(n))) == n,
    decreases n,
{
    if n >= 10 {
        assert(k >= 2) by {
            if k == 1 {
                assert(pow10(1) == 10 * pow10(0));
            }
        }
        assert(n / 10 < pow10((k - 1) as nat)) by {
            assert(pow10(k) == 10 * pow10((k - 1) as nat));
        }
        lemma_decimal(n / 10, (k - 1) as nat);
        let d = decimal(n / 10);
        assert(ascii_chars(decimal(n)).drop_last() =~= ascii_chars(d));
        let c = ascii_chars(decimal(n)).last();
        assert(c == digit_byte(n % 10) as char);
        assert(digit_byte(n % 10) == 48 + n % 10);
        assert(c as nat == 48 + n % 10);
        assert(digits_value(ascii_chars(decimal(n))) == digits_value(ascii_chars(d)) * 10 + n % 10);
        assert((n / 10) * 10 + n % 10 == n);
    } else {
        let c = ascii_chars(decimal(n)).last();
        assert(ascii_chars(decimal(n)).drop_last() =~= Seq::<char>::empty());
        assert(c as nat == 48 + n);
        assert(digits_value(ascii_chars(decimal(n)).drop_last()) == 0);
    }
}

/// Leading spaces are trimmed away.
proof fn lemma_trim_start_spaces(k: nat, s: Seq<char>)
    ensures
        trim_start(Seq::new(k, |i: int| ' ') + s) == trim_start(s),
    decreases k,
{
    if k > 0 {
        assert((Seq::new(k, |i: int| ' ') + s).drop_first() =~= Seq::new((k - 1) as nat, |i: int| ' ')
            + s);
        lemma_trim_start_spaces((k - 1) as nat, s);
    } else {
        assert(Seq::new(k, |i: int| ' ') + s =~= s);
    }
}

/// The text of a number: an optional `-`, then its decimal digits.
proof fn lemma_parse_text(pid: i32)
    ensures
        ({
            let t = ascii_chars(int_text(pid as int));
            &&& 1 <= int_text(pid as int).len() <= 11
            &&& forall|i: int| 0 <= i < int_text(pid as int).len() ==> #[trigger] int_text(
                pid as int,
            )[i] < 128
            &&& !is_white_space(t[0])
            &&& !is_white_space(t.last())
            &&& trim_start(t) == t
            &&& trim_end(t) == t
            &&& parse_i32(t) == Some(pid)
        }),
{
    let m: nat = if pid < 0 {
        (-(pid as int)) as nat
    } else {
        pid as nat
    };
    assert(pow10(10) == 10_000_000_000) by {
        reveal_with_fuel(pow10, 11);
    }
    lemma_decimal(m, 10);
    let d = decimal(m);
    let dc = ascii_chars(d);
    assert forall|i: int| 0 <= i < dc.len() implies is_digit(#[trigger] dc[i]) by {
        assert(48 <= d[i] <= 57);
    }
    let t = int_text(pid as int);
    let tc = ascii_chars(t);
    if pid < 0 {
        assert(t == seq![45u8] + d);
        assert(tc =~= seq!['-'] + dc);
        assert(unsigned_part(tc) =~= dc);
        assert forall|i: int| 0 <= i < t.len() implies #[trigger] t[i] < 128 by {
            if i > 0 {
                assert(t[i] == d[i - 1]);
            }
        }
    } else {
        assert(t == d);
        assert(tc == dc);
        assert(unsigned_part(tc) =~= dc);
    }
    assert(is_digit(tc.last()));
    assert(trim_start(tc) == tc);
    assert(trim_end(tc) == tc);
}

/// A lock file written for `pid` reads back as `pid`: its first eleven
/// bytes name the pid.
pub proof fn lemma_lock_round_trip(pid: i32)
    ensures
        lock_pid(lock_bytes(pid).take(LOCK_READ_LEN as int)) == Some(pid),
{
    lemma_parse_text(pid);
    let t = int_text(pid as int);
    let tc = ascii_chars(t);
    let bytes = lock_bytes(pid);
    let read = bytes.take(11);
    if t.len() < 10 {
        let pad = Seq::new((10 - t.len()) as nat, |i: int| 32u8);
        assert(bytes == (pad + t).push(10u8));
        assert(read =~= bytes);
        assert forall|i: int| 0 <= i < read.len() implies #[trigger] read[i] < 128 by {
            if 10 - t.len() <= i < 10 {
                assert(read[i] == t[i - (10 - t.len())]);
            }
        }
        lemma_ascii_utf8(read);
        let spaces = Seq::new((10 - t.len()) as nat, |i: int| ' ');
        assert(ascii_chars(read) =~= spaces + (tc + seq!['\n']));
        lemma_trim_start_spaces((10 - t.len()) as nat, tc + seq!['\n']);
        assert((tc + seq!['\n'])[0] == tc[0]);
        assert(trim_start(tc + seq!['\n']) == tc + seq!['\n']);
        assert((tc + seq!['\n']).drop_last() =~= tc);
        assert(trim_end(tc + seq!['\n']) == trim_end(tc));
    } else if t.len() == 10 {
        assert(bytes == t.push(10u8));
        assert(read =~= bytes);
        assert forall|i: int| 0 <= i < read.len() implies #[trigger] read[i] < 128 by {
            if i < 10 {
                assert(read[i] == t[i]);
            }
        }
        lemma_ascii_utf8(read);
        assert(ascii_chars(read) =~= tc + seq!['\n']);
        assert((tc + seq!['\n'])[0] == tc[0]);
        assert(trim_start(tc + seq!['\n']) == tc + seq!['\n']);
        assert((tc + seq!['\n']).drop_last() =~= tc);
        assert(trim_end(tc + seq!['\n']) == trim_end(tc));
    } else {
        assert(bytes == t.push(10u8));
        assert(read =~= t);
        lemma_ascii_utf8(read);
        assert(ascii_chars(read) == tc);
    }
}

} // verus!
