//! Text helpers: decimal numerals and C strings.

use vstd::prelude::*;

verus! {

/// The numeral of a single decimal digit.
pub open spec fn digit_str(d: int) -> Seq<char> {
    if d == 0 {
        "0"@
    } else if d == 1 {
        "1"@
    } else if d == 2 {
        "2"@
    } else if d == 3 {
        "3"@
    } else if d == 4 {
        "4"@
    } else if d == 5 {
        "5"@
    } else if d == 6 {
        "6"@
    } else if d == 7 {
        "7"@
    } else if d == 8 {
        "8"@
    } else {
        "9"@
    }
}

/// Decimal numeral of a natural number, without leading zeros.
pub open spec fn decimal_nat(n: nat) -> Seq<char>
    decreases n,
{
    if n < 10 {
        digit_str(n as int)
    } else {
        decimal_nat(n / 10) + digit_str((n % 10) as int)
    }
}

/// Decimal numeral of an integer, with a leading `-` when it is negative.
pub open spec fn decimal(x: int) -> Seq<char> {
    if x < 0 {
        "-"@ + decimal_nat((-x) as nat)
    } else {
        decimal_nat(x as nat)
    }
}

fn digit_literal(d: u64) -> (r: &'static str)
    requires
        d < 10,
    ensures
        r@ == digit_str(d as int),
{
    if d == 0 {
        "0"
    } else if d == 1 {
        "1"
    } else if d == 2 {
        "2"
    } else if d == 3 {
        "3"
    } else if d == 4 {
        "4"
    } else if d == 5 {
        "5"
    } else if d == 6 {
        "6"
    } else if d == 7 {
        "7"
    } else if d == 8 {
        "8"
    } else {
        "9"
    }
}

/// Appends the decimal numeral of `n`.
pub fn append_decimal_nat(s: &mut String, n: u64)
    ensures
        final(s)@ == old(s)@ + decimal_nat(n as nat),
    decreases n,
{
    if n >= 10 {
        append_decimal_nat(s, n / 10);
    }
    let d = digit_literal(n % 10);
    s.append(d);
    proof {
        if n >= 10 {
            assert(old(s)@ + decimal_nat((n / 10) as nat) + digit_str((n % 10) as int) =~= old(s)@ + decimal_nat(n as nat));
        } else {
            assert(old(s)@ + digit_str((n % 10) as int) =~= old(s)@ + decimal_nat(n as nat));
        }
    }
}

/// Appends the decimal numeral of `x`, with a `-` when it is negative.
pub fn append_decimal(s: &mut String, x: i64)
    ensures
        final(s)@ == old(s)@ + decimal(x as int),
{
    if x < 0 {
        s.append("-");
        let m: u64 = if x == i64::MIN { 0x8000_0000_0000_0000u64 } else { (-x) as u64 };
        append_decimal_nat(s, m);
        assert(final(s)@ =~= old(s)@ + ("-"@ + decimal_nat((-x) as nat)));
    } else {
        append_decimal_nat(s, x as u64);
    }
}

/// What `String::from_utf8_lossy` gives for a byte string: the text it encodes,
/// with each invalid sequence replaced by U+FFFD.
pub uninterp spec fn utf8_lossy(bytes: Seq<u8>) -> Seq<char>;

/// Calls `String::from_utf8_lossy`. Its documentation says that valid UTF-8
/// comes back as the text it encodes; what replaces invalid sequences is left
/// to the name `utf8_lossy`.
#[verifier::external_body]
pub(crate) fn from_utf8_lossy(bytes: &[u8]) -> (r: String)
    ensures
        r@ == utf8_lossy(bytes@),
        vstd::utf8::valid_utf8(bytes@) ==> r@ == vstd::utf8::decode_utf8(bytes@),
{
    String::from_utf8_lossy(bytes).into_owned()
}

/// The bytes of a C string held in a fixed buffer: everything before the
/// first NUL byte, or the whole buffer when it holds none.
pub open spec fn c_string_bytes(buf: Seq<u8>) -> Seq<u8> {
    if exists|i: int| 0 <= i < buf.len() && buf[i] == 0 {
        buf.take(choose|i: int| 0 <= i < buf.len() && buf[i] == 0 && forall|j: int| 0 <= j < i ==> buf[j] != 0)
    } else {
        buf
    }
}

/// Index of the first NUL byte, or the length when there is none.
pub fn c_string_len(buf: &[u8]) -> (r: usize)
    ensures
        r <= buf.len(),
        forall|j: int| 0 <= j < r ==> buf@[j] != 0,
        r < buf.len() ==> buf@[r as int] == 0,
        buf@.take(r as int) == c_string_bytes(buf@),
{
    let mut i: usize = 0;
    while i < buf.len()
        invariant
            i <= buf.len(),
            forall|j: int| 0 <= j < i ==> buf@[j] != 0,
        decreases buf.len() - i,
    {
        if buf[i] == 0 {
            proof {
                let k = choose|k: int| 0 <= k < buf@.len() && buf@[k] == 0 && forall|j: int| 0 <= j < k ==> buf@[j] != 0;
                assert(0 <= i < buf@.len() && buf@[i as int] == 0 && forall|j: int| 0 <= j < i ==> buf@[j] != 0);
                if k < i {
                    assert(buf@[k] != 0);
                }
                if i < k {
                    assert(buf@[i as int] != 0);
                }
                assert(k == i);
            }
            return i;
        }
        i = i + 1;
    }
    assert(buf@.take(buf.len() as int) =~= buf@);
    i
}

/// Text of a NUL-terminated C string held in a fixed buffer, decoded as
/// UTF-8 with invalid sequences replaced.
pub fn c_string_text(buf: &[u8]) -> (r: String)
    ensures
        r@ == utf8_lossy(c_string_bytes(buf@)),
{
    let n = c_string_len(buf);
    let mut bytes: Vec<u8> = Vec::new();
    let mut i: usize = 0;
    while i < n
        invariant
            i <= n,
            n <= buf.len(),
            bytes@ == buf@.take(i as int),
        decreases n - i,
    {
        bytes.push(buf[i]);
        proof {
            assert(buf@.take(i + 1) =~= buf@.take(i as int).push(buf@[i as int]));
        }
        i = i + 1;
    }
    from_utf8_lossy(bytes.as_slice())
}

} // verus!
