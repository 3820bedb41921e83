//! Text primitives shared by the rest of the library: whitespace trimming and
//! hexadecimal rendering of identifiers.

use vstd::prelude::*;

verus! {

/// Whether `c` carries the Unicode `White_Space` property.
pub open spec fn is_white_space(c: char) -> bool {
    let n = c as u32;
    ||| 0x09 <= n <= 0x0d
    ||| n == 0x20
    ||| n == 0x85
    ||| n == 0xa0
    ||| n == 0x1680
    ||| 0x2000 <= n <= 0x200a
    ||| n == 0x2028
    ||| n == 0x2029
    ||| n == 0x202f
    ||| n == 0x205f
    ||| n == 0x3000
}

/// `s` without its leading whitespace.
pub open spec fn trim_start(s: Seq<char>) -> Seq<char>
    decreases s.len(),
{
    if s.len() > 0 && is_white_space(s[0]) {
        trim_start(s.subrange(1, s.len() as int))
    } else {
        s
    }
}

/// `s` without its trailing whitespace.
pub open spec fn trim_end(s: Seq<char>) -> Seq<char>
    decreases s.len(),
{
    if s.len() > 0 && is_white_space(s.last()) {
        trim_end(s.drop_last())
    } else {
        s
    }
}

/// `s` without leading and trailing whitespace.
pub open spec fn trimmed(s: Seq<char>) -> Seq<char> {
    trim_end(trim_start(s))
}

/// The lower-case hexadecimal digit of a value below sixteen.
pub open spec fn hex_digit(n: int) -> char {
    if n < 10 {
        ('0' as u8 + n) as u8 as char
    } else {
        ('a' as u8 + n - 10) as u8 as char
    }
}

/// Two lower-case hexadecimal digits per byte, high nibble first.
pub open spec fn hex_string(bytes: Seq<u8>) -> Seq<char> {
    Seq::new(
        2 * bytes.len(),
        |i: int|
            if i % 2 == 0 {
                hex_digit(bytes[i / 2] as int / 16)
            } else {
                hex_digit(bytes[i / 2] as int % 16)
            },
    )
}

/// Calls `str::trim` of the standard library. Trusted: the result is the
/// argument with every leading and trailing `White_Space` character removed,
/// as the standard library documents.
#[verifier::external_body]
pub(crate) fn trim(s: &str) -> (r: &str)
    ensures
        r@ == trimmed(s@),
{
    s.trim()
}

/// Calls `jj_lib::hex_util::encode_hex`. Trusted: each byte becomes two
/// digits out of `0123456789abcdef`, the high four bits first.
#[verifier::external_body]
pub(crate) fn encode_hex(bytes: &Vec<u8>) -> (hex: String)
    ensures
        hex@ == hex_string(bytes@),
{
    jj_lib::hex_util::encode_hex(bytes)
}

/// Whether two byte strings are equal.
pub fn same_bytes(a: &Vec<u8>, b: &Vec<u8>) -> (same: bool)
    ensures
        same == (a@ == b@),
{
    if a.len() != b.len() {
        return false;
    }
    let mut i: usize = 0;
    while i < a.len()
        invariant
            i <= a.len(),
            a.len() == b.len(),
            forall|k: int| 0 <= k < i ==> a@[k] == b@[k],
        decreases a.len() - i,
    {
        if a[i] != b[i] {
            return false;
        }
        i += 1;
    }
    assert(a@ =~= b@);
    true
}

/// The decimal digits of `n`, most significant first.
pub open spec fn decimal(n: nat) -> Seq<char>
    decreases n,
{
    if n < 10 {
        seq![hex_digit(n as int)]
    } else {
        decimal(n / 10).push(hex_digit((n % 10) as int))
    }
}

/// The digit `d` as a one-character string.
fn digit_str(d: usize) -> (s: &'static str)
    requires
        d < 10,
    ensures
        s@ == seq![hex_digit(d as int)],
{
    proof {
        reveal_strlit("0");
        reveal_strlit("1");
        reveal_strlit("2");
        reveal_strlit("3");
        reveal_strlit("4");
        reveal_strlit("5");
        reveal_strlit("6");
        reveal_strlit("7");
        reveal_strlit("8");
        reveal_strlit("9");
    }
    let s = if d == 0 {
        "0"
    } else if d == 1 {
        "1"
    } else if d == 2 {
        "2"
    } else if d == 3 {
        "3"
    } else if d == 4 {
        "4"
    } else if d == 5 {
        "5"
    } else if d == 6 {
        "6"
    } else if d == 7 {
        "7"
    } else if d == 8 {
        "8"
    } else {
        "9"
    };
    assert(s@ =~= seq![hex_digit(d as int)]);
    s
}

/// Renders `n` in decimal.
pub fn to_decimal(n: usize) -> (digits: String)
    ensures
        digits@ == decimal(n as nat),
    decreases n,
{
    if n < 10 {
        String::from_str(digit_str(n))
    } else {
        let mut digits = to_decimal(n / 10);
        digits.append(digit_str(n % 10));
        digits
    }
}

/// Number of hexadecimal digits in the short form of an identifier.
pub const SHORT_HASH_LEN: usize = 12;

/// The first twelve hexadecimal digits of an identifier, or all of them
/// where it has fewer.
pub open spec fn short_hash(id: Seq<u8>) -> Seq<char> {
    if 2 * id.len() <= 12 {
        hex_string(id)
    } else {
        hex_string(id).subrange(0, 12)
    }
}

/// The short form of a commit identifier, as shown in messages.
pub fn short_commit_hash(id: &Vec<u8>) -> (short: String)
    ensures
        short@ == short_hash(id@),
{
    let hex = encode_hex(id);
    if id.len() <= SHORT_HASH_LEN / 2 {
        hex
    } else {
        String::from_str(hex.as_str().substring_char(0, SHORT_HASH_LEN))
    }
}

} // verus!
