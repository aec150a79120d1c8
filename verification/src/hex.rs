//! Hex colour literals.
//!
//! A colour is written as an integral literal such as `0xDC143Cff`: a `0x`
//! prefix followed by six hex digits (red, green, blue) or eight (red,
//! green, blue, alpha).  [`color_from_hex`] turns such a token into its
//! bytes, two digits to a byte, most significant channel first.

use vstd::prelude::*;

use crate::error::Error;

verus! {

/// `c` is an ASCII hex digit.
pub open spec fn is_hex_digit(c: char) -> bool {
    let u = c as u32;
    (48 <= u && u <= 57) || (97 <= u && u <= 102) || (65 <= u && u <= 70)
}

/// The value of the hex digit `c`.
pub open spec fn hex_val(c: char) -> u8 {
    let u = c as u32;
    if 48 <= u && u <= 57 {
        (u - 48) as u8
    } else if 97 <= u && u <= 102 {
        (u - 87) as u8
    } else {
        (u - 55) as u8
    }
}

/// `s` is a colour literal: a `0x` prefix and then exactly six or eight hex
/// digits.
pub open spec fn valid_hex_token(s: Seq<char>) -> bool {
    &&& (s.len() == 8 || s.len() == 10)
    &&& s[0] == '0'
    &&& s[1] == 'x'
    &&& forall|i: int| 2 <= i < s.len() ==> is_hex_digit(#[trigger] s[i])
}

/// The bytes a colour literal denotes: each pair of digits after the prefix,
/// most significant digit first.
pub open spec fn color_bytes(s: Seq<char>) -> Seq<u8> {
    Seq::new(((s.len() - 2) / 2) as nat, |i: int| (16 * hex_val(s[2 * i + 2]) + hex_val(s[2 * i + 3])) as u8)
}

/// The number a sequence of hex digits denotes, most significant first.
pub open spec fn hex_value(s: Seq<char>) -> nat
    decreases s.len(),
{
    if s.len() == 0 {
        0
    } else {
        (hex_value(s.drop_last()) * 16 + hex_val(s.last())) as nat
    }
}

/// The number a sequence of bytes denotes in base 256, most significant
/// first.
pub open spec fn bytes_value(b: Seq<u8>) -> nat
    decreases b.len(),
{
    if b.len() == 0 {
        0
    } else {
        (bytes_value(b.drop_last()) * 256 + b.last()) as nat
    }
}

/// Pairing hex digits two to a byte keeps their value: the first `k` bytes
/// denote in base 256 what the first `2 * k` digits denote in base 16.
proof fn lemma_pairs_value(d: Seq<char>, pairs: Seq<u8>, k: int)
    requires
        pairs.len() * 2 <= d.len(),
        forall|i: int|
            0 <= i < pairs.len() ==> pairs[i] == 16 * hex_val(d[2 * i]) + hex_val(
                #[trigger] d[2 * i + 1],
            ),
        forall|i: int| 0 <= i < d.len() ==> is_hex_digit(#[trigger] d[i]),
        0 <= k <= pairs.len(),
    ensures
        bytes_value(pairs.take(k)) == hex_value(d.take(2 * k)),
    decreases k,
{
    if k == 0 {
        assert(pairs.take(0) =~= Seq::<u8>::empty());
        assert(d.take(0) =~= Seq::<char>::empty());
    } else {
        lemma_pairs_value(d, pairs, k - 1);
        let b = pairs.take(k);
        let h = d.take(2 * k);
        assert(b.drop_last() =~= pairs.take(k - 1));
        assert(h.drop_last() =~= d.take(2 * k - 1));
        assert(h.drop_last().drop_last() =~= d.take(2 * k - 2));
        let x = hex_value(d.take(2 * k - 2));
        let hi = hex_val(d[2 * k - 2]);
        let lo = hex_val(d[2 * k - 1]);
        assert(h.last() == d[2 * k - 1]);
        assert(d.take(2 * k - 1).last() == d[2 * k - 2]);
        assert(hex_value(d.take(2 * k - 1)) == x * 16 + hi);
        assert(hex_value(h) == hex_value(d.take(2 * k - 1)) * 16 + lo);
        assert(hex_value(h) == (x * 16 + hi) * 16 + lo);
        assert(hi < 16 && lo < 16);
        assert(pairs[k - 1] == 16 * hex_val(d[2 * (k - 1)]) + hex_val(d[2 * (k - 1) + 1]));
        assert(d[2 * (k - 1)] == d[2 * k - 2] && d[2 * (k - 1) + 1] == d[2 * k - 1]);
        assert(b.last() == 16 * hi + lo);
        assert(bytes_value(b) == x * 256 + 16 * hi + lo);
        assert((x * 16 + hi) * 16 + lo == x * 256 + 16 * hi + lo) by (nonlinear_arith);
    }
}

/// The bytes of a colour literal are the base-256 digits of the number its
/// hex digits denote: pairing the digits two to a byte loses nothing.
pub proof fn lemma_color_bytes_value(s: Seq<char>)
    requires
        valid_hex_token(s),
    ensures
        bytes_value(color_bytes(s)) == hex_value(s.skip(2)),
{
    let d = s.skip(2);
    let pairs = color_bytes(s);
    assert(forall|i: int| 0 <= i < d.len() ==> d[i] == s[i + 2]);
    assert forall|i: int| 0 <= i < pairs.len() implies pairs[i] == 16 * hex_val(d[2 * i])
        + hex_val(#[trigger] d[2 * i + 1]) by {
        assert(is_hex_digit(s[2 * i + 2]) && is_hex_digit(s[2 * i + 3]));
        assert(hex_val(s[2 * i + 2]) < 16 && hex_val(s[2 * i + 3]) < 16);
    }
    let k = pairs.len() as int;
    lemma_pairs_value(d, pairs, k);
    assert(pairs.take(k) =~= pairs);
    assert(d.take(2 * k) =~= d);
}

/// The value of an ASCII hex digit, or `None` for any other character.
fn hex_digit_value(c: char) -> (r: Option<u8>)
    ensures
        r is Some <==> is_hex_digit(c),
        is_hex_digit(c) ==> r == Some(hex_val(c)) && hex_val(c) < 16,
{
    let u = c as u32;
    if 48 <= u && u <= 57 {
        Some((u - 48) as u8)
    } else if 97 <= u && u <= 102 {
        Some((u - 87) as u8)
    } else if 65 <= u && u <= 70 {
        Some((u - 55) as u8)
    } else {
        None
    }
}

/// A checked colour literal: the token itself and the number of bytes it
/// denotes (three for an RGB literal, four for an RGBA one).
pub struct HexLit {
    pub repr: String,
    pub bytes: usize,
}

impl HexLit {
    /// Checks the shape of a colour literal: the `0x` prefix and six or
    /// eight hex digits, nothing else.
    pub fn parse(token: &str) -> (r: Result<HexLit, Error>)
        ensures
            r is Ok <==> valid_hex_token(token@),
            r matches Ok(lit) ==> lit.repr@ == token@ && lit.bytes == (token@.len() - 2) / 2,
    {
        let n = token.unicode_len();
        if n != 8 && n != 10 {
            return Err(Error::new(String::from_str(
                "expected a maximum of 6 or 8 characters, ex: 4c4c4cff",
            )));
        }
        if token.get_char(0) != '0' || token.get_char(1) != 'x' {
            return Err(Error::new(String::from_str("expected `0x` prefix")));
        }
        let mut i: usize = 2;
        while i < n
            invariant
                2 <= i <= n,
                n == token@.len(),
                (n == 8 || n == 10),
                token@[0] == '0',
                token@[1] == 'x',
                forall|j: int| 2 <= j < i ==> is_hex_digit(#[trigger] token@[j]),
            decreases n - i,
        {
            if hex_digit_value(token.get_char(i)).is_none() {
                return Err(Error::new(String::from_str("expected a hex digit")));
            }
            i += 1;
        }
        Ok(HexLit { repr: token.to_owned(), bytes: (n - 2) / 2 })
    }
}

/// Turns a colour literal such as `0xDC143Cff` into its bytes, two hex
/// digits to a byte: three bytes for six digits, four for eight.  Any other
/// token is rejected.
pub fn color_from_hex(token: &str) -> (r: Result<Vec<u8>, Error>)
    ensures
        r is Ok <==> valid_hex_token(token@),
        r matches Ok(v) ==> v@ == color_bytes(token@),
{
    let lit = match HexLit::parse(token) {
        Ok(lit) => lit,
        Err(e) => {
            return Err(e);
        },
    };
    let mut out: Vec<u8> = Vec::new();
    let mut j: usize = 0;
    while j < lit.bytes
        invariant
            0 <= j <= lit.bytes,
            valid_hex_token(token@),
            lit.bytes == (token@.len() - 2) / 2,
            out@.len() == j,
            forall|k: int| 0 <= k < j ==> out@[k] == color_bytes(token@)[k],
        decreases lit.bytes - j,
    {
        let hi = match hex_digit_value(token.get_char(2 * j + 2)) {
            Some(v) => v,
            None => {
                proof {
                    assert(is_hex_digit(token@[2 * j + 2]));
                }
                return Err(Error::new(String::from_str("expected a hex digit")));
            },
        };
        let lo = match hex_digit_value(token.get_char(2 * j + 3)) {
            Some(v) => v,
            None => {
                proof {
                    assert(is_hex_digit(token@[2 * j + 3]));
                }
                return Err(Error::new(String::from_str("expected a hex digit")));
            },
        };
        out.push(16 * hi + lo);
        j += 1;
    }
    proof {
        assert(out@ =~= color_bytes(token@));
    }
    Ok(out)
}

} // verus!
