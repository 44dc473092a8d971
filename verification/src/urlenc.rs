//! Verified `application/x-www-form-urlencoded` serialization of key/value
//! pairs, as the query-string builders of this library use it: alphanumeric
//! bytes and `*`, `-`, `.`, `_` pass through, a space becomes `+`, and every
//! other byte becomes `%` followed by two uppercase hex digits. Pairs are
//! written `key=value`, joined by `&`.

use vstd::prelude::*;
use vstd::string::StringSliceAdditionalSpecFns;
use vstd::utf8::encode_utf8;

verus! {

/// Whether a byte passes through form-urlencoding unchanged.
pub open spec fn enc_unchanged(b: u8) -> bool {
    ||| b == ('*' as u8)
    ||| b == ('-' as u8)
    ||| b == ('.' as u8)
    ||| b == ('_' as u8)
    ||| ('0' as u8) <= b <= ('9' as u8)
    ||| ('A' as u8) <= b <= ('Z' as u8)
    ||| ('a' as u8) <= b <= ('z' as u8)
}

/// The character for one hexadecimal nibble, uppercase.
pub open spec fn hex_digit_upper(d: int) -> char {
    if d < 10 {
        (('0' as u8) + d) as char
    } else {
        (('A' as u8) + (d - 10)) as char
    }
}

/// The form-urlencoding of one byte.
pub open spec fn enc_byte(b: u8) -> Seq<char> {
    if enc_unchanged(b) {
        seq![b as char]
    } else if b == (' ' as u8) {
        seq!['+']
    } else {
        seq!['%', hex_digit_upper((b >> 4u8) as int), hex_digit_upper((b & 0xfu8) as int)]
    }
}

/// The form-urlencoding of a byte string.
pub open spec fn enc_bytes(s: Seq<u8>) -> Seq<char>
    decreases s.len(),
{
    if s.len() == 0 {
        Seq::<char>::empty()
    } else {
        enc_bytes(s.drop_last()) + enc_byte(s.last())
    }
}

/// The form-urlencoding of one `key=value` pair, each side encoded over its
/// UTF-8 bytes.
pub open spec fn enc_pair(p: (Seq<u8>, Seq<u8>)) -> Seq<char> {
    enc_bytes(p.0) + "="@ + enc_bytes(p.1)
}

/// The form-urlencoding of a pair list, pairs joined by `&`.
pub open spec fn enc_pairs(ps: Seq<(Seq<u8>, Seq<u8>)>) -> Seq<char>
    decreases ps.len(),
{
    if ps.len() == 0 {
        Seq::<char>::empty()
    } else if ps.len() == 1 {
        enc_pair(ps[0])
    } else {
        enc_pairs(ps.drop_last()) + "&"@ + enc_pair(ps.last())
    }
}

/// The UTF-8 byte strings of a list of string pairs.
pub open spec fn pairs_bytes(ps: Seq<(String, String)>) -> Seq<(Seq<u8>, Seq<u8>)> {
    ps.map_values(|p: (String, String)| (encode_utf8(p.0@), encode_utf8(p.1@)))
}

/// Append the form-urlencoding of one string to `out`.
fn encode_into(out: &mut String, s: &str)
    ensures
        final(out)@ == old(out)@ + enc_bytes(s.spec_bytes()),
{
    let bytes = s.as_bytes();
    let mut i: usize = 0;
    while i < bytes.len()
        invariant
            i <= bytes@.len(),
            bytes@ == s.spec_bytes(),
            out@ =~= old(out)@ + enc_bytes(bytes@.take(i as int)),
        decreases bytes@.len() - i,
    {
        let b = bytes[i];
        let unchanged = b == ('*' as u8) || b == ('-' as u8) || b == ('.' as u8) || b == (
        '_' as u8) || (('0' as u8) <= b && b <= ('9' as u8)) || (('A' as u8) <= b && b <= (
        'Z' as u8)) || (('a' as u8) <= b && b <= ('z' as u8));
        if unchanged {
            crate::text::push_char(out, b as char);
        } else if b == (' ' as u8) {
            crate::text::push_char(out, '+');
        } else {
            proof {
                assert(b >> 4u8 < 16u8 && (b & 0xfu8) < 16u8) by (bit_vector);
            }
            let hi: u8 = b >> 4u8;
            let lo: u8 = b & 0xfu8;
            let hc: char = if hi < 10 {
                (('0' as u8) + hi) as char
            } else {
                (('A' as u8) + (hi - 10)) as char
            };
            let lc: char = if lo < 10 {
                (('0' as u8) + lo) as char
            } else {
                (('A' as u8) + (lo - 10)) as char
            };
            crate::text::push_char(out, '%');
            crate::text::push_char(out, hc);
            crate::text::push_char(out, lc);
        }
        proof {
            assert(bytes@.take(i as int + 1).drop_last() =~= bytes@.take(i as int));
            assert(out@ =~= old(out)@ + enc_bytes(bytes@.take(i as int + 1)));
        }
        i = i + 1;
    }
    proof {
        assert(bytes@.take(bytes@.len() as int) =~= bytes@);
    }
}

/// Serialize a list of key/value pairs as a form-urlencoded query string.
pub fn encode_pairs(pairs: &Vec<(String, String)>) -> (r: String)
    ensures
        r@ == enc_pairs(pairs_bytes(pairs@)),
{
    let mut out = String::new();
    let mut i: usize = 0;
    while i < pairs.len()
        invariant
            i <= pairs@.len(),
            out@ =~= enc_pairs(pairs_bytes(pairs@.take(i as int))),
        decreases pairs@.len() - i,
    {
        if i > 0 {
            out.append("&");
        }
        encode_into(&mut out, pairs[i].0.as_str());
        out.append("=");
        encode_into(&mut out, pairs[i].1.as_str());
        proof {
            let pb = pairs_bytes(pairs@.take(i as int + 1));
            assert(pairs_bytes(pairs@.take(i as int)) =~= pb.drop_last());
            assert(pb.last() == (
                encode_utf8(pairs@[i as int].0@),
                encode_utf8(pairs@[i as int].1@),
            ));
            assert(out@ =~= enc_pairs(pb));
        }
        i = i + 1;
    }
    proof {
        assert(pairs@.take(pairs@.len() as int) =~= pairs@);
    }
    out
}

} // verus!
