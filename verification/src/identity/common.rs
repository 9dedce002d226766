//! URI component encoding for DID resolution URLs: unreserved characters
//! (`A-Z a-z 0-9 - _ . ! ~ * ' ( )`) are kept, every other UTF-8 byte is
//! written `%XX` in upper-case hex; decoding turns each `%XX` back into its
//! byte, keeps everything else, and requires the bytes to form UTF-8.

use vstd::prelude::*;
use vstd::utf8::{decode_utf8, valid_utf8};
use vstd::string::StringSliceAdditionalSpecFns;
use crate::text::{push_char, string_from_utf8};

verus! {

broadcast use vstd::string::group_string_axioms;

/// A byte that URI components carry unencoded.
pub open spec fn is_unreserved(b: u8) -> bool {
    ||| 65 <= b <= 90
    ||| 97 <= b <= 122
    ||| 48 <= b <= 57
    ||| b == 45 || b == 95 || b == 46 || b == 33 || b == 126 || b == 42 || b == 39 || b == 40
        || b == 41
}

/// The upper-case hex digit of `n < 16`.
pub open spec fn hex_digit(n: u8) -> char {
    if n < 10 {
        (48 + n) as char
    } else {
        (55 + n) as char
    }
}

/// The encoding of one byte.
pub open spec fn encode_byte(b: u8) -> Seq<char> {
    if is_unreserved(b) {
        seq![b as char]
    } else {
        seq!['%', hex_digit(b / 16), hex_digit(b % 16)]
    }
}

/// The encoding of a byte string.
pub open spec fn uri_encoded(bytes: Seq<u8>) -> Seq<char>
    decreases bytes.len(),
{
    if bytes.len() == 0 {
        Seq::empty()
    } else {
        uri_encoded(bytes.drop_last()) + encode_byte(bytes.last())
    }
}

fn hex_char(n: u8) -> (c: char)
    requires
        n < 16,
    ensures
        c == hex_digit(n),
{
    if n < 10 {
        (48 + n) as char
    } else {
        (55 + n) as char
    }
}

fn unreserved(b: u8) -> (r: bool)
    ensures
        r == is_unreserved(b),
{
    (65 <= b && b <= 90) || (97 <= b && b <= 122) || (48 <= b && b <= 57) || b == 45 || b == 95
        || b == 46 || b == 33 || b == 126 || b == 42 || b == 39 || b == 40 || b == 41
}

/// Percent-encodes `input` as a URI component.
pub fn encode_uri_component(input: &str) -> (r: String)
    ensures
        r@ == uri_encoded(input.spec_bytes()),
{
    let bytes = input.as_bytes();
    let ghost bs = input.spec_bytes();
    let mut out = String::new();
    let mut i: usize = 0;
    proof {
        assert(bs.take(0) =~= Seq::<u8>::empty());
    }
    while i < bytes.len()
        invariant
            i <= bytes@.len(),
            bytes@ == bs,
            out@ == uri_encoded(bs.take(i as int)),
        decreases bytes@.len() - i,
    {
        let b = bytes[i];
        proof {
            assert(bs.take(i + 1).drop_last() =~= bs.take(i as int));
            assert(bs.take(i + 1).last() == b);
        }
        if unreserved(b) {
            push_char(&mut out, b as char);
        } else {
            push_char(&mut out, '%');
            push_char(&mut out, hex_char(b / 16));
            push_char(&mut out, hex_char(b % 16));
        }
        assert(out@ =~= uri_encoded(bs.take(i as int)) + encode_byte(b));
        i = i + 1;
    }
    proof {
        assert(bs.take(bs.len() as int) =~= bs);
    }
    out
}

/// A hex digit, either case.
pub open spec fn is_hex(b: u8) -> bool {
    (48 <= b <= 57) || (65 <= b <= 70) || (97 <= b <= 102)
}

/// The value of a hex digit.
pub open spec fn hex_value(b: u8) -> u8 {
    if 48 <= b <= 57 {
        (b - 48) as u8
    } else if 65 <= b <= 70 {
        (b - 55) as u8
    } else {
        (b - 87) as u8
    }
}

/// The bytes that `bytes` stands for once each `%XX` becomes the byte `XX`;
/// a `%` not followed by two hex digits stays as it is.
pub open spec fn percent_decoded(bytes: Seq<u8>) -> Seq<u8>
    decreases bytes.len(),
{
    if bytes.len() == 0 {
        Seq::empty()
    } else if bytes.len() >= 3 && bytes[0] == 37 && is_hex(bytes[1]) && is_hex(bytes[2]) {
        seq![(hex_value(bytes[1]) * 16 + hex_value(bytes[2])) as u8] + percent_decoded(
            bytes.skip(3),
        )
    } else {
        seq![bytes[0]] + percent_decoded(bytes.skip(1))
    }
}

fn hex_val(b: u8) -> (r: Option<u8>)
    ensures
        r is Some <==> is_hex(b),
        r matches Some(v) ==> v == hex_value(b) && v < 16,
{
    if 48 <= b && b <= 57 {
        Some(b - 48)
    } else if 65 <= b && b <= 70 {
        Some(b - 55)
    } else if 97 <= b && b <= 102 {
        Some(b - 87)
    } else {
        None
    }
}

/// Decodes a percent-encoded URI component; `None` when the decoded bytes
/// are not UTF-8.
pub fn decode_uri_component(input: &str) -> (r: Option<String>)
    ensures
        r is Some <==> valid_utf8(percent_decoded(input.spec_bytes())),
        r matches Some(s) ==> s@ == decode_utf8(percent_decoded(input.spec_bytes())),
{
    let bytes = input.as_bytes();
    let ghost bs = input.spec_bytes();
    let mut out: Vec<u8> = Vec::new();
    let mut i: usize = 0;
    proof {
        assert(bs.skip(0) =~= bs);
    }
    while i < bytes.len()
        invariant
            i <= bytes@.len(),
            bytes@ == bs,
            out@ + percent_decoded(bs.skip(i as int)) == percent_decoded(bs),
        decreases bytes@.len() - i,
    {
        let ghost rest = bs.skip(i as int);
        let b = bytes[i];
        let mut step: usize = 1;
        if b == 37 && 2 < bytes.len() - i {
            let hi = hex_val(bytes[i + 1]);
            let lo = hex_val(bytes[i + 2]);
            if hi.is_some() && lo.is_some() {
                let h = hi.unwrap();
                let l = lo.unwrap();
                out.push(h * 16 + l);
                step = 3;
                proof {
                    assert(rest[0] == b && rest[1] == bytes@[i + 1] && rest[2] == bytes@[i + 2]);
                    assert(rest.skip(3) =~= bs.skip(i + 3));
                }
            }
        }
        if step == 1 {
            out.push(b);
            proof {
                assert(rest[0] == b);
                if rest.len() >= 3 {
                    assert(rest[1] == bytes@[i + 1] && rest[2] == bytes@[i + 2]);
                }
                assert(rest.skip(1) =~= bs.skip(i + 1));
            }
        }
        proof {
            assert(out@ + percent_decoded(bs.skip(i + step)) =~= percent_decoded(bs));
        }
        i = i + step;
    }
    proof {
        assert(bs.skip(bs.len() as int) =~= Seq::<u8>::empty());
        assert(out@ =~= percent_decoded(bs));
    }
    string_from_utf8(out)
}


/// The byte of an upper-case hex digit for `n < 16`.
pub open spec fn hex_byte(n: u8) -> u8 {
    if n < 10 {
        (48 + n) as u8
    } else {
        (55 + n) as u8
    }
}

/// The bytes of one byte's encoding.
pub open spec fn encode_byte_bytes(b: u8) -> Seq<u8> {
    if is_unreserved(b) {
        seq![b]
    } else {
        seq![37u8, hex_byte(b / 16), hex_byte(b % 16)]
    }
}

/// The bytes of a byte string's encoding.
pub open spec fn uri_encoded_bytes(bytes: Seq<u8>) -> Seq<u8>
    decreases bytes.len(),
{
    if bytes.len() == 0 {
        Seq::empty()
    } else {
        encode_byte_bytes(bytes[0]) + uri_encoded_bytes(bytes.skip(1))
    }
}

proof fn lemma_encoded_bytes_append(a: Seq<u8>, b: u8)
    ensures
        uri_encoded_bytes(a.push(b)) == uri_encoded_bytes(a) + encode_byte_bytes(b),
    decreases a.len(),
{
    if a.len() == 0 {
        assert(a.push(b).skip(1) =~= Seq::<u8>::empty());
        assert(a.push(b)[0] == b);
        assert(uri_encoded_bytes(Seq::<u8>::empty()) == Seq::<u8>::empty());
        assert(uri_encoded_bytes(a.push(b)) == encode_byte_bytes(b) + uri_encoded_bytes(
            a.push(b).skip(1),
        ));
        assert(encode_byte_bytes(b) + Seq::<u8>::empty() =~= encode_byte_bytes(b));
        assert(uri_encoded_bytes(a) =~= Seq::<u8>::empty());
    } else {
        assert(a.push(b).skip(1) =~= a.skip(1).push(b));
        lemma_encoded_bytes_append(a.skip(1), b);
        assert(a.push(b)[0] == a[0]);
    }
}

/// The characters of the encoding are ASCII, and their bytes are
/// `uri_encoded_bytes`.
proof fn lemma_encoded_chars_bytes(bytes: Seq<u8>)
    ensures
        vstd::utf8::is_ascii_chars(uri_encoded(bytes)),
        vstd::utf8::encode_utf8(uri_encoded(bytes)) == uri_encoded_bytes(bytes),
    decreases bytes.len(),
{
    if bytes.len() > 0 {
        let p = bytes.drop_last();
        let b = bytes.last();
        lemma_encoded_chars_bytes(p);
        assert(p.push(b) =~= bytes);
        lemma_encoded_bytes_append(p, b);
        let e = encode_byte(b);
        let whole = uri_encoded(bytes);
        assert(whole == uri_encoded(p) + e);
        assert(vstd::utf8::is_ascii_chars(e)) by {
            if !is_unreserved(b) {
                assert(b / 16 < 16 && b % 16 < 16);
            }
        }
        assert(vstd::utf8::is_ascii_chars(whole)) by {
            assert forall|i: int| 0 <= i < whole.len() implies '\0' <= #[trigger] whole[i] <= '\u{7f}' by {
                if i < uri_encoded(p).len() {
                    assert(whole[i] == uri_encoded(p)[i]);
                } else {
                    assert(whole[i] == e[i - uri_encoded(p).len()]);
                }
            }
        }
        vstd::utf8::is_ascii_chars_encode_utf8(whole);
        vstd::utf8::is_ascii_chars_encode_utf8(uri_encoded(p));
        let eb = encode_byte_bytes(b);
        let target = uri_encoded_bytes(p) + eb;
        assert(vstd::utf8::encode_utf8(whole) =~= target) by {
            assert forall|i: int| 0 <= i < whole.len() implies vstd::utf8::encode_utf8(whole)[i] == target[i] by {
                assert(vstd::utf8::encode_utf8(whole)[i] == whole[i] as u8);
                if i < uri_encoded(p).len() {
                    assert(whole[i] == uri_encoded(p)[i]);
                    assert(vstd::utf8::encode_utf8(uri_encoded(p))[i] == uri_encoded(p)[i] as u8);
                } else {
                    let k = i - uri_encoded(p).len();
                    assert(whole[i] == e[k]);
                    if is_unreserved(b) {
                        assert((b as char) as u8 == b);
                    } else {
                        let hi = b / 16;
                        let lo = b % 16;
                        assert(hi < 16 && lo < 16);
                        if k == 1 {
                            assert(hex_digit(hi) as u8 == hex_byte(hi));
                        }
                        if k == 2 {
                            assert(hex_digit(lo) as u8 == hex_byte(lo));
                        }
                    }
                }
            }
        }
    } else {
        assert(vstd::utf8::encode_utf8(uri_encoded(bytes)) =~= Seq::<u8>::empty());
    }
}

proof fn lemma_hex_roundtrip(n: u8)
    requires
        n < 16,
    ensures
        is_hex(hex_byte(n)),
        hex_value(hex_byte(n)) == n,
{
}

/// Decoding the bytes of an encoding gives back the bytes encoded.
proof fn lemma_decode_encoded_bytes(bytes: Seq<u8>)
    ensures
        percent_decoded(uri_encoded_bytes(bytes)) == bytes,
    decreases bytes.len(),
{
    if bytes.len() > 0 {
        let b = bytes[0];
        let rest = bytes.skip(1);
        lemma_decode_encoded_bytes(rest);
        let eb = encode_byte_bytes(b);
        let all = eb + uri_encoded_bytes(rest);
        assert(uri_encoded_bytes(bytes) == all);
        if is_unreserved(b) {
            assert(all[0] == b);
            assert(b != 37);
            assert(all.skip(1) =~= uri_encoded_bytes(rest));
            assert(percent_decoded(all) == seq![b] + percent_decoded(all.skip(1)));
        } else {
            let hi = b / 16;
            let lo = b % 16;
            lemma_hex_roundtrip(hi);
            lemma_hex_roundtrip(lo);
            assert(all[0] == 37u8 && all[1] == hex_byte(hi) && all[2] == hex_byte(lo));
            assert(all.skip(3) =~= uri_encoded_bytes(rest));
            assert((hex_value(all[1]) * 16 + hex_value(all[2])) as u8 == b);
            assert(percent_decoded(all) == seq![b] + percent_decoded(all.skip(3)));
        }
        assert(seq![b] + rest =~= bytes);
    } else {
        assert(uri_encoded_bytes(bytes) =~= Seq::<u8>::empty());
    }
}

/// Decoding a component that was encoded gives back the original text.
pub proof fn law_uri_component_roundtrip(s: Seq<char>)
    ensures
        valid_utf8(percent_decoded(vstd::utf8::encode_utf8(uri_encoded(vstd::utf8::encode_utf8(s))))),
        decode_utf8(percent_decoded(vstd::utf8::encode_utf8(uri_encoded(vstd::utf8::encode_utf8(s)))))
            == s,
{
    let bs = vstd::utf8::encode_utf8(s);
    lemma_encoded_chars_bytes(bs);
    lemma_decode_encoded_bytes(bs);
    vstd::utf8::encode_utf8_valid_utf8(s);
    vstd::utf8::encode_utf8_decode_utf8(s);
}

} // verus!
