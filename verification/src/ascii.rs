//! ASCII bytes read as text.
use vstd::prelude::*;
use vstd::string::StringSliceAdditionalSpecFns;
use vstd::utf8::{encode_utf8, is_ascii_chars, valid_utf8};

verus! {

/// The characters that ASCII bytes stand for.
pub open spec fn ascii_chars(bytes: Seq<u8>) -> Seq<char> {
    bytes.map_values(|b: u8| b as char)
}

/// Calls `core::str::from_utf8`. The contract claims what its documentation
/// says: the bytes are accepted exactly when they are valid UTF-8, and the
/// string slice it returns is those bytes.
#[verifier::external_body]
fn str_from_utf8(bytes: &[u8]) -> (r: Option<&str>)
    ensures
        r is Some <==> valid_utf8(bytes@),
        r matches Some(s) ==> s.spec_bytes() == bytes@,
{
    core::str::from_utf8(bytes).ok()
}

/// ASCII bytes are their own UTF-8 encoding.
proof fn lemma_ascii_encoding(bytes: Seq<u8>)
    requires
        forall|i: int| 0 <= i < bytes.len() ==> bytes[i] < 128,
    ensures
        encode_utf8(ascii_chars(bytes)) == bytes,
        is_ascii_chars(ascii_chars(bytes)),
{
    let c = ascii_chars(bytes);
    assert forall|i: int| 0 <= i < c.len() implies '\0' <= #[trigger] c[i] <= '\u{7f}' by {
        assert(c[i] == bytes[i] as char);
    }
    vstd::utf8::is_ascii_chars_encode_utf8(c);
    assert forall|i: int| 0 <= i < c.len() implies encode_utf8(c)[i] == bytes[i] by {
        assert(c[i] as u8 == encode_utf8(c)[i]);
        assert(c[i] == bytes[i] as char);
        assert((bytes[i] as char) as u8 == bytes[i]);
    }
    assert(encode_utf8(c) =~= bytes);
}

/// Reads ASCII bytes as a string slice, without copying.
pub(crate) fn ascii_str(bytes: &[u8]) -> (s: &str)
    requires
        forall|i: int| 0 <= i < bytes@.len() ==> bytes@[i] < 128,
    ensures
        s@ == ascii_chars(bytes@),
{
    proof {
        lemma_ascii_encoding(bytes@);
        vstd::utf8::encode_utf8_valid_utf8(ascii_chars(bytes@));
    }
    match str_from_utf8(bytes) {
        Some(s) => {
            proof {
                vstd::utf8::encode_utf8_decode_utf8(s@);
                vstd::utf8::encode_utf8_decode_utf8(ascii_chars(bytes@));
            }
            s
        },
        None => {
            proof {
                assert(false);
            }
            ""
        },
    }
}

} // verus!
