use vstd::prelude::*;
use vstd::utf8::*;

verus! {

/// A byte that a header value may hold and still be read as text: a visible
/// ASCII character, a space or a tab.
pub open spec fn is_visible_ascii(b: u8) -> bool {
    (32 <= b && b < 127) || b == 9
}

/// A header value that names a target: not empty, and readable as text.
pub open spec fn usable_target(bytes: Seq<u8>) -> bool {
    &&& bytes.len() > 0
    &&& forall|i: int| 0 <= i < bytes.len() ==> #[trigger] is_visible_ascii(bytes[i])
}

/// The text of a header value made of ASCII bytes, one character per byte.
pub open spec fn target_chars(bytes: Seq<u8>) -> Seq<char> {
    bytes.map_values(|b: u8| b as char)
}

proof fn lemma_ascii_byte_decodes(b: u8)
    requires
        b <= 0x7f,
    ensures
        (b & 0x7f) == b,
{
    assert((b & 0x7f) == b) by (bit_vector)
        requires
            b <= 0x7f,
    ;
}

/// ASCII bytes are valid UTF-8, and decode to one character per byte.
proof fn lemma_ascii_utf8(bytes: Seq<u8>)
    requires
        forall|i: int| 0 <= i < bytes.len() ==> #[trigger] bytes[i] <= 0x7f,
    ensures
        valid_utf8(bytes),
        decode_utf8(bytes) == target_chars(bytes),
    decreases bytes.len(),
{
    if bytes.len() > 0 {
        let rest = bytes.subrange(1, bytes.len() as int);
        assert(bytes[0] <= 0x7f);
        lemma_ascii_byte_decodes(bytes[0]);
        assert(pop_first_scalar(bytes) == rest);
        assert forall|i: int| 0 <= i < rest.len() implies #[trigger] rest[i] <= 0x7f by {
            assert(rest[i] == bytes[i + 1]);
        }
        lemma_ascii_utf8(rest);
        assert(target_chars(bytes) =~= seq![bytes[0] as char] + target_chars(rest));
    } else {
        assert(target_chars(bytes) =~= Seq::<char>::empty());
    }
}

/// Relies on `String::from_utf8`: it succeeds exactly on valid UTF-8, and the
/// string then holds the characters that the bytes encode.
#[verifier::external_body]
fn string_from_utf8(bytes: Vec<u8>) -> (r: Option<String>)
    ensures
        r is Some <==> valid_utf8(bytes@),
        r is Some ==> r->Some_0@ == decode_utf8(bytes@),
{
    String::from_utf8(bytes).ok()
}

/// Reads the target URL from the value of the `X-Target-URL` header, if the
/// request carried one. A value that is empty, or that holds a byte that
/// cannot be read as text, is treated as no value at all.
pub fn target_from_header(value: Option<&[u8]>) -> (r: Option<String>)
    ensures
        r is Some <==> (value is Some && usable_target(value->Some_0@)),
        r is Some ==> r->Some_0@ == target_chars(value->Some_0@),
{
    match value {
        None => None,
        Some(bytes) => {
            if bytes.len() == 0 {
                return None;
            }
            let mut i: usize = 0;
            while i < bytes.len()
                invariant
                    value == Some(bytes),
                    0 <= i <= bytes@.len(),
                    forall|j: int| 0 <= j < i ==> #[trigger] is_visible_ascii(bytes@[j]),
                decreases bytes@.len() - i,
            {
                let b = bytes[i];
                if !((32 <= b && b < 127) || b == 9) {
                    assert(!is_visible_ascii(bytes@[i as int]));
                    return None;
                }
                i = i + 1;
            }
            proof {
                assert forall|j: int| 0 <= j < bytes@.len() implies #[trigger] bytes@[j] <= 0x7f by {
                    assert(is_visible_ascii(bytes@[j]));
                }
                lemma_ascii_utf8(bytes@);
            }
            match string_from_utf8(vstd::slice::slice_to_vec(bytes)) {
                Some(s) => Some(s),
                None => None,
            }
        },
    }
}

} // verus!
