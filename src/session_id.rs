use vstd::prelude::*;

verus! {

/// The sixteen lowercase hexadecimal digits, in value order.
pub open spec fn hex_alphabet() -> Seq<char> {
    seq!['0', '1', '2', '3', '4', '5', '6', '7', '8', '9', 'a', 'b', 'c', 'd', 'e', 'f']
}

/// Lowercase hex rendering of a byte string: two digits per byte, high nibble first.
pub open spec fn hex_of(b: Seq<u8>) -> Seq<char>
    decreases b.len(),
{
    if b.len() == 0 {
        Seq::empty()
    } else {
        hex_of(b.drop_last()) + seq![
            hex_alphabet()[(b.last() / 16) as int],
            hex_alphabet()[(b.last() % 16) as int],
        ]
    }
}

/// A well-formed session id: sixteen lowercase hex digits.
pub open spec fn is_session_id(s: Seq<char>) -> bool {
    &&& s.len() == 16
    &&& forall|i: int| 0 <= i < s.len() ==> hex_alphabet().contains(#[trigger] s[i])
}

proof fn lemma_hex_of_shape(b: Seq<u8>)
    ensures
        hex_of(b).len() == 2 * b.len(),
        forall|i: int| 0 <= i < hex_of(b).len() ==> hex_alphabet().contains(#[trigger] hex_of(b)[i]),
    decreases b.len(),
{
    if b.len() > 0 {
        lemma_hex_of_shape(b.drop_last());
        let hi = (b.last() / 16) as int;
        let lo = (b.last() % 16) as int;
        assert(hex_alphabet().contains(hex_alphabet()[hi]));
        assert(hex_alphabet().contains(hex_alphabet()[lo]));
        let h = hex_of(b);
        let p = hex_of(b.drop_last());
        assert forall|i: int| 0 <= i < h.len() implies hex_alphabet().contains(#[trigger] h[i]) by {
            if i < p.len() {
                assert(h[i] == p[i]);
            }
        }
    }
}

/// Every id rendered from eight bytes is sixteen lowercase hex digits.
pub proof fn lemma_session_ids_are_hex(b: Seq<u8>)
    requires
        b.len() == 8,
    ensures
        is_session_id(hex_of(b)),
{
    lemma_hex_of_shape(b);
}

/// Relies on `hex::encode`: each byte becomes two digits of "0123456789abcdef",
/// high nibble first.
#[verifier::external_body]
fn encode_hex(bytes: &[u8; 8]) -> (r: String)
    ensures
        r@ == hex_of(bytes@),
{
    hex::encode(bytes)
}

/// Relies on `rand::random`: eight bytes from the thread-local generator.
/// Nothing is known of their values.
#[verifier::external_body]
fn random_id_bytes() -> (r: [u8; 8]) {
    rand::random::<[u8; 8]>()
}

/// Renders eight random bytes as a session id.
pub fn session_id_from_bytes(bytes: &[u8; 8]) -> (r: String)
    ensures
        r@ == hex_of(bytes@),
        is_session_id(r@),
{
    proof {
        lemma_session_ids_are_hex(bytes@);
    }
    encode_hex(bytes)
}

/// Mints a fresh session id from 64 random bits.
pub fn new_psql_session_id() -> (r: String)
    ensures
        is_session_id(r@),
        exists|b: Seq<u8>| b.len() == 8 && r@ == hex_of(b),
{
    let bytes = random_id_bytes();
    session_id_from_bytes(&bytes)
}

} // verus!
