//! What the library takes from other crates: random bytes and random names.
//! Nothing here is proved; each contract states what the other crate's
//! documentation and source show.

use vstd::prelude::*;

verus! {

#[verifier::external_type_specification]
#[verifier::external_body]
pub struct ExThreadRng(rand::rngs::ThreadRng);

#[verifier::external_type_specification]
#[verifier::external_body]
pub struct ExUuid(uuid::Uuid);

/// `rand::thread_rng`: the random number generator of the current thread.
/// Nothing is claimed of it. It panics where the operating system gives no
/// random bytes to seed it.
pub assume_specification[ rand::thread_rng ]() -> (rng: rand::rngs::ThreadRng)
;

/// `uuid::Uuid::new_v4`: a random identifier. Nothing is claimed of it. It
/// panics where the operating system gives no random bytes.
pub assume_specification[ uuid::Uuid::new_v4 ]() -> (id: uuid::Uuid)
;

/// `rand::RngCore::fill_bytes` of the thread's generator: overwrites every
/// byte of `dest` with random data. The contract claims only that `dest`
/// keeps its length. The call panics where the generator has to seed itself
/// anew and the operating system gives no random bytes.
#[verifier::external_body]
pub(crate) fn fill_bytes(rng: &mut rand::rngs::ThreadRng, dest: &mut Vec<u8>)
    ensures
        final(dest)@.len() == old(dest)@.len(),
{
    rand::RngCore::fill_bytes(rng, dest.as_mut_slice())
}

/// Number of characters of an identifier in its hyphenated form: 32
/// hexadecimal digits and 4 hyphens.
pub const UUID_TEXT_LEN: usize = 36;

/// Whether `c` is a decimal digit or one of the letters `a` to `f`.
pub open spec fn is_lower_hex(c: char) -> bool {
    ('0' <= c && c <= '9') || ('a' <= c && c <= 'f')
}

/// Whether a hyphen stands at the position `i` of an identifier in its
/// hyphenated form.
pub open spec fn is_hyphen_position(i: int) -> bool {
    i == 8 || i == 13 || i == 18 || i == 23
}

/// Whether `text` has the hyphenated form of an identifier: five groups of
/// 8, 4, 4, 4 and 12 lowercase hexadecimal digits with a hyphen between each
/// two.
pub open spec fn is_hyphenated_uuid(text: Seq<char>) -> bool {
    &&& text.len() == UUID_TEXT_LEN
    &&& forall|i: int|
        0 <= i < text.len() ==> if is_hyphen_position(i) {
            #[trigger] text[i] == '-'
        } else {
            is_lower_hex(text[i])
        }
}

/// `Display` of `uuid::Uuid`: the identifier in its hyphenated form, in
/// lowercase. The contract claims the shape of that form, and nothing of
/// which digits stand in it.
#[verifier::external_body]
pub(crate) fn uuid_text(id: &uuid::Uuid) -> (text: String)
    ensures
        is_hyphenated_uuid(text@),
{
    id.to_string()
}

} // verus!
