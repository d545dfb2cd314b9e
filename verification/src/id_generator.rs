//! Identifiers for new tasks: random UUIDs, written in their hyphenated form.

use vstd::prelude::*;
use crate::ports::IdGeneratorPort;

verus! {

/// A digit of lower-case hexadecimal.
pub open spec fn is_lower_hex(c: char) -> bool {
    ('0' <= c && c <= '9') || ('a' <= c && c <= 'f')
}

/// The hyphenated form of a random UUID: 36 characters, hyphens after the
/// groups of 8, 4, 4 and 4 digits, lower-case hexadecimal digits elsewhere,
/// the version digit `4` and a variant digit of `8` to `b`.
pub open spec fn is_random_uuid(id: Seq<char>) -> bool {
    &&& id.len() == 36
    &&& forall|i: int|
        0 <= i < 36 ==> if i == 8 || i == 13 || i == 18 || i == 23 {
            #[trigger] id[i] == '-'
        } else {
            is_lower_hex(id[i])
        }
    &&& id[14] == '4'
    &&& (id[19] == '8' || id[19] == '9' || id[19] == 'a' || id[19] == 'b')
}

/// Calls `Uuid::new_v4` of the crate `uuid` and writes the result with its
/// `Display`, the hyphenated lower-case form, whatever the random bytes
/// were. `new_v4` panics where the system hands out no random bytes.
#[verifier::external_body]
fn random_uuid() -> (id: String)
    ensures
        is_random_uuid(id@),
{
    uuid::Uuid::new_v4().to_string()
}

/// Names tasks with random UUIDs.
pub struct UUIDGeneratorAdapter;

impl UUIDGeneratorAdapter {
    pub fn new() -> (generator: UUIDGeneratorAdapter) {
        UUIDGeneratorAdapter {  }
    }
}

impl IdGeneratorPort for UUIDGeneratorAdapter {
    /// A new random UUID in its hyphenated form.
    fn generate_id(&self) -> (id: String)
        ensures
            is_random_uuid(id@),
    {
        random_uuid()
    }
}

/// Names tasks with random UUIDs, as `UUIDGeneratorAdapter` does.
pub struct IdGeneratorAdapter;

impl IdGeneratorAdapter {
    pub fn new() -> (generator: IdGeneratorAdapter) {
        IdGeneratorAdapter {  }
    }
}

impl IdGeneratorPort for IdGeneratorAdapter {
    /// A new random UUID in its hyphenated form.
    fn generate_id(&self) -> (id: String)
        ensures
            is_random_uuid(id@),
    {
        random_uuid()
    }
}

} // verus!
