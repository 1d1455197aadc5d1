use vstd::prelude::*;

verus! {

/// `uuid::Uuid` as an opaque identifier. The library stores identifiers in
/// queues and workers and never looks inside one; callers may compare them
/// with the uuid crate's own operations.
#[verifier::external_type_specification]
#[verifier::external_body]
pub struct ExUuid(uuid::Uuid);

/// Relies on `uuid::Uuid::new_v4`: a freshly generated random identifier.
/// The value is random, so nothing is promised of it.
#[verifier::external_body]
pub(crate) fn fresh_id() -> uuid::Uuid {
    uuid::Uuid::new_v4()
}

/// Relies on `names::Generator` with numbered naming: a generated
/// human-readable label. The value is random, so nothing is promised of it.
#[verifier::external_body]
pub(crate) fn generate_name() -> String {
    let mut generator = names::Generator::with_naming(names::Name::Numbered);
    match generator.next() {
        Some(label) => label,
        None => String::new(),
    }
}

} // verus!
