use vstd::prelude::*;

verus! {

/// The hyphenated lower-case text of the UUID whose 128 bits are `v`.
pub uninterp spec fn uuid_text_of(v: u128) -> Seq<char>;

/// Relies on uuid::Uuid::from_u128 and the `Display` of `uuid::Uuid`, which
/// prints the hyphenated lower-case form.
#[verifier::external_body]
pub(crate) fn uuid_text(v: u128) -> (r: String)
    ensures
        r@ == uuid_text_of(v),
{
    uuid::Uuid::from_u128(v).to_string()
}

} // verus!
