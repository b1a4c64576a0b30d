use vstd::prelude::*;

verus! {

/// The hyphenated lowercase text of the identifier `id`.
pub uninterp spec fn uuid_text(id: u128) -> Seq<char>;

/// What reading `s` as an identifier gives, if it is one.
pub uninterp spec fn uuid_parse(s: Seq<char>) -> Option<u128>;

/// Relies on uuid's `Uuid::from_u128` and its `Display`: the hyphenated
/// lowercase form (36 characters), which `Uuid::from_str` reads back as the
/// same identifier.
#[verifier::external_body]
pub(crate) fn format_uuid(id: u128) -> (r: String)
    ensures
        r@ == uuid_text(id),
        r@.len() == 36,
        uuid_parse(r@) == Some(id),
{
    uuid::Uuid::from_u128(id).to_string()
}

/// Relies on uuid's `Uuid::from_str` and `Uuid::as_u128`: reads the simple,
/// hyphenated, braced or URN form of an identifier.
#[verifier::external_body]
pub(crate) fn parse_uuid(s: &str) -> (r: Option<u128>)
    ensures
        r == uuid_parse(s@),
{
    match <uuid::Uuid as std::str::FromStr>::from_str(s) {
        Ok(u) => Some(u.as_u128()),
        Err(_) => None,
    }
}

/// Relies on uuid's `Uuid::new_v4`: a random identifier, of which nothing is
/// known in advance. It panics only when the system's random source fails.
#[verifier::external_body]
pub(crate) fn fresh_uuid() -> (r: u128) {
    uuid::Uuid::new_v4().as_u128()
}

} // verus!
