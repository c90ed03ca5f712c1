use vstd::prelude::*;

verus! {

/// The snake-case form of a character sequence, as the case-conversion
/// library computes it. The result depends on the characters alone.
pub uninterp spec fn snake_of(s: Seq<char>) -> Seq<char>;

/// The upper-camel-case form of a character sequence, as the
/// case-conversion library computes it. The result depends on the
/// characters alone.
pub uninterp spec fn camel_of(s: Seq<char>) -> Seq<char>;

/// Relies on heck's `SnakeCase::to_snake_case` for `str`: a pure function
/// of the input characters, used to derive target-language field and
/// module labels.
#[verifier::external_body]
pub fn to_snake_case(s: &str) -> (r: String)
    ensures
        r@ == snake_of(s@),
{
    heck::SnakeCase::to_snake_case(s)
}

/// Relies on heck's `CamelCase::to_camel_case` for `str`: a pure function
/// of the input characters, used to derive nested record name segments.
#[verifier::external_body]
pub fn to_camel_case(s: &str) -> (r: String)
    ensures
        r@ == camel_of(s@),
{
    heck::CamelCase::to_camel_case(s)
}

} // verus!
