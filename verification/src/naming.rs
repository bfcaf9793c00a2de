//! Names of generated Rust items, in UpperCamelCase.
use vstd::prelude::*;
use crate::cornucopia_type::cat2;

verus! {

/// What `heck::ToUpperCamelCase::to_upper_camel_case` returns for a string.
pub uninterp spec fn upper_camel_case(s: Seq<char>) -> Seq<char>;

/// Calls `<str as heck::ToUpperCamelCase>::to_upper_camel_case`. Its result depends on
/// the string alone (it splits words and capitalises each); the contract names that
/// result and states nothing more of it.
#[verifier::external_body]
pub(crate) fn to_upper_camel_case(s: &str) -> (r: String)
    ensures
        r@ == upper_camel_case(s@),
{
    heck::ToUpperCamelCase::to_upper_camel_case(s)
}

/// The wrapper name for a domain whose name is already in UpperCamelCase.
pub fn row_wrapper_name_from_camel(camel: &str) -> (r: String)
    ensures
        r@ == camel@ + "RowValue"@,
{
    cat2(camel, "RowValue")
}

/// Name of the `FromSql` wrapper generated in `types.rs` for a domain used through a row
/// override. It reinterprets the reported (base) type as the domain, then defers to the
/// mapped Rust type's own `FromSql`, exactly as a parameter or composite field would see it.
pub fn domain_row_wrapper_name(domain: &str) -> (r: String)
    ensures
        r@ == upper_camel_case(domain@) + "RowValue"@,
{
    let camel = to_upper_camel_case(domain);
    row_wrapper_name_from_camel(camel.as_str())
}

} // verus!
