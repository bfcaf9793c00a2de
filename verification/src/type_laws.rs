//! What the Rust forms of a type are, stated from the PostgreSQL type itself: which
//! built-in types borrow, which bound an ergonomic parameter by a trait, how JSON is
//! turned into its owned form, and how the written-to-SQL form relates to the
//! parameter form.
use vstd::prelude::*;
use crate::cornucopia_type::{
    spec_accept_to_sql, spec_brw_ty, spec_is_copy, spec_is_params, spec_is_ref, spec_own_ty,
    spec_owning_call, spec_param_ergo_ty, spec_param_ty, spec_sql_wrapped, TypeModel,
};
use crate::gen_ctx::{decimal, GenCtx};
use crate::pg_type::PgTypeModel;

verus! {

/// `t` is the server's built-in `text` (25), `varchar` (1043), `bpchar` (1042) or
/// `name` (19).
pub open spec fn is_pg_string(t: PgTypeModel) -> bool {
    t.builtin && (t.oid == 25 || t.oid == 1043 || t.oid == 1042 || t.oid == 19)
}

/// `t` is the server's built-in `json` (114) or `jsonb` (3802).
pub open spec fn is_pg_json(t: PgTypeModel) -> bool {
    t.builtin && (t.oid == 114 || t.oid == 3802)
}

/// `t` is the server's built-in `bytea` (17).
pub open spec fn is_pg_bytea(t: PgTypeModel) -> bool {
    t.builtin && t.oid == 17
}

/// `t` is named like one of the text extensions.
pub open spec fn has_text_extension_name(t: PgTypeModel) -> bool {
    t.name == "citext"@ || t.name == "ltree"@ || t.name == "lquery"@ || t.name == "ltxtquery"@
}

/// Byte strings, strings, JSON and the text extensions borrow as a reference to
/// data that is not tied to the type (`&[u8]`, `&str`, raw JSON): whatever they are
/// mapped to, they never need a generic lifetime of their own.
pub proof fn law_text_like_types_need_no_lifetime(t: TypeModel)
    requires
        t is Simple,
        is_pg_bytea(t->Simple_pg_ty) || is_pg_string(t->Simple_pg_ty) || is_pg_json(
            t->Simple_pg_ty,
        ) || has_text_extension_name(t->Simple_pg_ty),
    ensures
        !spec_is_ref(t),
{
}

/// A simple type that is not text-like needs a lifetime exactly when it has a
/// borrowed form of its own or is not `Copy`.
pub proof fn law_other_simple_types_need_lifetime_when_borrowed(t: TypeModel)
    requires
        t is Simple,
        !(is_pg_bytea(t->Simple_pg_ty) || is_pg_string(t->Simple_pg_ty) || is_pg_json(
            t->Simple_pg_ty,
        ) || has_text_extension_name(t->Simple_pg_ty)),
    ensures
        spec_is_ref(t) == (t->Simple_borrowed_name is Some || !t->Simple_is_copy),
{
}

/// Strings, byte strings, JSON and the text extensions become a generic parameter:
/// one bound is appended, the matching `crate::*Sql` trait, and the parameter named
/// by the new number of bounds is returned.
pub proof fn law_text_like_parameters_are_generic(
    t: TypeModel,
    is_inner_nullable: bool,
    traits: Seq<Seq<char>>,
    ctx: GenCtx,
)
    requires
        t is Simple,
    ensures
        is_pg_string(t->Simple_pg_ty) ==> spec_param_ergo_ty(t, is_inner_nullable, traits, ctx)
            == ("T"@ + decimal((traits.len() + 1) as nat), traits.push("crate::StringSql"@)),
        is_pg_bytea(t->Simple_pg_ty) ==> spec_param_ergo_ty(t, is_inner_nullable, traits, ctx)
            == ("T"@ + decimal((traits.len() + 1) as nat), traits.push("crate::BytesSql"@)),
        is_pg_json(t->Simple_pg_ty) ==> spec_param_ergo_ty(t, is_inner_nullable, traits, ctx)
            == ("T"@ + decimal((traits.len() + 1) as nat), traits.push("crate::JsonSql"@)),
        !(is_pg_bytea(t->Simple_pg_ty) || is_pg_string(t->Simple_pg_ty) || is_pg_json(
            t->Simple_pg_ty,
        )) && has_text_extension_name(t->Simple_pg_ty) ==> spec_param_ergo_ty(
            t,
            is_inner_nullable,
            traits,
            ctx,
        ) == ("T"@ + decimal((traits.len() + 1) as nat), traits.push("crate::StringSql"@)),
        !(is_pg_bytea(t->Simple_pg_ty) || is_pg_string(t->Simple_pg_ty) || is_pg_json(
            t->Simple_pg_ty,
        ) || has_text_extension_name(t->Simple_pg_ty)) ==> spec_param_ergo_ty(
            t,
            is_inner_nullable,
            traits,
            ctx,
        ) == (spec_param_ty(t, is_inner_nullable, ctx), traits),
{
}

/// An array parameter is generic over `crate::ArraySql`: the bounds its elements
/// append come first, then one bound whose item is the element parameter (made
/// optional where elements are nullable), and the parameter bound by it is returned.
pub proof fn law_array_parameters_are_generic(
    t: TypeModel,
    is_inner_nullable: bool,
    traits: Seq<Seq<char>>,
    ctx: GenCtx,
)
    requires
        t is Array,
    ensures
        ({
            let (elem, tr) = spec_param_ergo_ty(*t->Array_inner, is_inner_nullable, traits, ctx);
            let item = if is_inner_nullable {
                "Option<"@ + elem + ">"@
            } else {
                elem
            };
            spec_param_ergo_ty(t, is_inner_nullable, traits, ctx) == (
                "T"@ + decimal((tr.len() + 1) as nat),
                tr.push("crate::ArraySql<Item = "@ + item + ">"@),
            )
        }),
{
}

/// A JSON value that is not `Copy` is decoded from its raw form when owned; a
/// nullable one is decoded inside the option.
pub proof fn law_json_is_decoded_when_owned(t: TypeModel, name: Seq<char>, is_inner_nullable: bool)
    requires
        t is Simple,
        is_pg_json(t->Simple_pg_ty),
        !t->Simple_is_copy,
    ensures
        spec_owning_call(t, name, false, is_inner_nullable) == "serde_json::from_str("@ + name
            + ".0.get()).unwrap()"@,
        spec_owning_call(t, name, true, is_inner_nullable) == name
            + ".map(|v| serde_json::from_str(v.0.get()).unwrap())"@,
{
    reveal_strlit("v");
    assert(spec_owning_call(t, "v"@, false, is_inner_nullable) == "serde_json::from_str("@ + "v"@
        + ".0.get()).unwrap()"@);
    assert(".map(|v| "@ + ("serde_json::from_str("@ + "v"@ + ".0.get()).unwrap()"@) + ")"@
        =~= ".map(|v| serde_json::from_str(v.0.get()).unwrap())"@) by {
        reveal_strlit(".map(|v| ");
        reveal_strlit("serde_json::from_str(");
        reveal_strlit(".0.get()).unwrap()");
        reveal_strlit(")");
        reveal_strlit(".map(|v| serde_json::from_str(v.0.get()).unwrap())");
    }
}

/// A `Copy` value is its own owned form, nullable or not.
pub proof fn law_copy_values_are_owned_as_they_are(
    t: TypeModel,
    name: Seq<char>,
    is_nullable: bool,
    is_inner_nullable: bool,
)
    requires
        spec_is_copy(t),
    ensures
        spec_owning_call(t, name, is_nullable, is_inner_nullable) == name,
{
}

/// Other values that are not `Copy` (strings, byte strings, generated structs) are
/// owned through `into()`.
pub proof fn law_other_values_are_owned_by_into(t: TypeModel, name: Seq<char>, is_inner_nullable: bool)
    requires
        !spec_is_copy(t),
        t is Custom || (t is Simple && !is_pg_json(t->Simple_pg_ty)),
    ensures
        spec_owning_call(t, name, false, is_inner_nullable) == name + ".into()"@,
{
}

/// A JSON parameter without a borrowed form of its own is passed as a
/// `serde_json::value::Value`, both as a parameter and when written to SQL.
pub proof fn law_json_parameters_are_values(t: TypeModel, is_inner_nullable: bool, ctx: GenCtx)
    requires
        t is Simple,
        is_pg_json(t->Simple_pg_ty),
        t->Simple_borrowed_name is None,
    ensures
        spec_param_ty(t, is_inner_nullable, ctx) == "&'a serde_json::value::Value"@,
        spec_accept_to_sql(t, ctx) == "&'a serde_json::value::Value"@,
{
}

/// What is written to SQL is the parameter form, except for a domain or an array of
/// domains, which are wrapped so that they need no cast.
pub proof fn law_accept_to_sql_is_the_parameter_form(t: TypeModel, ctx: GenCtx)
    requires
        !(t is Domain),
        !(t is Array && *t->Array_inner is Domain),
    ensures
        spec_accept_to_sql(t, ctx) == spec_param_ty(t, false, ctx),
        spec_sql_wrapped(t, "value"@) == "value"@,
{
}

/// A simple type is owned as its Rust name, and borrows as its own borrowed form
/// where it has one.
pub proof fn law_simple_types_own_as_their_rust_name(
    t: TypeModel,
    is_inner_nullable: bool,
    has_lifetime: bool,
    ctx: GenCtx,
)
    requires
        t is Simple,
    ensures
        spec_own_ty(t, is_inner_nullable, ctx) == t->Simple_rust_name,
        t->Simple_borrowed_name is Some ==> spec_brw_ty(t, is_inner_nullable, has_lifetime, ctx)
            == t->Simple_borrowed_name->Some_0 && spec_param_ty(t, is_inner_nullable, ctx)
            == t->Simple_borrowed_name->Some_0,
        is_pg_string(t->Simple_pg_ty) && t->Simple_borrowed_name is None ==> spec_brw_ty(
            t,
            is_inner_nullable,
            true,
            ctx,
        ) == "&'a str"@,
        is_pg_bytea(t->Simple_pg_ty) && t->Simple_borrowed_name is None ==> spec_brw_ty(
            t,
            is_inner_nullable,
            true,
            ctx,
        ) == "&'a [u8]"@,
{
    reveal_strlit("&'a str");
    reveal_strlit("&'a [u8]");
    reveal_strlit("&");
    reveal_strlit("'a");
    reveal_strlit(" str");
    reveal_strlit(" [u8]");
    assert("&"@ + "'a"@ + " str"@ =~= "&'a str"@);
    assert("&"@ + "'a"@ + " [u8]"@ =~= "&'a [u8]"@);
}

/// An array is never `Copy` nor a parameter as it is; it is owned as a `Vec` of its
/// elements and borrowed as a slice of them.
pub proof fn law_arrays_are_vecs_and_slices(
    t: TypeModel,
    is_inner_nullable: bool,
    has_lifetime: bool,
    ctx: GenCtx,
)
    requires
        t is Array,
    ensures
        !spec_is_copy(t),
        !spec_is_params(t),
        !is_inner_nullable ==> spec_own_ty(t, is_inner_nullable, ctx) == "Vec<"@ + spec_own_ty(
            *t->Array_inner,
            false,
            ctx,
        ) + ">"@,
        is_inner_nullable ==> spec_own_ty(t, is_inner_nullable, ctx) == "Vec<Option<"@
            + spec_own_ty(*t->Array_inner, false, ctx) + ">>"@,
        !is_inner_nullable ==> spec_brw_ty(t, is_inner_nullable, true, ctx) == "&'a ["@
            + spec_brw_ty(*t->Array_inner, false, true, ctx) + "]"@,
{
    reveal_strlit("&'a [");
    reveal_strlit("&");
    reveal_strlit("'a");
    reveal_strlit(" [");
    assert("&"@ + "'a"@ + " ["@ =~= "&'a ["@);
    let e = spec_brw_ty(*t->Array_inner, false, true, ctx);
    assert("&"@ + "'a"@ + " ["@ + e + "]"@ =~= "&'a ["@ + e + "]"@);
}

} // verus!
