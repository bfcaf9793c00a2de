//! A PostgreSQL type paired with its Rust counterpart.
use std::rc::Rc;
use vstd::prelude::*;
use crate::gen_ctx::{decimal, idx_char, spec_custom_ty_path, GenCtx};
use crate::pg_type::{
    is_builtin, is_builtin_json, is_builtin_string, is_text_extension, str_eq, PgType,
    PgTypeModel, BYTEA_OID,
};

verus! {

/// A PostgreSQL type and its Rust equivalent.
#[derive(Debug, Clone, PartialEq, Eq)]
pub enum CornucopiaType {
    Simple {
        pg_ty: PgType,
        rust_name: String,
        /// The borrowed counterpart type name, with explicit lifetime (e.g., `MyType<'a>`)
        borrowed_name: Option<String>,
        is_copy: bool,
    },
    Array { inner: Rc<CornucopiaType> },
    Domain { pg_ty: PgType, inner: Rc<CornucopiaType> },
    Custom { pg_ty: PgType, struct_name: String, is_copy: bool, is_params: bool },
}

/// The mathematical value of a [`CornucopiaType`].
pub enum TypeModel {
    Simple {
        pg_ty: PgTypeModel,
        rust_name: Seq<char>,
        borrowed_name: Option<Seq<char>>,
        is_copy: bool,
    },
    Array { inner: Box<TypeModel> },
    Domain { pg_ty: PgTypeModel, inner: Box<TypeModel> },
    Custom { pg_ty: PgTypeModel, struct_name: Seq<char>, is_copy: bool, is_params: bool },
}

pub open spec fn opt_string_model(o: Option<String>) -> Option<Seq<char>> {
    match o {
        Some(s) => Some(s@),
        None => None,
    }
}

pub open spec fn cornucopia_model(t: CornucopiaType) -> TypeModel
    decreases t,
{
    match t {
        CornucopiaType::Simple { pg_ty, rust_name, borrowed_name, is_copy } => TypeModel::Simple {
            pg_ty: pg_ty@,
            rust_name: rust_name@,
            borrowed_name: opt_string_model(borrowed_name),
            is_copy,
        },
        CornucopiaType::Array { inner } => TypeModel::Array {
            inner: Box::new(cornucopia_model(*inner)),
        },
        CornucopiaType::Domain { pg_ty, inner } => TypeModel::Domain {
            pg_ty: pg_ty@,
            inner: Box::new(cornucopia_model(*inner)),
        },
        CornucopiaType::Custom { pg_ty, struct_name, is_copy, is_params } => TypeModel::Custom {
            pg_ty: pg_ty@,
            struct_name: struct_name@,
            is_copy,
            is_params,
        },
    }
}

impl View for CornucopiaType {
    type V = TypeModel;

    open spec fn view(&self) -> TypeModel {
        cornucopia_model(*self)
    }
}

/// Whether values of the Rust type are `Copy`.
pub open spec fn spec_is_copy(t: TypeModel) -> bool
    decreases t,
{
    match t {
        TypeModel::Simple { is_copy, .. } => is_copy,
        TypeModel::Custom { is_copy, .. } => is_copy,
        TypeModel::Domain { inner, .. } => spec_is_copy(*inner),
        TypeModel::Array { .. } => false,
    }
}

/// `a`, `b`, `c` joined.
pub fn cat3(a: &str, b: &str, c: &str) -> (r: String)
    ensures
        r@ == a@ + b@ + c@,
{
    let mut s = String::from_str(a);
    s.append(b);
    s.append(c);
    s
}

/// `a` and `b` joined.
pub fn cat2(a: &str, b: &str) -> (r: String)
    ensures
        r@ == a@ + b@,
{
    let mut s = String::from_str(a);
    s.append(b);
    s
}

/// `a`, `b`, `c`, `d` joined.
pub fn cat4(a: &str, b: &str, c: &str, d: &str) -> (r: String)
    ensures
        r@ == a@ + b@ + c@ + d@,
{
    let mut s = String::from_str(a);
    s.append(b);
    s.append(c);
    s.append(d);
    s
}

/// `a`, `b`, `c`, `d`, `e` joined.
pub fn cat5(a: &str, b: &str, c: &str, d: &str, e: &str) -> (r: String)
    ensures
        r@ == a@ + b@ + c@ + d@ + e@,
{
    let mut s = String::from_str(a);
    s.append(b);
    s.append(c);
    s.append(d);
    s.append(e);
    s
}

/// `Option<s>` where the inner values are nullable, else `s`.
pub open spec fn spec_optional(s: Seq<char>, nullable: bool) -> Seq<char> {
    if nullable {
        "Option<"@ + s + ">"@
    } else {
        s
    }
}

fn optional(s: String, nullable: bool) -> (r: String)
    ensures
        r@ == spec_optional(s@, nullable),
{
    if nullable {
        cat3("Option<", s.as_str(), ">")
    } else {
        s
    }
}

/// The lifetime written in borrowed types: `'a`, or nothing.
pub open spec fn spec_lifetime(has_lifetime: bool) -> Seq<char> {
    if has_lifetime {
        "'a"@
    } else {
        ""@
    }
}

/// Whether the Rust type needs a generic lifetime.
pub open spec fn spec_is_ref(t: TypeModel) -> bool
    decreases t,
{
    match t {
        TypeModel::Simple { pg_ty, borrowed_name, is_copy, .. } => {
            if is_builtin(pg_ty, BYTEA_OID) || is_builtin_string(pg_ty) || is_builtin_json(pg_ty) {
                false
            } else if is_text_extension(pg_ty) {
                false
            } else if borrowed_name is Some {
                true
            } else {
                !is_copy
            }
        },
        TypeModel::Domain { inner, .. } => spec_is_ref(*inner),
        TypeModel::Array { inner } => spec_is_ref(*inner),
        TypeModel::Custom { is_copy, .. } => !is_copy,
    }
}

/// Whether the type can be used in parameters as it is.
pub open spec fn spec_is_params(t: TypeModel) -> bool
    decreases t,
{
    match t {
        TypeModel::Simple { .. } => true,
        TypeModel::Array { .. } => false,
        TypeModel::Domain { inner, .. } => spec_is_params(*inner),
        TypeModel::Custom { is_params, .. } => is_params,
    }
}

/// The PostgreSQL type; that of the elements for an array.
pub open spec fn spec_pg_ty(t: TypeModel) -> PgTypeModel
    decreases t,
{
    match t {
        TypeModel::Simple { pg_ty, .. } => pg_ty,
        TypeModel::Custom { pg_ty, .. } => pg_ty,
        TypeModel::Domain { pg_ty, .. } => pg_ty,
        TypeModel::Array { inner } => spec_pg_ty(*inner),
    }
}

/// The parameter expression `name`, wrapped so that domains need no cast.
pub open spec fn spec_sql_wrapped(t: TypeModel, name: Seq<char>) -> Seq<char>
    decreases t,
{
    match t {
        TypeModel::Domain { inner, .. } => "&crate::Domain("@ + spec_sql_wrapped(*inner, name)
            + ")"@,
        TypeModel::Array { inner } => match *inner {
            TypeModel::Domain { inner: elem, .. } => "&crate::DomainArray("@ + spec_sql_wrapped(
                *elem,
                name,
            ) + ")"@,
            _ => name,
        },
        _ => name,
    }
}

/// The Rust type written to SQL, with domains wrapped.
pub open spec fn spec_accept_to_sql(t: TypeModel, ctx: GenCtx) -> Seq<char>
    decreases t,
{
    match t {
        TypeModel::Domain { inner, .. } => "crate::Domain::<"@ + spec_accept_to_sql(*inner, ctx)
            + ">"@,
        TypeModel::Array { inner } => match *inner {
            TypeModel::Domain { inner: elem, .. } => {
                let ty = spec_accept_to_sql(*elem, ctx);
                "crate::DomainArray::<"@ + ty + ", &["@ + ty + "]>"@
            },
            _ => spec_param_ty(t, false, ctx),
        },
        _ => spec_param_ty(t, false, ctx),
    }
}

/// Code that turns the borrowed value `name` into its owned counterpart.
pub open spec fn spec_owning_call(
    t: TypeModel,
    name: Seq<char>,
    is_nullable: bool,
    is_inner_nullable: bool,
) -> Seq<char>
    decreases t, if is_nullable { 1int } else { 0int },
{
    if spec_is_copy(t) {
        name
    } else if is_nullable {
        name + ".map(|v| "@ + spec_owning_call(t, "v"@, false, is_inner_nullable) + ")"@
    } else {
        match t {
            TypeModel::Simple { pg_ty, .. } => if is_builtin_json(pg_ty) {
                "serde_json::from_str("@ + name + ".0.get()).unwrap()"@
            } else {
                name + ".into()"@
            },
            TypeModel::Array { inner } => name + ".map(|v| "@ + spec_owning_call(
                *inner,
                "v"@,
                is_inner_nullable,
                false,
            ) + ").collect()"@,
            TypeModel::Domain { inner, .. } => spec_owning_call(*inner, name, is_nullable, false),
            _ => name + ".into()"@,
        }
    }
}

/// The owned Rust type.
pub open spec fn spec_own_ty(t: TypeModel, is_inner_nullable: bool, ctx: GenCtx) -> Seq<char>
    decreases t,
{
    match t {
        TypeModel::Simple { rust_name, .. } => rust_name,
        TypeModel::Array { inner } => {
            let own_inner = spec_own_ty(*inner, false, ctx);
            if is_inner_nullable {
                "Vec<Option<"@ + own_inner + ">>"@
            } else {
                "Vec<"@ + own_inner + ">"@
            }
        },
        TypeModel::Domain { inner, .. } => spec_own_ty(*inner, false, ctx),
        TypeModel::Custom { struct_name, pg_ty, .. } => spec_custom_ty_path(
            ctx.hierarchy,
            pg_ty.schema,
            struct_name,
        ),
    }
}

/// A generic parameter bound by `bound`: the bound is added to `traits` and the
/// parameter is named by the new number of bounds.
pub open spec fn spec_add_trait(traits: Seq<Seq<char>>, bound: Seq<char>) -> (Seq<char>, Seq<
    Seq<char>,
>) {
    let tr = traits.push(bound);
    ("T"@ + decimal(tr.len()), tr)
}

/// The ergonomic parameter type (a generic bound by a trait where there is one), and
/// the trait bounds after it is written.
pub open spec fn spec_param_ergo_ty(
    t: TypeModel,
    is_inner_nullable: bool,
    traits: Seq<Seq<char>>,
    ctx: GenCtx,
) -> (Seq<char>, Seq<Seq<char>>)
    decreases t,
{
    match t {
        TypeModel::Simple { pg_ty, .. } => {
            if is_builtin(pg_ty, BYTEA_OID) {
                spec_add_trait(traits, "crate::BytesSql"@)
            } else if is_builtin_string(pg_ty) {
                spec_add_trait(traits, "crate::StringSql"@)
            } else if is_builtin_json(pg_ty) {
                spec_add_trait(traits, "crate::JsonSql"@)
            } else if is_text_extension(pg_ty) {
                spec_add_trait(traits, "crate::StringSql"@)
            } else {
                (spec_param_ty(t, is_inner_nullable, ctx), traits)
            }
        },
        TypeModel::Array { inner } => {
            let (elem, tr) = spec_param_ergo_ty(*inner, is_inner_nullable, traits, ctx);
            let elem = spec_optional(elem, is_inner_nullable);
            spec_add_trait(tr, "crate::ArraySql<Item = "@ + elem + ">"@)
        },
        TypeModel::Domain { inner, .. } => spec_param_ergo_ty(
            *inner,
            is_inner_nullable,
            traits,
            ctx,
        ),
        TypeModel::Custom { .. } => (spec_param_ty(t, is_inner_nullable, ctx), traits),
    }
}

/// The borrowed parameter type.
pub open spec fn spec_param_ty(t: TypeModel, is_inner_nullable: bool, ctx: GenCtx) -> Seq<char>
    decreases t, 1int,
{
    match t {
        TypeModel::Simple { pg_ty, borrowed_name, .. } => {
            if borrowed_name is Some {
                spec_brw_ty(t, is_inner_nullable, true, ctx)
            } else if is_builtin_json(pg_ty) {
                "&'a serde_json::value::Value"@
            } else {
                spec_brw_ty(t, is_inner_nullable, true, ctx)
            }
        },
        TypeModel::Array { inner } => {
            let elem = spec_optional(spec_param_ty(*inner, is_inner_nullable, ctx), is_inner_nullable);
            "&'a ["@ + elem + "]"@
        },
        TypeModel::Domain { inner, .. } => spec_param_ty(*inner, false, ctx),
        TypeModel::Custom { is_params, is_copy, pg_ty, struct_name } => {
            if !is_copy && !is_params {
                spec_custom_ty_path(ctx.hierarchy, pg_ty.schema, struct_name) + "Params<'a>"@
            } else {
                spec_brw_ty(t, is_inner_nullable, true, ctx)
            }
        },
    }
}

/// The borrowed Rust type: `&str` for a `String`, `&[T]` for a `Vec<T>`, ...
pub open spec fn spec_brw_ty(
    t: TypeModel,
    is_inner_nullable: bool,
    has_lifetime: bool,
    ctx: GenCtx,
) -> Seq<char>
    decreases t, 0int,
{
    let lifetime = spec_lifetime(has_lifetime);
    match t {
        TypeModel::Simple { pg_ty, rust_name, borrowed_name, .. } => match borrowed_name {
            Some(borrowed) => borrowed,
            None => {
                if is_builtin(pg_ty, BYTEA_OID) {
                    "&"@ + lifetime + " [u8]"@
                } else if is_builtin_string(pg_ty) {
                    "&"@ + lifetime + " str"@
                } else if is_builtin_json(pg_ty) {
                    "postgres_types::Json<&"@ + lifetime + " serde_json::value::RawValue>"@
                } else if is_text_extension(pg_ty) {
                    "&"@ + lifetime + " str"@
                } else if rust_name == "String"@ {
                    "&"@ + lifetime + " str"@
                } else if rust_name == "Vec<u8>"@ {
                    "&"@ + lifetime + " [u8]"@
                } else {
                    rust_name
                }
            },
        },
        TypeModel::Array { inner } => {
            let elem = spec_optional(
                spec_brw_ty(*inner, is_inner_nullable, has_lifetime, ctx),
                is_inner_nullable,
            );
            "&"@ + lifetime + " ["@ + elem + "]"@
        },
        TypeModel::Domain { inner, .. } => spec_brw_ty(*inner, false, has_lifetime, ctx),
        TypeModel::Custom { is_copy, pg_ty, struct_name, .. } => {
            let path = spec_custom_ty_path(ctx.hierarchy, pg_ty.schema, struct_name);
            if is_copy {
                path
            } else {
                path + "Borrowed<"@ + lifetime + ">"@
            }
        },
    }
}


impl CornucopiaType {
    /// Is this type need a generic lifetime
    pub fn is_ref(&self) -> (r: bool)
        ensures
            r == spec_is_ref(self@),
        decreases self,
    {
        match self {
            CornucopiaType::Simple { pg_ty, borrowed_name, .. } => {
                if pg_ty.is_builtin(BYTEA_OID) || pg_ty.is_builtin_string()
                    || pg_ty.is_builtin_json() {
                    false
                } else if pg_ty.is_text_extension() {
                    false
                } else if borrowed_name.is_some() {
                    true
                } else {
                    !self.is_copy()
                }
            },
            CornucopiaType::Domain { inner, .. } => inner.is_ref(),
            CornucopiaType::Array { inner } => inner.is_ref(),
            CornucopiaType::Custom { .. } => !self.is_copy(),
        }
    }

    /// Is this type copyable
    pub fn is_copy(&self) -> (r: bool)
        ensures
            r == spec_is_copy(self@),
        decreases self,
    {
        match self {
            CornucopiaType::Simple { is_copy, .. } => *is_copy,
            CornucopiaType::Custom { is_copy, .. } => *is_copy,
            CornucopiaType::Domain { inner, .. } => inner.is_copy(),
            CornucopiaType::Array { .. } => false,
        }
    }

    /// Can this used in parameters as it is
    pub fn is_params(&self) -> (r: bool)
        ensures
            r == spec_is_params(self@),
        decreases self,
    {
        match self {
            CornucopiaType::Simple { .. } => true,
            CornucopiaType::Array { .. } => false,
            CornucopiaType::Domain { inner, .. } => inner.is_params(),
            CornucopiaType::Custom { is_params, .. } => *is_params,
        }
    }

    /// Wrap type to escape domains in parameters
    pub fn sql_wrapped(&self, name: &str) -> (r: String)
        ensures
            r@ == spec_sql_wrapped(self@, name@),
        decreases self,
    {
        proof {
            reveal_with_fuel(cornucopia_model, 2);
        }
        match self {
            CornucopiaType::Domain { inner, .. } => {
                let w = inner.sql_wrapped(name);
                let r = cat3("&crate::Domain(", w.as_str(), ")");
                r
            },
            CornucopiaType::Array { inner } => match &**inner {
                CornucopiaType::Domain { inner: elem, .. } => {
                    let w = elem.sql_wrapped(name);
                    let r = cat3("&crate::DomainArray(", w.as_str(), ")");
                    r
                },
                _ => {
                    let r = String::from_str(name);
                    r
                },
            },
            _ => {
                let r = String::from_str(name);
                r
            },
        }
    }

    /// Wrap type to escape domains when writing to sql
    pub fn accept_to_sql(&self, ctx: &GenCtx) -> (r: String)
        ensures
            r@ == spec_accept_to_sql(self@, *ctx),
        decreases self,
    {
        proof {
            reveal_with_fuel(cornucopia_model, 2);
        }
        match self {
            CornucopiaType::Domain { inner, .. } => {
                let a = inner.accept_to_sql(ctx);
                cat3("crate::Domain::<", a.as_str(), ">")
            },
            CornucopiaType::Array { inner } => match &**inner {
                CornucopiaType::Domain { inner: elem, .. } => {
                    let ty = elem.accept_to_sql(ctx);
                    cat5("crate::DomainArray::<", ty.as_str(), ", &[", ty.as_str(), "]>")
                },
                _ => self.param_ty(false, ctx),
            },
            _ => self.param_ty(false, ctx),
        }
    }

    /// Corresponding postgres type
    pub fn pg_ty(&self) -> (r: &PgType)
        ensures
            r@ == spec_pg_ty(self@),
        decreases self,
    {
        match self {
            CornucopiaType::Simple { pg_ty, .. } => pg_ty,
            CornucopiaType::Custom { pg_ty, .. } => pg_ty,
            CornucopiaType::Domain { pg_ty, .. } => pg_ty,
            CornucopiaType::Array { inner } => inner.pg_ty(),
        }
    }

    /// Code to transform its borrowed type to its owned one
    pub fn owning_call(&self, name: &str, is_nullable: bool, is_inner_nullable: bool) -> (r:
        String)
        ensures
            r@ == spec_owning_call(self@, name@, is_nullable, is_inner_nullable),
        decreases self, if is_nullable { 1int } else { 0int },
    {
        proof {
            reveal_strlit("v");
        }
        if self.is_copy() {
            return String::from_str(name);
        }
        if is_nullable {
            let into = self.owning_call("v", false, is_inner_nullable);
            return cat4(name, ".map(|v| ", into.as_str(), ")");
        }
        match self {
            CornucopiaType::Simple { pg_ty, .. } => {
                if pg_ty.is_builtin_json() {
                    cat3("serde_json::from_str(", name, ".0.get()).unwrap()")
                } else {
                    cat2(name, ".into()")
                }
            },
            CornucopiaType::Array { inner } => {
                let elem = inner.owning_call("v", is_inner_nullable, false);
                cat4(name, ".map(|v| ", elem.as_str(), ").collect()")
            },
            CornucopiaType::Domain { inner, .. } => inner.owning_call(name, is_nullable, false),
            _ => cat2(name, ".into()"),
        }
    }

    /// Corresponding owned type
    pub fn own_ty(&self, is_inner_nullable: bool, ctx: &GenCtx) -> (r: String)
        ensures
            r@ == spec_own_ty(self@, is_inner_nullable, *ctx),
        decreases self,
    {
        match self {
            CornucopiaType::Simple { rust_name, .. } => rust_name.clone(),
            CornucopiaType::Array { inner } => {
                let own_inner = inner.own_ty(false, ctx);
                if is_inner_nullable {
                    cat3("Vec<Option<", own_inner.as_str(), ">>")
                } else {
                    cat3("Vec<", own_inner.as_str(), ">")
                }
            },
            CornucopiaType::Domain { inner, .. } => inner.own_ty(false, ctx),
            CornucopiaType::Custom { struct_name, pg_ty, .. } => ctx.custom_ty_path(
                pg_ty.schema.as_str(),
                struct_name.as_str(),
            ),
        }
    }

    /// Corresponding borrowed ergonomic parameter type (using traits if possible)
    pub fn param_ergo_ty(&self, is_inner_nullable: bool, traits: &mut Vec<String>, ctx: &GenCtx) -> (r:
        String)
        ensures
            (r@, final(traits)@.map_values(|t: String| t@)) == spec_param_ergo_ty(
                self@,
                is_inner_nullable,
                old(traits)@.map_values(|t: String| t@),
                *ctx,
            ),
        decreases self,
    {
        match self {
            CornucopiaType::Simple { pg_ty, .. } => {
                if pg_ty.is_builtin(BYTEA_OID) {
                    add_trait(traits, String::from_str("crate::BytesSql"))
                } else if pg_ty.is_builtin_string() {
                    add_trait(traits, String::from_str("crate::StringSql"))
                } else if pg_ty.is_builtin_json() {
                    add_trait(traits, String::from_str("crate::JsonSql"))
                } else if pg_ty.is_text_extension() {
                    add_trait(traits, String::from_str("crate::StringSql"))
                } else {
                    self.param_ty(is_inner_nullable, ctx)
                }
            },
            CornucopiaType::Array { inner } => {
                let elem = inner.param_ergo_ty(is_inner_nullable, traits, ctx);
                let elem = optional(elem, is_inner_nullable);
                add_trait(traits, cat3("crate::ArraySql<Item = ", elem.as_str(), ">"))
            },
            CornucopiaType::Domain { inner, .. } => inner.param_ergo_ty(
                is_inner_nullable,
                traits,
                ctx,
            ),
            CornucopiaType::Custom { .. } => self.param_ty(is_inner_nullable, ctx),
        }
    }

    /// Corresponding borrowed parameter type
    pub fn param_ty(&self, is_inner_nullable: bool, ctx: &GenCtx) -> (r: String)
        ensures
            r@ == spec_param_ty(self@, is_inner_nullable, *ctx),
        decreases self, 1int,
    {
        match self {
            CornucopiaType::Simple { pg_ty, borrowed_name, .. } => {
                // If user explicitly provides a borrowed type, use it
                if borrowed_name.is_some() {
                    return self.brw_ty(is_inner_nullable, true, ctx);
                }
                // Otherwise use default param type based on pg_ty
                if pg_ty.is_builtin_json() {
                    String::from_str("&'a serde_json::value::Value")
                } else {
                    self.brw_ty(is_inner_nullable, true, ctx)
                }
            },
            CornucopiaType::Array { inner } => {
                let elem = inner.param_ty(is_inner_nullable, ctx);
                let elem = optional(elem, is_inner_nullable);
                // Its more practical for users to use a slice
                cat3("&'a [", elem.as_str(), "]")
            },
            CornucopiaType::Domain { inner, .. } => inner.param_ty(false, ctx),
            CornucopiaType::Custom { is_params, is_copy, pg_ty, struct_name } => {
                if !*is_copy && !*is_params {
                    let path = ctx.custom_ty_path(pg_ty.schema.as_str(), struct_name.as_str());
                    cat2(path.as_str(), "Params<'a>")
                } else {
                    self.brw_ty(is_inner_nullable, true, ctx)
                }
            },
        }
    }

    /// String representing a borrowed rust equivalent of this type. Notably, if
    /// a Rust equivalent is a String or a Vec<T>, it will return a &str and a &[T] respectively.
    pub fn brw_ty(&self, is_inner_nullable: bool, has_lifetime: bool, ctx: &GenCtx) -> (r: String)
        ensures
            r@ == spec_brw_ty(self@, is_inner_nullable, has_lifetime, *ctx),
        decreases self, 0int,
    {
        let lifetime = if has_lifetime {
            "'a"
        } else {
            ""
        };
        match self {
            CornucopiaType::Simple { pg_ty, rust_name, borrowed_name, .. } => {
                // If user explicitly provides a borrowed type, use it
                if let Some(borrowed) = borrowed_name {
                    return borrowed.clone();
                }
                // Otherwise use default borrowed type based on pg_ty
                if pg_ty.is_builtin(BYTEA_OID) {
                    cat3("&", lifetime, " [u8]")
                } else if pg_ty.is_builtin_string() {
                    cat3("&", lifetime, " str")
                } else if pg_ty.is_builtin_json() {
                    cat3("postgres_types::Json<&", lifetime, " serde_json::value::RawValue>")
                } else if pg_ty.is_text_extension() {
                    cat3("&", lifetime, " str")
                } else if str_eq(rust_name.as_str(), "String") {
                    cat3("&", lifetime, " str")
                } else if str_eq(rust_name.as_str(), "Vec<u8>") {
                    cat3("&", lifetime, " [u8]")
                } else {
                    rust_name.clone()
                }
            },
            CornucopiaType::Array { inner } => {
                let elem = inner.brw_ty(is_inner_nullable, has_lifetime, ctx);
                let elem = optional(elem, is_inner_nullable);
                // Its more practical for users to use a slice
                cat5("&", lifetime, " [", elem.as_str(), "]")
            },
            CornucopiaType::Domain { inner, .. } => inner.brw_ty(false, has_lifetime, ctx),
            CornucopiaType::Custom { is_copy, pg_ty, struct_name, .. } => {
                let path = ctx.custom_ty_path(pg_ty.schema.as_str(), struct_name.as_str());
                if *is_copy {
                    path
                } else {
                    cat4(path.as_str(), "Borrowed<", lifetime, ">")
                }
            },
        }
    }
}

/// Adds `bound` to `traits` and names the generic parameter that it bounds.
fn add_trait(traits: &mut Vec<String>, bound: String) -> (r: String)
    ensures
        (r@, final(traits)@.map_values(|t: String| t@)) == spec_add_trait(
            old(traits)@.map_values(|t: String| t@),
            bound@,
        ),
{
    let ghost before = traits@;
    traits.push(bound);
    proof {
        assert(traits@.map_values(|t: String| t@) =~= before.map_values(|t: String| t@).push(
            bound@,
        ));
    }
    idx_char(traits.len())
}

} // verus!
