//! Where generated code stands, which decides how custom types are named from it.
use vstd::prelude::*;

verus! {

/// The generated module that code is written into.
#[derive(Clone, Copy, Debug, PartialEq, Eq, Structural)]
pub enum ModCtx {
    /// The `types` module itself.
    Types,
    /// A schema module inside `types`.
    SchemaTypes,
    /// A query module.
    Queries,
    /// A client-specific query module.
    ClientQueries,
}

/// Context of code generation.
#[derive(Clone, Copy, Debug)]
pub struct GenCtx {
    pub hierarchy: ModCtx,
    pub is_async: bool,
}

/// The path of a generated custom type `struct_name` of `schema`, as written from a
/// module of the given kind. Types of the `public` schema stand directly in `types`.
pub open spec fn spec_custom_ty_path(h: ModCtx, schema: Seq<char>, struct_name: Seq<char>) -> Seq<
    char,
> {
    if schema == "public"@ {
        match h {
            ModCtx::Types => struct_name,
            ModCtx::SchemaTypes => "super::"@ + struct_name,
            _ => "crate::types::"@ + struct_name,
        }
    } else {
        match h {
            ModCtx::Types => schema + "::"@ + struct_name,
            ModCtx::SchemaTypes => "super::"@ + schema + "::"@ + struct_name,
            _ => "crate::types::"@ + schema + "::"@ + struct_name,
        }
    }
}

impl GenCtx {
    pub fn new(hierarchy: ModCtx, is_async: bool) -> (r: GenCtx)
        ensures
            r.hierarchy == hierarchy,
            r.is_async == is_async,
    {
        GenCtx { hierarchy, is_async }
    }

    /// Path of a generated custom type from the current module.
    pub fn custom_ty_path(&self, schema: &str, struct_name: &str) -> (r: String)
        ensures
            r@ == spec_custom_ty_path(self.hierarchy, schema@, struct_name@),
    {
        let public = crate::pg_type::str_eq(schema, "public");
        let mut out = match self.hierarchy {
            ModCtx::Types => String::new(),
            ModCtx::SchemaTypes => String::from_str("super::"),
            _ => String::from_str("crate::types::"),
        };
        if !public {
            out.append(schema);
            out.append("::");
        }
        out.append(struct_name);
        proof {
            reveal_strlit("");
            assert(""@ =~= Seq::<char>::empty());
        }
        out
    }
}

/// The decimal digit `d` as a character.
pub open spec fn digit_char(d: nat) -> char {
    if d == 0 {
        '0'
    } else if d == 1 {
        '1'
    } else if d == 2 {
        '2'
    } else if d == 3 {
        '3'
    } else if d == 4 {
        '4'
    } else if d == 5 {
        '5'
    } else if d == 6 {
        '6'
    } else if d == 7 {
        '7'
    } else if d == 8 {
        '8'
    } else {
        '9'
    }
}

/// The decimal notation of `n`, without leading zeros.
pub open spec fn decimal(n: nat) -> Seq<char>
    decreases n,
{
    if n < 10 {
        seq![digit_char(n)]
    } else {
        decimal(n / 10).push(digit_char(n % 10))
    }
}

fn digit_string(d: usize) -> (r: String)
    requires
        d < 10,
    ensures
        r@ == seq![digit_char(d as nat)],
{
    let lit = if d == 0 {
        "0"
    } else if d == 1 {
        "1"
    } else if d == 2 {
        "2"
    } else if d == 3 {
        "3"
    } else if d == 4 {
        "4"
    } else if d == 5 {
        "5"
    } else if d == 6 {
        "6"
    } else if d == 7 {
        "7"
    } else if d == 8 {
        "8"
    } else {
        "9"
    };
    proof {
        reveal_strlit("0");
        reveal_strlit("1");
        reveal_strlit("2");
        reveal_strlit("3");
        reveal_strlit("4");
        reveal_strlit("5");
        reveal_strlit("6");
        reveal_strlit("7");
        reveal_strlit("8");
        reveal_strlit("9");
    }
    let r = String::from_str(lit);
    assert(r@ =~= seq![digit_char(d as nat)]);
    r
}

/// Decimal notation of `n`.
pub fn usize_to_decimal(n: usize) -> (r: String)
    ensures
        r@ == decimal(n as nat),
    decreases n,
{
    if n < 10 {
        digit_string(n)
    } else {
        let mut s = usize_to_decimal(n / 10);
        let d = digit_string(n % 10);
        s.append(d.as_str());
        s
    }
}

/// Name of the `idx`-th generic type parameter of a generated function: `T{idx}`.
pub fn idx_char(idx: usize) -> (r: String)
    ensures
        r@ == "T"@ + decimal(idx as nat),
{
    let mut s = String::from_str("T");
    let d = usize_to_decimal(idx);
    s.append(d.as_str());
    s
}

} // verus!
