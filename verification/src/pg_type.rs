//! A PostgreSQL type as the registrar reads it: name, OID, schema, kind.
use vstd::prelude::*;

verus! {

/// A PostgreSQL type. `builtin` tells a type of the server's own catalog (what
/// `postgres_types::Type::from_oid` knows) from one described by name.
#[derive(Debug, PartialEq, Eq)]
pub struct PgType {
    pub name: String,
    pub oid: u32,
    pub kind: PgKind,
    pub schema: String,
    pub builtin: bool,
}

/// The kind of a PostgreSQL type.
#[derive(Debug, PartialEq, Eq)]
pub enum PgKind {
    Simple,
    Enum(Vec<String>),
    Pseudo,
    Array(Box<PgType>),
    Range(Box<PgType>),
    Multirange(Box<PgType>),
    Domain(Box<PgType>),
    Composite(Vec<PgField>),
}

/// A field of a composite type.
#[derive(Debug, PartialEq, Eq)]
pub struct PgField {
    pub name: String,
    pub ty: PgType,
}

/// The mathematical value of a [`PgType`].
pub struct PgTypeModel {
    pub name: Seq<char>,
    pub oid: u32,
    pub kind: PgKindModel,
    pub schema: Seq<char>,
    pub builtin: bool,
}

/// The mathematical value of a [`PgKind`].
pub enum PgKindModel {
    Simple,
    Enum(Seq<Seq<char>>),
    Pseudo,
    Array(Box<PgTypeModel>),
    Range(Box<PgTypeModel>),
    Multirange(Box<PgTypeModel>),
    Domain(Box<PgTypeModel>),
    Composite(Seq<PgFieldModel>),
}

/// The mathematical value of a [`PgField`].
pub struct PgFieldModel {
    pub name: Seq<char>,
    pub ty: PgTypeModel,
}

pub open spec fn type_model(t: PgType) -> PgTypeModel
    decreases t, 0int,
{
    PgTypeModel {
        name: t.name@,
        oid: t.oid,
        kind: kind_model(t.kind),
        schema: t.schema@,
        builtin: t.builtin,
    }
}

pub open spec fn kind_model(k: PgKind) -> PgKindModel
    decreases k, 0int,
{
    match k {
        PgKind::Simple => PgKindModel::Simple,
        PgKind::Enum(v) => PgKindModel::Enum(v@.map_values(|s: String| s@)),
        PgKind::Pseudo => PgKindModel::Pseudo,
        PgKind::Array(b) => PgKindModel::Array(Box::new(type_model(*b))),
        PgKind::Range(b) => PgKindModel::Range(Box::new(type_model(*b))),
        PgKind::Multirange(b) => PgKindModel::Multirange(Box::new(type_model(*b))),
        PgKind::Domain(b) => PgKindModel::Domain(Box::new(type_model(*b))),
        PgKind::Composite(v) => PgKindModel::Composite(fields_model(v@)),
    }
}

pub open spec fn fields_model(fs: Seq<PgField>) -> Seq<PgFieldModel>
    decreases fs, 0int,
{
    if fs.len() == 0 {
        Seq::empty()
    } else {
        let last = fs[fs.len() - 1];
        fields_model(fs.subrange(0, fs.len() - 1)).push(
            PgFieldModel { name: last.name@, ty: type_model(last.ty) },
        )
    }
}

impl View for PgType {
    type V = PgTypeModel;

    open spec fn view(&self) -> PgTypeModel {
        type_model(*self)
    }
}


pub proof fn lemma_fields_model_push(fs: Seq<PgField>, f: PgField)
    ensures
        fields_model(fs.push(f)) == fields_model(fs).push(
            PgFieldModel { name: f.name@, ty: type_model(f.ty) },
        ),
        fields_model(fs.push(f)).len() == fs.len() + 1,
{
    assert(fs.push(f).subrange(0, fs.len() as int) =~= fs);
    lemma_fields_model_len(fs.push(f));
}

pub proof fn lemma_fields_model_len(fs: Seq<PgField>)
    ensures
        fields_model(fs).len() == fs.len(),
    decreases fs.len(),
{
    if fs.len() > 0 {
        lemma_fields_model_len(fs.subrange(0, fs.len() - 1));
    }
}

/// The i-th field's model is the model of the i-th field.
pub proof fn lemma_fields_model_index(fs: Seq<PgField>, i: int)
    requires
        0 <= i < fs.len(),
    ensures
        fields_model(fs).len() == fs.len(),
        fields_model(fs)[i] == (PgFieldModel { name: fs[i].name@, ty: type_model(fs[i].ty) }),
    decreases fs.len(),
{
    lemma_fields_model_len(fs);
    if i < fs.len() - 1 {
        lemma_fields_model_index(fs.subrange(0, fs.len() - 1), i);
    }
}

impl Clone for PgType {
    /// A copy, field by field.
    fn clone(&self) -> (r: PgType)
        ensures
            r@ == self@,
    {
        self.duplicate()
    }
}

impl PgType {
    /// Mirrors `postgres_types::Type::new`: a type described by name, not one of the
    /// server's built-in types.
    pub fn new(name: String, oid: u32, kind: PgKind, schema: String) -> (r: PgType)
        ensures
            r@ == (PgTypeModel {
                name: name@,
                oid: oid,
                kind: kind_model(kind),
                schema: schema@,
                builtin: false,
            }),
    {
        PgType { name, oid, kind, schema, builtin: false }
    }

    /// A copy of this type, field by field.
    pub fn duplicate(&self) -> (r: PgType)
        ensures
            r@ == self@,
        decreases self, 1int,
    {
        PgType {
            name: self.name.clone(),
            oid: self.oid,
            kind: self.kind.duplicate(),
            schema: self.schema.clone(),
            builtin: self.builtin,
        }
    }
}

impl PgKind {
    /// A copy of this kind, field by field.
    pub fn duplicate(&self) -> (r: PgKind)
        ensures
            kind_model(r) == kind_model(*self),
        decreases self, 1int,
    {
        match self {
            PgKind::Simple => PgKind::Simple,
            PgKind::Pseudo => PgKind::Pseudo,
            PgKind::Enum(v) => {
                let mut out: Vec<String> = Vec::new();
                let mut i: usize = 0;
                while i < v.len()
                    invariant
                        i <= v.len(),
                        out@.len() == i,
                        forall|j: int| 0 <= j < i ==> #[trigger] out@[j]@ == v@[j]@,
                    decreases v.len() - i,
                {
                    out.push(v[i].clone());
                    i = i + 1;
                }
                assert(out@.map_values(|s: String| s@) =~= v@.map_values(|s: String| s@));
                PgKind::Enum(out)
            },
            PgKind::Array(b) => PgKind::Array(Box::new(b.duplicate())),
            PgKind::Range(b) => PgKind::Range(Box::new(b.duplicate())),
            PgKind::Multirange(b) => PgKind::Multirange(Box::new(b.duplicate())),
            PgKind::Domain(b) => PgKind::Domain(Box::new(b.duplicate())),
            PgKind::Composite(v) => {
                let mut out: Vec<PgField> = Vec::new();
                let mut i: usize = 0;
                while i < v.len()
                    invariant
                        i <= v.len(),
                        *self == PgKind::Composite(*v),
                        fields_model(out@) == fields_model(v@.subrange(0, i as int)),
                    decreases v.len() - i,
                {
                    proof {
                        broadcast use vstd::std_specs::vec::axiom_vec_decreases_to_view;
                        let ghost k = *self;
                        let ghost fs = k->Composite_0;
                        assert(decreases_to!(k => fs));
                        assert(decreases_to!(fs => fs@));
                        assert(decreases_to!(fs@ => fs@[i as int]));
                        assert(decreases_to!(fs@[i as int] => fs@[i as int].ty));
                        assert(decreases_to!(*self => v@[i as int].ty));
                    }
                    let f = PgField { name: v[i].name.clone(), ty: v[i].ty.duplicate() };
                    proof {
                        lemma_fields_model_push(out@, f);
                        lemma_fields_model_push(v@.subrange(0, i as int), v@[i as int]);
                        assert(v@.subrange(0, i as int).push(v@[i as int]) =~= v@.subrange(
                            0,
                            i + 1,
                        ));
                    }
                    out.push(f);
                    i = i + 1;
                }
                assert(v@.subrange(0, v@.len() as int) =~= v@);
                PgKind::Composite(out)
            },
        }
    }
}


/// How `postgres_types::Type` displays a type: the name alone in the `public` and
/// `pg_catalog` schemas, else the schema, a dot and the name.
pub open spec fn qualified_display(schema: Seq<char>, name: Seq<char>) -> Seq<char> {
    if schema == "public"@ || schema == "pg_catalog"@ {
        name
    } else {
        schema + "."@ + name
    }
}

/// Calls `<postgres_types::Type as Display>::fmt` (through `to_string`) on a type
/// with the given name and schema. Its source writes nothing for the schemas
/// `public` and `pg_catalog`, else the schema and a dot, then the name; the OID and
/// the kind are not read.
#[verifier::external_body]
fn pg_type_to_string(schema: &str, name: &str) -> (r: String)
    ensures
        r@ == qualified_display(schema@, name@),
{
    postgres_types::Type::new(
        name.to_string(),
        0,
        postgres_types::Kind::Simple,
        schema.to_string(),
    ).to_string()
}

impl PgType {
    /// The type as PostgreSQL error messages name it (`Display` of the type).
    pub fn display(&self) -> (r: String)
        ensures
            r@ == qualified_display(self.schema@, self.name@),
    {
        pg_type_to_string(self.schema.as_str(), self.name.as_str())
    }
}


/// OIDs of the server's built-in types that the registrar knows by identity (as
/// `postgres_types::Type::BOOL`, `Type::CHAR`, ... name them).
pub const BOOL_OID: u32 = 16;
pub const BYTEA_OID: u32 = 17;
pub const CHAR_OID: u32 = 18;
pub const NAME_OID: u32 = 19;
pub const INT8_OID: u32 = 20;
pub const INT2_OID: u32 = 21;
pub const INT4_OID: u32 = 23;
pub const TEXT_OID: u32 = 25;
pub const JSON_OID: u32 = 114;
pub const FLOAT4_OID: u32 = 700;
pub const FLOAT8_OID: u32 = 701;
pub const MACADDR_OID: u32 = 829;
pub const INET_OID: u32 = 869;
pub const BPCHAR_OID: u32 = 1042;
pub const VARCHAR_OID: u32 = 1043;
pub const DATE_OID: u32 = 1082;
pub const TIME_OID: u32 = 1083;
pub const TIMESTAMP_OID: u32 = 1114;
pub const TIMESTAMPTZ_OID: u32 = 1184;
pub const NUMERIC_OID: u32 = 1700;
pub const UUID_OID: u32 = 2950;
pub const JSONB_OID: u32 = 3802;

/// The type is the built-in type with this OID (what `ty == Type::TEXT` and the
/// like test).
pub open spec fn is_builtin(t: PgTypeModel, oid: u32) -> bool {
    t.builtin && t.oid == oid
}

/// One of the built-in string types `text`, `varchar`, `bpchar` and `name`.
pub open spec fn is_builtin_string(t: PgTypeModel) -> bool {
    is_builtin(t, TEXT_OID) || is_builtin(t, VARCHAR_OID) || is_builtin(t, BPCHAR_OID)
        || is_builtin(t, NAME_OID)
}

/// `json` or `jsonb`.
pub open spec fn is_builtin_json(t: PgTypeModel) -> bool {
    is_builtin(t, JSON_OID) || is_builtin(t, JSONB_OID)
}

/// The extension types that hold text: `citext`, `ltree`, `lquery`, `ltxtquery`,
/// recognised by name in any schema.
pub open spec fn is_text_extension(t: PgTypeModel) -> bool {
    t.name == "citext"@ || t.name == "ltree"@ || t.name == "lquery"@ || t.name == "ltxtquery"@
}

/// Character-wise equality of two strings.
pub fn str_eq(a: &str, b: &str) -> (r: bool)
    ensures
        r == (a@ == b@),
{
    let n = a.unicode_len();
    let m = b.unicode_len();
    if n != m {
        return false;
    }
    let mut i: usize = 0;
    while i < n
        invariant
            n == a@.len(),
            m == b@.len(),
            n == m,
            i <= n,
            forall|j: int| 0 <= j < i ==> a@[j] == b@[j],
        decreases n - i,
    {
        if a.get_char(i) != b.get_char(i) {
            return false;
        }
        i = i + 1;
    }
    assert(a@ =~= b@);
    true
}

impl PgType {
    /// Whether this is the built-in type with the given OID.
    pub fn is_builtin(&self, oid: u32) -> (r: bool)
        ensures
            r == is_builtin(self@, oid),
    {
        self.builtin && self.oid == oid
    }

    /// Whether this is `text`, `varchar`, `bpchar` or `name`.
    pub fn is_builtin_string(&self) -> (r: bool)
        ensures
            r == is_builtin_string(self@),
    {
        self.is_builtin(TEXT_OID) || self.is_builtin(VARCHAR_OID) || self.is_builtin(BPCHAR_OID)
            || self.is_builtin(NAME_OID)
    }

    /// Whether this is `json` or `jsonb`.
    pub fn is_builtin_json(&self) -> (r: bool)
        ensures
            r == is_builtin_json(self@),
    {
        self.is_builtin(JSON_OID) || self.is_builtin(JSONB_OID)
    }

    /// Whether this is one of the text extension types, by name.
    pub fn is_text_extension(&self) -> (r: bool)
        ensures
            r == is_text_extension(self@),
    {
        let n = self.name.as_str();
        str_eq(n, "citext") || str_eq(n, "ltree") || str_eq(n, "lquery") || str_eq(n, "ltxtquery")
    }
}

} // verus!
