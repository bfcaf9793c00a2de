//! The registrar: every type met in the queries, resolved once to its Rust
//! counterpart and kept in the order it was first met.
use std::rc::Rc;
use vstd::prelude::*;
use crate::config::{Config, TypeMapping};
use crate::cornucopia_type::{
    opt_string_model, spec_is_copy, spec_is_params, CornucopiaType, TypeModel,
};
use crate::error::{Error, ModuleInfo, SourceRange, Span};
use crate::naming::{to_upper_camel_case, upper_camel_case};
use crate::pg_type::{
    is_builtin, is_builtin_json, str_eq, is_builtin_string, is_text_extension, qualified_display,
    PgKind, PgKindModel, PgType, PgTypeModel, PgFieldModel, fields_model, type_model, lemma_fields_model_index,
    BOOL_OID, BYTEA_OID, CHAR_OID, DATE_OID, FLOAT4_OID, FLOAT8_OID, INET_OID, INT2_OID, INT4_OID,
    INT8_OID, MACADDR_OID, NUMERIC_OID, TIMESTAMPTZ_OID, TIMESTAMP_OID, TIME_OID, UUID_OID,
};
use crate::type_map::{
    index_of_key, lemma_index_of_key, override_entries,
    override_map_index_of, override_map_insert_full, override_map_new, type_entries,
    type_map_index_of, type_map_insert_full, type_map_len, type_map_new, type_map_value_at,
    OverrideMap, TypeKey, TypeMap,
};

verus! {

/// The registered types, in order, by key.
pub type Entries = Seq<(TypeKey, TypeModel)>;

/// What a registration gives: the Rust type, or the PostgreSQL type that has no Rust
/// counterpart; and the registered types afterwards.
pub type Registration<T> = (Result<T, PgTypeModel>, Entries);

/// The key of a type among the registered ones: schema and name.
pub open spec fn key_of(t: PgTypeModel) -> TypeKey {
    (t.schema, t.name)
}

/// The Rust type, and whether it is `Copy`, of a simple type that the registrar
/// knows without configuration.
pub open spec fn builtin_rust_type(t: PgTypeModel) -> Option<(Seq<char>, bool)> {
    if is_builtin(t, BOOL_OID) {
        Some(("bool"@, true))
    } else if is_builtin(t, CHAR_OID) {
        Some(("i8"@, true))
    } else if is_builtin(t, INT2_OID) {
        Some(("i16"@, true))
    } else if is_builtin(t, INT4_OID) {
        Some(("i32"@, true))
    } else if is_builtin(t, INT8_OID) {
        Some(("i64"@, true))
    } else if is_builtin(t, FLOAT4_OID) {
        Some(("f32"@, true))
    } else if is_builtin(t, FLOAT8_OID) {
        Some(("f64"@, true))
    } else if is_builtin_string(t) {
        Some(("String"@, false))
    } else if is_builtin(t, BYTEA_OID) {
        Some(("Vec<u8>"@, false))
    } else if is_builtin(t, TIMESTAMP_OID) {
        Some(("chrono::NaiveDateTime"@, true))
    } else if is_builtin(t, TIMESTAMPTZ_OID) {
        Some(("chrono::DateTime<chrono::FixedOffset>"@, true))
    } else if is_builtin(t, DATE_OID) {
        Some(("chrono::NaiveDate"@, true))
    } else if is_builtin(t, TIME_OID) {
        Some(("chrono::NaiveTime"@, true))
    } else if is_builtin_json(t) {
        Some(("serde_json::Value"@, false))
    } else if is_builtin(t, UUID_OID) {
        Some(("uuid::Uuid"@, true))
    } else if is_builtin(t, INET_OID) {
        Some(("std::net::IpAddr"@, true))
    } else if is_builtin(t, MACADDR_OID) {
        Some(("eui48::MacAddress"@, true))
    } else if is_builtin(t, NUMERIC_OID) {
        Some(("rust_decimal::Decimal"@, true))
    } else if is_text_extension(t) {
        Some(("String"@, false))
    } else {
        None
    }
}


/// The type that the configuration maps `t` to, if any: a `types.mapping` entry for
/// its `schema.name`, else, for a domain, a `types.domains` entry for its name.
pub open spec fn mapped_type(cfg: Config, t: PgTypeModel) -> Option<TypeModel> {
    match cfg.spec_type_mapping(t) {
        Some(TypeMapping::Simple(rust_name)) => Some(
            TypeModel::Simple { pg_ty: t, rust_name: rust_name@, borrowed_name: None, is_copy: true },
        ),
        Some(TypeMapping::Detailed { rust_type, borrowed_type, is_copy }) => Some(
            TypeModel::Simple {
                pg_ty: t,
                rust_name: rust_type@,
                borrowed_name: opt_string_model(borrowed_type),
                is_copy,
            },
        ),
        None => if t.kind is Domain {
            match cfg.spec_domain_mapping(t.name) {
                Some(rust_type) => Some(
                    TypeModel::Simple {
                        pg_ty: t,
                        rust_name: rust_type,
                        borrowed_name: None,
                        is_copy: false,
                    },
                ),
                None => None,
            }
        } else {
            None
        },
    }
}

/// A generated struct for the enum or composite `t`.
pub open spec fn custom_model(t: PgTypeModel, is_copy: bool, is_params: bool) -> TypeModel {
    TypeModel::Custom { pg_ty: t, struct_name: upper_camel_case(t.name), is_copy, is_params }
}

/// Records `v` for `t` unless `t`'s key is registered already, in which case the
/// registered type stands.
pub open spec fn spec_insert(es: Entries, t: PgTypeModel, v: TypeModel) -> Registration<TypeModel> {
    match index_of_key(es, key_of(t)) {
        Some(i) => (Ok(es[i].1), es),
        None => (Ok(v), es.push((key_of(t), v))),
    }
}

/// Registration of `t` given the types registered so far: a registered type is
/// returned as it stands; else a configured mapping is used; else the type is
/// resolved from its kind, its parts registered first.
pub open spec fn spec_register(cfg: Config, es: Entries, t: PgTypeModel) -> Registration<TypeModel>
    decreases t, 2int,
{
    match index_of_key(es, key_of(t)) {
        Some(i) => (Ok(es[i].1), es),
        None => match mapped_type(cfg, t) {
            Some(v) => spec_insert(es, t, v),
            None => spec_resolve(cfg, es, t, true, true),
        },
    }
}

/// Resolution of `t` from its kind.
pub open spec fn spec_resolve(
    cfg: Config,
    es: Entries,
    t: PgTypeModel,
    default_is_copy: bool,
    default_is_params: bool,
) -> Registration<TypeModel>
    decreases t, 1int,
{
    match t.kind {
        PgKindModel::Enum(_) => spec_insert(es, t, custom_model(t, true, true)),
        PgKindModel::Array(inner) => {
            let (r, es2) = spec_register(cfg, es, *inner);
            match r {
                Ok(v) => spec_insert(es2, t, TypeModel::Array { inner: Box::new(v) }),
                Err(bad) => (Err(bad), es2),
            }
        },
        PgKindModel::Domain(inner) => {
            let (r, es2) = spec_register(cfg, es, *inner);
            match r {
                Ok(v) => spec_insert(es2, t, TypeModel::Domain { pg_ty: t, inner: Box::new(v) }),
                Err(bad) => (Err(bad), es2),
            }
        },
        PgKindModel::Composite(fields) => {
            let (r, es2) = spec_register_fields(
                cfg,
                es,
                fields,
                default_is_copy,
                default_is_params,
            );
            match r {
                Ok((is_copy, is_params)) => spec_insert(
                    es2,
                    t,
                    custom_model(t, is_copy, is_params),
                ),
                Err(bad) => (Err(bad), es2),
            }
        },
        PgKindModel::Simple => match builtin_rust_type(t) {
            Some((rust_name, is_copy)) => spec_insert(
                es,
                t,
                TypeModel::Simple { pg_ty: t, rust_name, borrowed_name: None, is_copy },
            ),
            None => (Err(t), es),
        },
        _ => (Err(t), es),
    }
}

/// Registration of the fields of a composite in order, and whether all of them are
/// `Copy` and usable as parameters (starting from `is_copy` and `is_params`).
pub open spec fn spec_register_fields(
    cfg: Config,
    es: Entries,
    fields: Seq<PgFieldModel>,
    is_copy: bool,
    is_params: bool,
) -> Registration<(bool, bool)>
    decreases fields, 0int,
{
    if fields.len() == 0 {
        (Ok((is_copy, is_params)), es)
    } else {
        let (r, es2) = spec_register(cfg, es, fields[0].ty);
        match r {
            Ok(v) => spec_register_fields(
                cfg,
                es2,
                fields.subrange(1, fields.len() as int),
                is_copy && spec_is_copy(v),
                is_params && spec_is_params(v),
            ),
            Err(bad) => (Err(bad), es2),
        }
    }
}


/// `e` reports that `bad`, met in column `col_name` of the query at `query`, has no
/// Rust counterpart.
pub open spec fn is_unsupported_error(
    e: Error,
    col_name: Seq<char>,
    query: SourceRange,
    info: ModuleInfo,
    bad: PgTypeModel,
) -> bool {
    match e {
        Error::UnsupportedPostgresType { src, query: q, col_name: c, col_ty } => {
            &&& src.path@ == info.path@
            &&& src.name@ == info.name@
            &&& src.full_module_path@ == info.full_module_path@
            &&& src.content@ == info.content@
            &&& q == query
            &&& c@ == col_name
            &&& col_ty@ == qualified_display(bad.schema, bad.name)
        },
        _ => false,
    }
}

/// A registration result `r` matches the registration `reg` of the column `name`.
pub open spec fn matches_registration(
    r: Result<Rc<CornucopiaType>, Error>,
    reg: Result<TypeModel, PgTypeModel>,
    name: Seq<char>,
    query: SourceRange,
    info: ModuleInfo,
) -> bool {
    match r {
        Ok(v) => reg == Ok::<TypeModel, PgTypeModel>(v@),
        Err(e) => reg is Err && is_unsupported_error(e, name, query, info, reg->Err_0),
    }
}

fn unsupported_error(name: &str, ty: &PgType, query_name: &Span<String>, module_info: &ModuleInfo) -> (e:
    Error)
    ensures
        is_unsupported_error(e, name@, query_name.span, *module_info, ty@),
{
    Error::UnsupportedPostgresType {
        src: module_info.duplicate(),
        query: query_name.span,
        col_name: String::from_str(name),
        col_ty: ty.display(),
    }
}

fn custom(ty: &PgType, is_copy: bool, is_params: bool) -> (r: CornucopiaType)
    ensures
        r@ == custom_model(ty@, is_copy, is_params),
{
    let rust_ty_name = to_upper_camel_case(ty.name.as_str());
    CornucopiaType::Custom { pg_ty: ty.duplicate(), struct_name: rust_ty_name, is_copy, is_params }
}

fn domain(ty: &PgType, inner: Rc<CornucopiaType>) -> (r: CornucopiaType)
    ensures
        r@ == (TypeModel::Domain { pg_ty: ty@, inner: Box::new(inner@) }),
{
    CornucopiaType::Domain { pg_ty: ty.duplicate(), inner }
}

fn builtin_rust_name(ty: &PgType) -> (r: Option<(&'static str, bool)>)
    ensures
        match r {
            Some((n, c)) => builtin_rust_type(ty@) == Some((n@, c)),
            None => builtin_rust_type(ty@) is None,
        },
{
    if ty.is_builtin(BOOL_OID) {
        Some(("bool", true))
    } else if ty.is_builtin(CHAR_OID) {
        Some(("i8", true))
    } else if ty.is_builtin(INT2_OID) {
        Some(("i16", true))
    } else if ty.is_builtin(INT4_OID) {
        Some(("i32", true))
    } else if ty.is_builtin(INT8_OID) {
        Some(("i64", true))
    } else if ty.is_builtin(FLOAT4_OID) {
        Some(("f32", true))
    } else if ty.is_builtin(FLOAT8_OID) {
        Some(("f64", true))
    } else if ty.is_builtin_string() {
        Some(("String", false))
    } else if ty.is_builtin(BYTEA_OID) {
        Some(("Vec<u8>", false))
    } else if ty.is_builtin(TIMESTAMP_OID) {
        Some(("chrono::NaiveDateTime", true))
    } else if ty.is_builtin(TIMESTAMPTZ_OID) {
        Some(("chrono::DateTime<chrono::FixedOffset>", true))
    } else if ty.is_builtin(DATE_OID) {
        Some(("chrono::NaiveDate", true))
    } else if ty.is_builtin(TIME_OID) {
        Some(("chrono::NaiveTime", true))
    } else if ty.is_builtin_json() {
        Some(("serde_json::Value", false))
    } else if ty.is_builtin(UUID_OID) {
        Some(("uuid::Uuid", true))
    } else if ty.is_builtin(INET_OID) {
        Some(("std::net::IpAddr", true))
    } else if ty.is_builtin(MACADDR_OID) {
        Some(("eui48::MacAddress", true))
    } else if ty.is_builtin(NUMERIC_OID) {
        Some(("rust_decimal::Decimal", true))
    } else if ty.is_text_extension() {
        Some(("String", false))
    } else {
        None
    }
}

fn clone_opt_string(o: &Option<String>) -> (r: Option<String>)
    ensures
        opt_string_model(r) == opt_string_model(*o),
{
    match o {
        Some(s) => Some(s.clone()),
        None => None,
    }
}

/// Data structure holding all types known to this particular run of Cornucopia.
#[derive(Debug)]
pub struct TypeRegistrar {
    pub types: TypeMap,
    /// Domains used through a `col: domain_name` row override, keyed by domain name. Each
    /// one needs a row-decode wrapper generated in `types.rs`; see `domain_row_wrapper_name`.
    pub domain_row_overrides: OverrideMap,
    config: Config,
}

impl TypeRegistrar {
    /// The registered types, in order.
    pub closed spec fn entries(&self) -> Entries {
        type_entries(self.types)
    }

    /// The domain row overrides, in order.
    pub closed spec fn overrides(&self) -> Seq<(Seq<char>, Seq<char>)> {
        override_entries(self.domain_row_overrides)
    }

    /// The configuration the registrar was made with.
    pub closed spec fn configuration(&self) -> Config {
        self.config
    }

    pub fn new(config: Config) -> (r: TypeRegistrar)
        ensures
            r.entries() == Seq::<(TypeKey, TypeModel)>::empty(),
            r.overrides() == Seq::<(Seq<char>, Seq<char>)>::empty(),
            r.configuration() == config,
    {
        TypeRegistrar { types: type_map_new(), domain_row_overrides: override_map_new(), config }
    }

    /// Returns the type mapping for a specific type
    pub fn get_type_mapping(&self, ty: &PgType) -> (r: Option<&TypeMapping>)
        ensures
            match r {
                Some(m) => self.configuration().spec_type_mapping(ty@) == Some(*m),
                None => self.configuration().spec_type_mapping(ty@) is None,
            },
    {
        self.config.get_type_mapping(ty)
    }

    fn resolve_type(
        &mut self,
        ty: &PgType,
        name: &str,
        query_name: &Span<String>,
        module_info: &ModuleInfo,
        default_is_copy: bool,
        default_is_params: bool,
    ) -> (r: Result<Rc<CornucopiaType>, Error>)
        ensures
            final(self).configuration() == old(self).configuration(),
            final(self).overrides() == old(self).overrides(),
            final(self).entries() == spec_resolve(
                old(self).configuration(),
                old(self).entries(),
                ty@,
                default_is_copy,
                default_is_params,
            ).1,
            matches_registration(
                r,
                spec_resolve(
                    old(self).configuration(),
                    old(self).entries(),
                    ty@,
                    default_is_copy,
                    default_is_params,
                ).0,
                name@,
                query_name.span,
                *module_info,
            ),
        decreases ty, 1int,
    {
        match &ty.kind {
            PgKind::Enum(_) => {
                let v = custom(ty, true, true);
                Ok(self.insert(ty, v))
            },
            PgKind::Array(inner_ty) => {
                proof {
                    let ghost k = ty.kind;
                    assert(decreases_to!(*ty => k));
                    assert(decreases_to!(k => **inner_ty));
                }
                let inner = self.register(name, inner_ty, query_name, module_info)?;
                Ok(self.insert(ty, CornucopiaType::Array { inner }))
            },
            PgKind::Domain(inner_ty) => {
                proof {
                    let ghost k = ty.kind;
                    assert(decreases_to!(*ty => k));
                    assert(decreases_to!(k => **inner_ty));
                }
                let inner = self.register(name, inner_ty, query_name, module_info)?;
                let v = domain(ty, inner);
                Ok(self.insert(ty, v))
            },
            PgKind::Composite(composite_fields) => {
                let ghost cfg = self.configuration();
                let ghost es0 = self.entries();
                let ghost fms = fields_model(composite_fields@);
                let mut is_copy = default_is_copy;
                let mut is_params = default_is_params;
                let mut i: usize = 0;
                proof {
                    assert(fms.subrange(0, fms.len() as int) =~= fms);
                    crate::pg_type::lemma_fields_model_len(composite_fields@);
                }
                while i < composite_fields.len()
                    invariant
                        i <= composite_fields@.len(),
                        fms == fields_model(composite_fields@),
                        fms.len() == composite_fields@.len(),
                        ty.kind == PgKind::Composite(*composite_fields),
                        self.configuration() == cfg,
                        self.overrides() == old(self).overrides(),
                        cfg == old(self).configuration(),
                        es0 == old(self).entries(),
                        spec_register_fields(cfg, es0, fms, default_is_copy, default_is_params)
                            == spec_register_fields(
                            cfg,
                            self.entries(),
                            fms.subrange(i as int, fms.len() as int),
                            is_copy,
                            is_params,
                        ),
                    decreases composite_fields.len() - i,
                {
                    proof {
                        let ghost k = ty.kind;
                        let ghost fs = k->Composite_0;
                        assert(decreases_to!(*ty => k));
                        assert(decreases_to!(k => fs));
                        assert(decreases_to!(fs => fs@));
                        assert(decreases_to!(fs@ => fs@[i as int]));
                        assert(decreases_to!(fs@[i as int] => fs@[i as int].ty));
                        lemma_fields_model_index(composite_fields@, i as int);
                        let rest = fms.subrange(i as int, fms.len() as int);
                        assert(rest[0] == fms[i as int]);
                        assert(rest.subrange(1, rest.len() as int) =~= fms.subrange(
                            i + 1,
                            fms.len() as int,
                        ));
                    }
                    let field_ty = self.register(
                        name,
                        &composite_fields[i].ty,
                        query_name,
                        module_info,
                    )?;
                    is_copy = is_copy && field_ty.is_copy();
                    is_params = is_params && field_ty.is_params();
                    i = i + 1;
                }
                let v = custom(ty, is_copy, is_params);
                Ok(self.insert(ty, v))
            },
            PgKind::Simple => match builtin_rust_name(ty) {
                Some((rust_name, is_copy)) => {
                    let v = CornucopiaType::Simple {
                        pg_ty: ty.duplicate(),
                        rust_name: String::from_str(rust_name),
                        borrowed_name: None,
                        is_copy,
                    };
                    Ok(self.insert(ty, v))
                },
                None => Err(unsupported_error(name, ty, query_name, module_info)),
            },
            _ => Err(unsupported_error(name, ty, query_name, module_info)),
        }
    }

    /// Registers `ty` (met in column `name` of a query) and every type it is made of,
    /// and returns its Rust counterpart.
    pub fn register(
        &mut self,
        name: &str,
        ty: &PgType,
        query_name: &Span<String>,
        module_info: &ModuleInfo,
    ) -> (r: Result<Rc<CornucopiaType>, Error>)
        ensures
            final(self).configuration() == old(self).configuration(),
            final(self).overrides() == old(self).overrides(),
            final(self).entries() == spec_register(
                old(self).configuration(),
                old(self).entries(),
                ty@,
            ).1,
            matches_registration(
                r,
                spec_register(old(self).configuration(), old(self).entries(), ty@).0,
                name@,
                query_name.span,
                *module_info,
            ),
        decreases ty, 2int,
    {
        let key = (ty.schema.clone(), ty.name.clone());
        if let Some(idx) = type_map_index_of(&self.types, &key) {
            proof {
                lemma_index_of_key(self.entries(), key_of(ty@));
            }
            return Ok(type_map_value_at(&self.types, idx).clone());
        }
        // check if there's a user-defined mapping first

        let mapping_result: Option<(String, Option<String>, bool)> = match self.config.get_type_mapping(
            ty,
        ) {
            Some(TypeMapping::Simple(name)) => Some((name.clone(), None, true)),
            Some(TypeMapping::Detailed { rust_type, borrowed_type, is_copy }) => Some(
                (rust_type.clone(), clone_opt_string(borrowed_type), *is_copy),
            ),
            None => {
                if let PgKind::Domain(_) = &ty.kind {
                    // A domain-specific mapping overrides the default of transparently falling
                    // back to the base type. The mapped type is used as-is (not wrapped), so it
                    // has to accept the domain itself; see the `types.domains` doc comment.
                    match self.config.get_domain_mapping(ty.name.as_str()) {
                        Some(rust_type) => Some((rust_type.clone(), None, false)),
                        None => None,
                    }
                } else {
                    None
                }
            },
        };
        if let Some((rust_name, borrowed_name, is_copy)) = mapping_result {
            let v = CornucopiaType::Simple { pg_ty: ty.duplicate(), rust_name, borrowed_name, is_copy };
            return Ok(self.insert(ty, v));
        }
        self.resolve_type(ty, name, query_name, module_info, true, true)
    }

    /// The registered counterpart of `ty`, which must be registered already.
    pub fn ref_of(&self, ty: &PgType) -> (r: Rc<CornucopiaType>)
        requires
            index_of_key(self.entries(), key_of(ty@)) is Some,
        ensures
            r@ == self.entries()[index_of_key(self.entries(), key_of(ty@))->Some_0].1,
    {
        self.index(ty).clone()
    }

    /// The registered counterpart of `ty`, which must be registered already
    /// (`registrar[&ty]`).
    pub fn index(&self, ty: &PgType) -> (r: &Rc<CornucopiaType>)
        requires
            index_of_key(self.entries(), key_of(ty@)) is Some,
        ensures
            r@ == self.entries()[index_of_key(self.entries(), key_of(ty@))->Some_0].1,
    {
        let key = (ty.schema.clone(), ty.name.clone());
        proof {
            lemma_index_of_key(self.entries(), key_of(ty@));
        }
        match type_map_index_of(&self.types, &key) {
            Some(i) => type_map_value_at(&self.types, i),
            None => vstd::pervasive::unreached(),
        }
    }

    /// The number of registered types.
    pub fn len(&self) -> (r: usize)
        ensures
            r == self.entries().len(),
    {
        type_map_len(&self.types)
    }

    /// Checks the part of a `col: domain_name` row override that needs no database:
    /// that the domain has a `types.domains` mapping.
    pub fn check_row_domain_override(&self, domain_name: &str) -> (r: Result<(), Error>)
        ensures
            match self.configuration().spec_domain_mapping(domain_name@) {
                Some(_) => r is Ok,
                None => r matches Err(Error::DomainOverrideNotMapped { name }) && name@
                    == domain_name@,
            },
    {
        match self.config.get_domain_mapping(domain_name) {
            Some(_) => Ok(()),
            None => Err(Error::DomainOverrideNotMapped { name: String::from_str(domain_name) }),
        }
    }

    /// Resolves a `col: domain_name` row override into the `CornucopiaType` its field should
    /// use, and records that the domain needs a row-decode wrapper generated.
    ///
    /// `domain_ty` is the domain as the schema describes it and `col_ty` the type PostgreSQL
    /// actually reported for the column (always the domain's base type, per the
    /// `types.domains` doc comment): see `row_domain_override_type` for what is checked.
    pub fn resolve_row_domain_override(
        &mut self,
        domain_name: &str,
        domain_ty: &PgType,
        col_ty: &PgType,
    ) -> (r: Result<Rc<CornucopiaType>, Error>)
        requires
            old(self).configuration().spec_domain_mapping(domain_name@) is Some
                ==> domain_ty@.kind is Domain,
        ensures
            final(self).configuration() == old(self).configuration(),
            final(self).entries() == old(self).entries(),
            row_override_outcome(
                old(self).configuration(),
                domain_name@,
                domain_ty@,
                col_ty@,
                match r {
                    Ok(v) => Ok(*v),
                    Err(e) => Err(e),
                },
            ),
            match r {
                Ok(v) => final(self).overrides() == if index_of_key(
                    old(self).overrides(),
                    domain_name@,
                ) is Some {
                    old(self).overrides()
                } else {
                    old(self).overrides().push(
                        (domain_name@, old(self).configuration().spec_domain_mapping(
                            domain_name@,
                        )->Some_0),
                    )
                },
                Err(_) => final(self).overrides() == old(self).overrides(),
            },
    {
        let ty = row_domain_override_type(&self.config, domain_name, domain_ty, col_ty)?;
        let rust_name = match &ty {
            CornucopiaType::Simple { rust_name, .. } => rust_name.clone(),
            _ => vstd::pervasive::unreached(),
        };
        let key = String::from_str(domain_name);
        if override_map_index_of(&self.domain_row_overrides, &key).is_none() {
            override_map_insert_full(&mut self.domain_row_overrides, key, rust_name);
        }
        Ok(Rc::new(ty))
    }

    fn insert(&mut self, ty: &PgType, value: CornucopiaType) -> (r: Rc<CornucopiaType>)
        ensures
            final(self).configuration() == old(self).configuration(),
            final(self).overrides() == old(self).overrides(),
            (Ok::<TypeModel, PgTypeModel>(r@), final(self).entries()) == spec_insert(
                old(self).entries(),
                ty@,
                value@,
            ),
    {
        let key = (ty.schema.clone(), ty.name.clone());
        match type_map_index_of(&self.types, &key) {
            Some(index) => {
                proof {
                    lemma_index_of_key(self.entries(), key_of(ty@));
                }
                type_map_value_at(&self.types, index).clone()
            },
            None => {
                let value = Rc::new(value);
                type_map_insert_full(&mut self.types, key, value.clone());
                value
            },
        }
    }
}


/// What a `col: domain_name` row override gives, for the domain `domain_ty` (as the
/// schema describes it) and the reported column type `col_ty`: an error when the
/// domain has no `types.domains` mapping, or when `col_ty` is not the domain's base
/// type; else the mapped Rust type, used as it is.
pub open spec fn row_override_outcome(
    cfg: Config,
    domain_name: Seq<char>,
    domain_ty: PgTypeModel,
    col_ty: PgTypeModel,
    r: Result<CornucopiaType, Error>,
) -> bool {
    match cfg.spec_domain_mapping(domain_name) {
        None => r matches Err(Error::DomainOverrideNotMapped { name }) && name@ == domain_name,
        Some(rust_type) => {
            let base = *domain_ty.kind->Domain_0;
            if base.name != col_ty.name || base.schema != col_ty.schema {
                r matches Err(Error::DomainOverrideBaseMismatch { domain, expected_base, actual })
                    && domain@ == domain_name && expected_base@ == base.name && actual@
                    == col_ty.name
            } else {
                r matches Ok(v) && v@ == (TypeModel::Simple {
                    pg_ty: domain_ty,
                    rust_name: rust_type,
                    borrowed_name: None,
                    is_copy: false,
                })
            }
        },
    }
}

/// Resolves the [`CornucopiaType`] a `col: domain_name` row override produces for `col_ty`,
/// the type PostgreSQL actually reported for that result column; `domain_ty` is the
/// domain as the schema describes it.
///
/// A result column of domain type is always reported as its base type (see the `types.domains`
/// doc comment), so this is the only way to recover the domain: the caller states it, and this
/// checks the statement against the schema. Two things can go wrong: the named domain has no
/// `types.domains` mapping, or `col_ty` isn't actually that domain's base type (a stale
/// annotation after the column's type changed).
pub fn row_domain_override_type(
    config: &Config,
    domain_name: &str,
    domain_ty: &PgType,
    col_ty: &PgType,
) -> (r: Result<CornucopiaType, Error>)
    requires
        config.spec_domain_mapping(domain_name@) is Some ==> domain_ty@.kind is Domain,
    ensures
        row_override_outcome(*config, domain_name@, domain_ty@, col_ty@, r),
{
    let rust_type = match config.get_domain_mapping(domain_name) {
        Some(rust_type) => rust_type,
        None => {
            return Err(Error::DomainOverrideNotMapped { name: String::from_str(domain_name) });
        },
    };
    let base = match &domain_ty.kind {
        PgKind::Domain(base) => base,
        // `types.domains` is already validated against the schema, so a name found there
        // that isn't actually a domain would be a bug, not a user error.
        _ => vstd::pervasive::unreached(),
    };
    assert(domain_ty@.kind == PgKindModel::Domain(Box::new(type_model(**base))));
    if base.name != col_ty.name || base.schema != col_ty.schema {
        return Err(
            Error::DomainOverrideBaseMismatch {
                domain: String::from_str(domain_name),
                expected_base: base.name.clone(),
                actual: col_ty.name.clone(),
            },
        );
    }
    Ok(
        CornucopiaType::Simple {
            // Keep the real domain type (a domain, not `col_ty`'s base kind) so the
            // special cases of `text`, `bytea`, ... in `brw_ty`/`is_ref` don't fire for it:
            // those key off `pg_ty` alone and would otherwise force e.g. `&str` regardless
            // of `rust_name`.
            pg_ty: domain_ty.duplicate(),
            rust_name: rust_type.clone(),
            borrowed_name: None,
            is_copy: false,
        },
    )
}

/// `s` with each double quote doubled, as in a quoted SQL identifier.
pub open spec fn escape_double_quotes(s: Seq<char>) -> Seq<char>
    decreases s.len(),
{
    if s.len() == 0 {
        Seq::empty()
    } else {
        let last = s[s.len() - 1];
        escape_double_quotes(s.subrange(0, s.len() - 1)) + if last == '"' {
            seq!['"', '"']
        } else {
            seq![last]
        }
    }
}

/// The statement whose single parameter has the type of the domain `domain_name`:
/// `SELECT $1::"domain_name"`, with the name quoted as an SQL identifier.
pub fn domain_cast_query(domain_name: &str) -> (r: String)
    ensures
        r@ == "SELECT $1::\""@ + escape_double_quotes(domain_name@) + "\""@,
{
    let mut quoted = String::new();
    let n = domain_name.unicode_len();
    let mut i: usize = 0;
    proof {
        assert(domain_name@.subrange(0, 0) =~= Seq::<char>::empty());
    }
    while i < n
        invariant
            n == domain_name@.len(),
            i <= n,
            quoted@ == escape_double_quotes(domain_name@.subrange(0, i as int)),
        decreases n - i,
    {
        let c = domain_name.get_char(i);
        if c == '"' {
            quoted.append("\"\"");
        } else {
            quoted.append(domain_name.substring_char(i, i + 1));
        }
        proof {
            let pre = domain_name@.subrange(0, i + 1);
            assert(pre.subrange(0, i as int) =~= domain_name@.subrange(0, i as int));
            assert(pre[i as int] == c);
            assert(domain_name@.subrange(i as int, i + 1) =~= seq![c]);
            reveal_strlit("\"\"");
            assert("\"\""@ =~= seq!['"', '"']);
        }
        i = i + 1;
    }
    assert(domain_name@.subrange(0, n as int) =~= domain_name@);
    crate::cornucopia_type::cat3("SELECT $1::\"", quoted.as_str(), "\"")
}

/// Whether `name` is among `names`.
pub open spec fn names_contain(names: Seq<String>, name: Seq<char>) -> bool {
    exists|i: int| 0 <= i < names.len() && names[i]@ == name
}

fn contains_name(names: &Vec<String>, name: &str) -> (r: bool)
    ensures
        r == names_contain(names@, name@),
{
    let mut i: usize = 0;
    while i < names.len()
        invariant
            i <= names@.len(),
            forall|j: int| 0 <= j < i ==> names@[j]@ != name@,
        decreases names.len() - i,
    {
        if str_eq(names[i].as_str(), name) {
            return true;
        }
        i = i + 1;
    }
    false
}

/// Checks that every domain named in `types.domains` exists in the schema, given the
/// names of the schema's domains (`known_domains`). Domains that are never referenced
/// by a query are otherwise never looked at, so this cannot rely on type registration
/// alone.
pub fn validate_domain_mappings(config: &Config, known_domains: &Vec<String>) -> (r: Result<(), Error>)
    ensures
        r is Ok <==> forall|i: int|
            0 <= i < config.types.domains@.len() ==> names_contain(
                known_domains@,
                #[trigger] config.types.domains@[i].0@,
            ),
        r matches Err(e) ==> exists|i: int|
            0 <= i < config.types.domains@.len() && {
                &&& !names_contain(known_domains@, #[trigger] config.types.domains@[i].0@)
                &&& forall|j: int|
                    0 <= j < i ==> names_contain(known_domains@, config.types.domains@[j].0@)
                &&& e matches Error::UnknownDomain { name } && name@
                    == config.types.domains@[i].0@
            },
{
    let domains = &config.types.domains;
    let mut i: usize = 0;
    while i < domains.len()
        invariant
            domains == &config.types.domains,
            i <= domains@.len(),
            forall|j: int| 0 <= j < i ==> names_contain(known_domains@, #[trigger] domains@[j].0@),
        decreases domains.len() - i,
    {
        if !contains_name(known_domains, domains[i].0.as_str()) {
            return Err(Error::UnknownDomain { name: domains[i].0.clone() });
        }
        i = i + 1;
    }
    Ok(())
}

} // verus!
