use cornucopia::config::TypeMapping;
use cornucopia::pg_type::str_eq;
use cornucopia::{
    idx_char, row_domain_override_type, validate_domain_mappings, Config, CornucopiaType, Error,
    GenCtx, ModCtx, ModuleInfo, PgField, PgKind, PgType, SourceRange, Span, TypeRegistrar,
};
use std::rc::Rc;

fn span() -> Span<String> {
    Span { span: SourceRange { offset: 3, length: 7 }, value: "q".to_string() }
}

fn info() -> ModuleInfo {
    ModuleInfo {
        path: "queries/test.sql".to_string(),
        name: "test".to_string(),
        full_module_path: "queries::test".to_string(),
        content: "SELECT 1".to_string(),
    }
}

fn builtin(name: &str, oid: u32) -> PgType {
    PgType {
        name: name.to_string(),
        oid,
        kind: PgKind::Simple,
        schema: "pg_catalog".to_string(),
        builtin: true,
    }
}

fn text() -> PgType {
    builtin("text", 25)
}

fn int4() -> PgType {
    builtin("int4", 23)
}

fn array_of(name: &str, oid: u32, elem: PgType) -> PgType {
    PgType {
        name: name.to_string(),
        oid,
        kind: PgKind::Array(Box::new(elem)),
        schema: "pg_catalog".to_string(),
        builtin: true,
    }
}

fn user(name: &str, oid: u32, kind: PgKind, schema: &str) -> PgType {
    PgType::new(name.to_string(), oid, kind, schema.to_string())
}

fn types_ctx() -> GenCtx {
    GenCtx::new(ModCtx::Types, false)
}

fn queries_ctx() -> GenCtx {
    GenCtx::new(ModCtx::Queries, false)
}

fn reg(registrar: &mut TypeRegistrar, ty: &PgType) -> Rc<CornucopiaType> {
    registrar.register("col", ty, &span(), &info()).unwrap()
}

#[test]
fn builtin_types_map_to_the_documented_rust_types() {
    let mut r = TypeRegistrar::new(Config::default());
    let cases: Vec<(&str, u32, &str, bool)> = vec![
        ("bool", 16, "bool", true),
        ("char", 18, "i8", true),
        ("int2", 21, "i16", true),
        ("int4", 23, "i32", true),
        ("int8", 20, "i64", true),
        ("float4", 700, "f32", true),
        ("float8", 701, "f64", true),
        ("text", 25, "String", false),
        ("varchar", 1043, "String", false),
        ("bpchar", 1042, "String", false),
        ("name", 19, "String", false),
        ("bytea", 17, "Vec<u8>", false),
        ("timestamp", 1114, "chrono::NaiveDateTime", true),
        ("timestamptz", 1184, "chrono::DateTime<chrono::FixedOffset>", true),
        ("date", 1082, "chrono::NaiveDate", true),
        ("time", 1083, "chrono::NaiveTime", true),
        ("json", 114, "serde_json::Value", false),
        ("jsonb", 3802, "serde_json::Value", false),
        ("uuid", 2950, "uuid::Uuid", true),
        ("inet", 869, "std::net::IpAddr", true),
        ("macaddr", 829, "eui48::MacAddress", true),
        ("numeric", 1700, "rust_decimal::Decimal", true),
    ];
    for (name, oid, rust, copy) in cases {
        let ty = reg(&mut r, &builtin(name, oid));
        assert_eq!(ty.own_ty(false, &types_ctx()), rust, "{name}");
        assert_eq!(ty.is_copy(), copy, "{name}");
        assert!(ty.is_params());
    }
    assert_eq!(r.len(), 22);
}

#[test]
fn text_extensions_are_strings_in_any_schema() {
    let mut r = TypeRegistrar::new(Config::default());
    for name in ["citext", "ltree", "lquery", "ltxtquery"] {
        let ty = reg(&mut r, &user(name, 90_000, PgKind::Simple, "ext"));
        assert_eq!(ty.own_ty(false, &types_ctx()), "String");
        assert_eq!(ty.brw_ty(false, true, &types_ctx()), "&'a str");
        assert!(!ty.is_ref());
        let mut traits = Vec::new();
        assert_eq!(ty.param_ergo_ty(false, &mut traits, &types_ctx()), "T1");
        assert_eq!(traits, vec!["crate::StringSql".to_string()]);
    }
}

#[test]
fn unsupported_simple_type_is_an_error_naming_the_column_and_type() {
    let mut r = TypeRegistrar::new(Config::default());
    let point = builtin("point", 600);
    match r.register("location", &point, &span(), &info()) {
        Err(Error::UnsupportedPostgresType { src, query, col_name, col_ty }) => {
            assert_eq!(src.path, "queries/test.sql");
            assert_eq!(src.content, "SELECT 1");
            assert_eq!(query, SourceRange { offset: 3, length: 7 });
            assert_eq!(col_name, "location");
            assert_eq!(col_ty, "point");
        }
        other => panic!("unexpected {:?}", other.map(|_| ())),
    }
    assert_eq!(r.len(), 0);
}

#[test]
fn unsupported_type_of_another_schema_is_named_with_its_schema() {
    let mut r = TypeRegistrar::new(Config::default());
    let weird = user("weird", 91_000, PgKind::Pseudo, "extra");
    match r.register("c", &weird, &span(), &info()) {
        Err(Error::UnsupportedPostgresType { col_ty, .. }) => assert_eq!(col_ty, "extra.weird"),
        other => panic!("unexpected {:?}", other.map(|_| ())),
    }
    let range = user("int4range", 3904, PgKind::Range(Box::new(int4())), "public");
    match r.register("c", &range, &span(), &info()) {
        Err(Error::UnsupportedPostgresType { col_ty, .. }) => assert_eq!(col_ty, "int4range"),
        other => panic!("unexpected {:?}", other.map(|_| ())),
    }
    // The element was registered before the range was refused? No: ranges are refused
    // without looking at their element.
    assert_eq!(r.len(), 0);
}

#[test]
fn array_of_unsupported_element_is_refused_with_the_element_named() {
    let mut r = TypeRegistrar::new(Config::default());
    let arr = array_of("_point", 1017, builtin("point", 600));
    match r.register("c", &arr, &span(), &info()) {
        Err(Error::UnsupportedPostgresType { col_ty, .. }) => assert_eq!(col_ty, "point"),
        other => panic!("unexpected {:?}", other.map(|_| ())),
    }
}

#[test]
fn arrays_are_vecs_slices_and_iterators() {
    let mut r = TypeRegistrar::new(Config::default());
    let arr = reg(&mut r, &array_of("_int4", 1007, int4()));
    assert_eq!(r.len(), 2);
    assert!(matches!(&*arr, CornucopiaType::Array { .. }));
    assert_eq!(arr.own_ty(false, &types_ctx()), "Vec<i32>");
    assert_eq!(arr.own_ty(true, &types_ctx()), "Vec<Option<i32>>");
    // An array's Rust equivalent is a `Vec<T>`, which borrows as a slice `&[T]`.
    assert_eq!(arr.brw_ty(false, true, &types_ctx()), "&'a [i32]");
    assert_eq!(arr.brw_ty(true, false, &types_ctx()), "& [Option<i32>]");
    assert_eq!(arr.brw_ty(true, true, &types_ctx()), "&'a [Option<i32>]");
    assert_eq!(arr.param_ty(false, &types_ctx()), "&'a [i32]");
    assert_eq!(arr.param_ty(true, &types_ctx()), "&'a [Option<i32>]");
    assert!(!arr.is_copy());
    assert!(!arr.is_params());
    assert!(!arr.is_ref());
    assert_eq!(arr.pg_ty().name, "int4");
    assert_eq!(arr.sql_wrapped("value"), "value");
    assert_eq!(arr.accept_to_sql(&types_ctx()), "&'a [i32]");
    assert_eq!(arr.owning_call("x", false, false), "x.map(|v| v).collect()");
    assert_eq!(arr.owning_call("x", true, false), "x.map(|v| v.map(|v| v).collect())");
}

#[test]
fn text_arrays_borrow_and_own() {
    let mut r = TypeRegistrar::new(Config::default());
    let arr = reg(&mut r, &array_of("_text", 1009, text()));
    assert_eq!(arr.brw_ty(false, false, &types_ctx()), "& [& str]");
    assert_eq!(arr.brw_ty(false, true, &types_ctx()), "&'a [&'a str]");
    // `text` itself needs no lifetime parameter of the type (its borrowed form is `&str`).
    assert!(!arr.is_ref());
    assert_eq!(arr.owning_call("x", false, true), "x.map(|v| v.map(|v| v.into())).collect()");
    let mut traits = vec!["A".to_string()];
    assert_eq!(arr.param_ergo_ty(true, &mut traits, &types_ctx()), "T3");
    assert_eq!(
        traits,
        vec![
            "A".to_string(),
            "crate::StringSql".to_string(),
            "crate::ArraySql<Item = Option<T2>>".to_string()
        ]
    );
}

#[test]
fn array_of_domain_is_wrapped_for_sql() {
    let mut r = TypeRegistrar::new(Config::default());
    let dom = user("note", 92_000, PgKind::Domain(Box::new(text())), "public");
    let arr = user("_note", 92_001, PgKind::Array(Box::new(dom)), "public");
    let ty = reg(&mut r, &arr);
    assert_eq!(r.len(), 3);
    assert_eq!(ty.sql_wrapped("value"), "&crate::DomainArray(value)");
    assert_eq!(ty.accept_to_sql(&types_ctx()), "crate::DomainArray::<&'a str, &[&'a str]>");
    assert_eq!(ty.own_ty(false, &types_ctx()), "Vec<String>");
}

#[test]
fn domain_of_domain_nests_wrappers() {
    let mut r = TypeRegistrar::new(Config::default());
    let inner = user("inner_d", 93_000, PgKind::Domain(Box::new(int4())), "public");
    let outer = user("outer_d", 93_001, PgKind::Domain(Box::new(inner)), "public");
    let ty = reg(&mut r, &outer);
    assert_eq!(ty.sql_wrapped("v"), "&crate::Domain(&crate::Domain(v))");
    assert_eq!(ty.accept_to_sql(&types_ctx()), "crate::Domain::<crate::Domain::<i32>>");
    assert!(ty.is_copy());
    assert_eq!(ty.owning_call("x", true, false), "x");
    assert_eq!(ty.pg_ty().name, "outer_d");
}

#[test]
fn json_types_have_their_own_borrowed_and_parameter_forms() {
    let mut r = TypeRegistrar::new(Config::default());
    let json = reg(&mut r, &builtin("jsonb", 3802));
    assert_eq!(
        json.brw_ty(false, true, &types_ctx()),
        "postgres_types::Json<&'a serde_json::value::RawValue>"
    );
    assert_eq!(json.param_ty(false, &types_ctx()), "&'a serde_json::value::Value");
    assert_eq!(json.owning_call("x", false, false), "serde_json::from_str(x.0.get()).unwrap()");
    assert_eq!(json.owning_call("x", true, false), "x.map(|v| serde_json::from_str(v.0.get()).unwrap())");
    let mut traits = Vec::new();
    assert_eq!(json.param_ergo_ty(false, &mut traits, &types_ctx()), "T1");
    assert_eq!(traits, vec!["crate::JsonSql".to_string()]);
}

#[test]
fn bytea_borrows_as_a_slice() {
    let mut r = TypeRegistrar::new(Config::default());
    let b = reg(&mut r, &builtin("bytea", 17));
    assert_eq!(b.brw_ty(false, true, &types_ctx()), "&'a [u8]");
    assert_eq!(b.brw_ty(false, false, &types_ctx()), "& [u8]");
    let mut traits: Vec<String> = (0..9).map(|i| format!("X{i}")).collect();
    assert_eq!(b.param_ergo_ty(false, &mut traits, &types_ctx()), "T10");
    assert_eq!(traits.last().unwrap(), "crate::BytesSql");
}

#[test]
fn copy_types_are_their_own_parameters() {
    let mut r = TypeRegistrar::new(Config::default());
    let i = reg(&mut r, &int4());
    let mut traits = Vec::new();
    assert_eq!(i.param_ergo_ty(false, &mut traits, &types_ctx()), "i32");
    assert!(traits.is_empty());
    assert_eq!(i.brw_ty(false, true, &types_ctx()), "i32");
    assert_eq!(i.owning_call("x", true, true), "x");
    assert!(!i.is_ref());
}

#[test]
fn composites_are_generated_structs() {
    let mut r = TypeRegistrar::new(Config::default());
    let comp = user(
        "sim_info",
        94_000,
        PgKind::Composite(vec![
            PgField { name: "id".to_string(), ty: int4() },
            PgField { name: "note".to_string(), ty: text() },
        ]),
        "public",
    );
    let ty = reg(&mut r, &comp);
    assert_eq!(r.len(), 3);
    match &*ty {
        CornucopiaType::Custom { struct_name, is_copy, is_params, .. } => {
            assert_eq!(struct_name, "SimInfo");
            assert!(!is_copy);
            assert!(is_params);
        }
        _ => panic!("not a custom type"),
    }
    assert_eq!(ty.own_ty(false, &types_ctx()), "SimInfo");
    assert_eq!(ty.own_ty(false, &queries_ctx()), "crate::types::SimInfo");
    assert_eq!(ty.brw_ty(false, true, &queries_ctx()), "crate::types::SimInfoBorrowed<'a>");
    assert_eq!(ty.brw_ty(false, false, &types_ctx()), "SimInfoBorrowed<>");
    assert_eq!(ty.param_ty(false, &queries_ctx()), "crate::types::SimInfoBorrowed<'a>");
    assert_eq!(ty.owning_call("x", false, false), "x.into()");
    assert!(ty.is_ref());
}

#[test]
fn composite_with_an_array_field_needs_a_params_struct() {
    let mut r = TypeRegistrar::new(Config::default());
    let comp = user(
        "bag",
        94_001,
        PgKind::Composite(vec![PgField {
            name: "items".to_string(),
            ty: array_of("_int4", 1007, int4()),
        }]),
        "store",
    );
    let ty = reg(&mut r, &comp);
    assert!(!ty.is_params());
    assert_eq!(ty.param_ty(false, &queries_ctx()), "crate::types::store::BagParams<'a>");
    assert_eq!(ty.own_ty(false, &types_ctx()), "store::Bag");
    assert_eq!(
        ty.own_ty(false, &GenCtx::new(ModCtx::SchemaTypes, true)),
        "super::store::Bag"
    );
}

#[test]
fn composite_with_unsupported_field_keeps_the_fields_registered_before() {
    let mut r = TypeRegistrar::new(Config::default());
    let comp = user(
        "broken",
        94_002,
        PgKind::Composite(vec![
            PgField { name: "a".to_string(), ty: int4() },
            PgField { name: "b".to_string(), ty: builtin("point", 600) },
            PgField { name: "c".to_string(), ty: text() },
        ]),
        "public",
    );
    assert!(r.register("c", &comp, &span(), &info()).is_err());
    assert_eq!(r.len(), 1);
}

#[test]
fn enums_are_copy_structs() {
    let mut r = TypeRegistrar::new(Config::default());
    let mood = user("mood", 95_000, PgKind::Enum(vec!["sad".to_string(), "ok".to_string()]), "public");
    let ty = reg(&mut r, &mood);
    assert!(ty.is_copy());
    assert!(ty.is_params());
    assert!(!ty.is_ref());
    assert_eq!(ty.brw_ty(false, true, &queries_ctx()), "crate::types::Mood");
    assert_eq!(ty.param_ty(false, &GenCtx::new(ModCtx::ClientQueries, true)), "crate::types::Mood");
    assert_eq!(ty.owning_call("x", true, false), "x");
}

#[test]
fn registration_is_idempotent_and_cached() {
    let mut r = TypeRegistrar::new(Config::default());
    let arr = array_of("_text", 1009, text());
    let first = reg(&mut r, &arr);
    assert_eq!(r.len(), 2);
    let second = reg(&mut r, &arr);
    assert_eq!(r.len(), 2);
    assert_eq!(first.own_ty(false, &types_ctx()), second.own_ty(false, &types_ctx()));
    let again = r.ref_of(&arr);
    assert_eq!(again.own_ty(false, &types_ctx()), "Vec<String>");
    assert_eq!(r.index(&text()).own_ty(false, &types_ctx()), "String");
    // The key is the schema and the name: a type of the same name and schema is not
    // resolved anew.
    let same_key = PgType::new("_text".to_string(), 1, PgKind::Simple, "pg_catalog".to_string());
    let cached = reg(&mut r, &same_key);
    assert_eq!(cached.own_ty(false, &types_ctx()), "Vec<String>");
}

#[test]
fn registered_types_keep_their_order() {
    let mut r = TypeRegistrar::new(Config::default());
    reg(&mut r, &int4());
    reg(&mut r, &array_of("_text", 1009, text()));
    let keys: Vec<(String, String)> = r.types.keys().cloned().collect();
    assert_eq!(
        keys,
        vec![
            ("pg_catalog".to_string(), "int4".to_string()),
            ("pg_catalog".to_string(), "text".to_string()),
            ("pg_catalog".to_string(), "_text".to_string()),
        ]
    );
}

#[test]
fn type_mappings_take_precedence() {
    let config = Config::builder()
        .add_type_mapping("pg_catalog.text", TypeMapping::Simple("my::Text".to_string()))
        .add_type_mapping(
            "public.point",
            TypeMapping::Detailed {
                rust_type: "geo::Point".to_string(),
                borrowed_type: Some("geo::PointRef<'a>".to_string()),
                is_copy: false,
            },
        )
        .build();
    let mut r = TypeRegistrar::new(config);
    let t = reg(&mut r, &text());
    assert_eq!(t.own_ty(false, &types_ctx()), "my::Text");
    assert!(t.is_copy());
    // The special case of `text` still decides the borrowed form.
    assert_eq!(t.brw_ty(false, true, &types_ctx()), "&'a str");
    let p = reg(&mut r, &user("point", 96_000, PgKind::Pseudo, "public"));
    assert_eq!(p.own_ty(false, &types_ctx()), "geo::Point");
    assert_eq!(p.brw_ty(false, true, &types_ctx()), "geo::PointRef<'a>");
    assert_eq!(p.param_ty(false, &types_ctx()), "geo::PointRef<'a>");
    assert!(p.is_ref());
    assert_eq!(p.owning_call("x", false, false), "x.into()");
    assert!(r.get_type_mapping(&text()).is_some());
    assert!(r.get_type_mapping(&int4()).is_none());
}

#[test]
fn later_config_entries_win() {
    let config = Config::builder()
        .add_domain_mapping("iccid", "a::Iccid")
        .add_domain_mapping("iccid", "b::Iccid")
        .build();
    assert_eq!(config.get_domain_mapping("iccid").unwrap(), "b::Iccid");
    assert!(config.get_domain_mapping("other").is_none());
    assert!(config.has_domain_mappings());
    assert!(!Config::default().has_domain_mappings());
}

#[test]
fn simple_type_mapping_to_string_borrows_as_str() {
    let config = Config::builder()
        .add_type_mapping("public.label", TypeMapping::Simple("String".to_string()))
        .add_type_mapping("public.blob", TypeMapping::Simple("Vec<u8>".to_string()))
        .build();
    let mut r = TypeRegistrar::new(config);
    let l = reg(&mut r, &user("label", 97_000, PgKind::Simple, "public"));
    assert_eq!(l.brw_ty(false, true, &types_ctx()), "&'a str");
    let b = reg(&mut r, &user("blob", 97_001, PgKind::Simple, "public"));
    assert_eq!(b.brw_ty(false, false, &types_ctx()), "& [u8]");
}

#[test]
fn idx_char_names_generic_parameters() {
    assert_eq!(idx_char(0), "T0");
    assert_eq!(idx_char(7), "T7");
    assert_eq!(idx_char(12), "T12");
    assert_eq!(idx_char(1045), "T1045");
}

#[test]
fn custom_type_paths_depend_on_the_module() {
    assert_eq!(GenCtx::new(ModCtx::Types, true).custom_ty_path("public", "Mood"), "Mood");
    assert_eq!(GenCtx::new(ModCtx::SchemaTypes, true).custom_ty_path("public", "Mood"), "super::Mood");
    assert_eq!(GenCtx::new(ModCtx::Queries, true).custom_ty_path("public", "Mood"), "crate::types::Mood");
    assert_eq!(GenCtx::new(ModCtx::Types, true).custom_ty_path("app", "Mood"), "app::Mood");
    assert_eq!(
        GenCtx::new(ModCtx::ClientQueries, true).custom_ty_path("app", "Mood"),
        "crate::types::app::Mood"
    );
}

#[test]
fn types_display_as_postgres_names_them() {
    assert_eq!(text().display(), "text");
    assert_eq!(user("mood", 1, PgKind::Simple, "public").display(), "mood");
    assert_eq!(user("mood", 1, PgKind::Simple, "app").display(), "app.mood");
}

#[test]
fn str_eq_compares_characters() {
    assert!(str_eq("abc", "abc"));
    assert!(!str_eq("abc", "abd"));
    assert!(!str_eq("abc", "ab"));
    assert!(str_eq("", ""));
}

#[test]
fn domain_mappings_are_validated_against_the_schema() {
    let config = Config::builder()
        .add_domain_mapping("iccid", "a::Iccid")
        .add_domain_mapping("ghost", "a::Ghost")
        .add_domain_mapping("phantom", "a::Phantom")
        .build();
    let known = vec!["iccid".to_string(), "other".to_string()];
    match validate_domain_mappings(&config, &known) {
        Err(Error::UnknownDomain { name }) => assert_eq!(name, "ghost"),
        other => panic!("unexpected {:?}", other),
    }
    let known = vec!["iccid".to_string(), "ghost".to_string(), "phantom".to_string()];
    assert!(validate_domain_mappings(&config, &known).is_ok());
    assert!(validate_domain_mappings(&Config::default(), &Vec::new()).is_ok());
}

fn iccid_domain() -> PgType {
    user("iccid", 98_000, PgKind::Domain(Box::new(text())), "public")
}

#[test]
fn row_override_of_unmapped_domain_is_refused() {
    match row_domain_override_type(&Config::default(), "iccid", &iccid_domain(), &text()) {
        Err(Error::DomainOverrideNotMapped { name }) => assert_eq!(name, "iccid"),
        other => panic!("unexpected {:?}", other.map(|_| ())),
    }
}

#[test]
fn row_override_with_stale_base_type_is_refused() {
    let config = Config::builder().add_domain_mapping("iccid", "vibe_sim::Iccid").build();
    match row_domain_override_type(&config, "iccid", &iccid_domain(), &int4()) {
        Err(Error::DomainOverrideBaseMismatch { domain, expected_base, actual }) => {
            assert_eq!(domain, "iccid");
            assert_eq!(expected_base, "text");
            assert_eq!(actual, "int4");
        }
        other => panic!("unexpected {:?}", other.map(|_| ())),
    }
}

#[test]
fn row_override_uses_the_mapped_type_and_is_recorded_once() {
    let config = Config::builder().add_domain_mapping("iccid", "vibe_sim::Iccid").build();
    let mut r = TypeRegistrar::new(config);
    assert!(r.check_row_domain_override("iccid").is_ok());
    assert!(matches!(
        r.check_row_domain_override("nope"),
        Err(Error::DomainOverrideNotMapped { .. })
    ));
    let ty = r.resolve_row_domain_override("iccid", &iccid_domain(), &text()).unwrap();
    match &*ty {
        CornucopiaType::Simple { pg_ty, rust_name, borrowed_name, is_copy } => {
            assert_eq!(pg_ty.name, "iccid");
            assert_eq!(rust_name, "vibe_sim::Iccid");
            assert!(borrowed_name.is_none());
            assert!(!is_copy);
        }
        _ => panic!("not simple"),
    }
    // The domain's own type decides the borrowed form, not the `text` it is based on.
    assert_eq!(ty.brw_ty(false, true, &types_ctx()), "vibe_sim::Iccid");
    assert!(ty.is_ref());
    r.resolve_row_domain_override("iccid", &iccid_domain(), &text()).unwrap();
    assert_eq!(r.domain_row_overrides.len(), 1);
    assert_eq!(r.domain_row_overrides.get("iccid").unwrap(), "vibe_sim::Iccid");
    assert_eq!(r.len(), 0);
}

#[test]
fn duplicated_types_are_equal_in_every_field() {
    let comp = user(
        "pair",
        99_000,
        PgKind::Composite(vec![
            PgField { name: "a".to_string(), ty: array_of("_int4", 1007, int4()) },
            PgField { name: "b".to_string(), ty: iccid_domain() },
        ]),
        "public",
    );
    let copy = comp.duplicate();
    assert_eq!(copy.name, "pair");
    assert_eq!(copy.oid, 99_000);
    assert!(!copy.builtin);
    match &copy.kind {
        PgKind::Composite(fields) => {
            assert_eq!(fields.len(), 2);
            assert_eq!(fields[1].name, "b");
            assert_eq!(fields[1].ty.name, "iccid");
        }
        _ => panic!("not composite"),
    }
}

#[test]
fn wrapped_types_are_registered_before_their_wrappers() {
    let mut r = TypeRegistrar::new(Config::default());
    let dom = user("note", 92_000, PgKind::Domain(Box::new(text())), "public");
    let arr = user("_note", 92_001, PgKind::Array(Box::new(dom)), "public");
    let ty = reg(&mut r, &arr);
    let keys: Vec<String> = r.types.keys().map(|(_, n)| n.clone()).collect();
    assert_eq!(keys, vec!["text".to_string(), "note".to_string(), "_note".to_string()]);
    match &*ty {
        CornucopiaType::Array { inner } => assert!(Rc::ptr_eq(inner, &r.types[1])),
        _ => panic!("not an array"),
    }
    match &*r.types[1] {
        CornucopiaType::Domain { inner, .. } => assert!(Rc::ptr_eq(inner, &r.types[0])),
        _ => panic!("not a domain"),
    }
}

#[test]
fn failed_registration_leaves_the_type_unregistered() {
    let mut r = TypeRegistrar::new(Config::default());
    let comp = user(
        "broken",
        94_002,
        PgKind::Composite(vec![
            PgField { name: "a".to_string(), ty: int4() },
            PgField { name: "b".to_string(), ty: builtin("point", 600) },
        ]),
        "public",
    );
    assert!(r.register("c", &comp, &span(), &info()).is_err());
    let key = ("public".to_string(), "broken".to_string());
    assert!(r.types.get_index_of(&key).is_none());
    let arr = array_of("_point", 1017, builtin("point", 600));
    assert!(r.register("c", &arr, &span(), &info()).is_err());
    let key = ("pg_catalog".to_string(), "_point".to_string());
    assert!(r.types.get_index_of(&key).is_none());
}

#[test]
fn types_can_be_cloned() {
    let mut r = TypeRegistrar::new(Config::default());
    let ty = reg(&mut r, &array_of("_text", 1009, text()));
    let copy: CornucopiaType = (*ty).clone();
    assert_eq!(copy, *ty);
    assert_eq!(text().clone(), text());
}
