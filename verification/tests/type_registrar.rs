use cornucopia::{
    domain_row_wrapper_name, Config, CornucopiaType, GenCtx, ModCtx, ModuleInfo, PgKind, PgType,
    SourceRange, Span, TypeRegistrar,
};

fn dummy_span(value: &str) -> Span<String> {
    Span { span: SourceRange { offset: 0, length: 0 }, value: value.to_string() }
}

fn dummy_module_info() -> ModuleInfo {
    ModuleInfo {
        path: "test.sql".into(),
        name: "test".to_string(),
        full_module_path: "test".to_string(),
        content: String::new(),
    }
}

/// The built-in `text` type, as `postgres_types::Type::TEXT` describes it.
fn text() -> PgType {
    PgType {
        name: "text".to_string(),
        oid: 25,
        kind: PgKind::Simple,
        schema: "pg_catalog".to_string(),
        builtin: true,
    }
}

/// An unmapped domain has to be transparently resolved to its base type: this is what
/// lets an unmapped domain-typed parameter work without an explicit SQL cast, and a
/// domain-typed column read back as the base Rust type.
#[test]
fn unmapped_domain_falls_back_to_its_base_type() {
    let mut registrar = TypeRegistrar::new(Config::default());
    let domain = PgType::new(
        "my_domain".to_string(),
        100_000,
        PgKind::Domain(Box::new(text())),
        "public".to_string(),
    );

    let ty = registrar
        .register("col", &domain, &dummy_span("q"), &dummy_module_info())
        .unwrap()
        .clone();

    assert!(matches!(&*ty, CornucopiaType::Domain { .. }));
    assert_eq!(ty.own_ty(false, &GenCtx::new(ModCtx::Types, true)), "String");
    // The `Domain` wrapper is what lets the value be sent without a `::text` cast.
    assert_eq!(ty.sql_wrapped("value"), "&crate::Domain(value)");
}

/// A domain named in `types.domains` bypasses the base-type fallback entirely: the
/// mapped type is used as-is, unwrapped, so it must accept the domain itself.
#[test]
fn mapped_domain_uses_the_configured_rust_type() {
    let config = Config::builder().add_domain_mapping("iccid", "vibe_sim::Iccid").build();
    let mut registrar = TypeRegistrar::new(config);
    let domain = PgType::new(
        "iccid".to_string(),
        100_001,
        PgKind::Domain(Box::new(text())),
        "public".to_string(),
    );

    let ty = registrar
        .register("iccid", &domain, &dummy_span("q"), &dummy_module_info())
        .unwrap()
        .clone();

    assert!(matches!(&*ty, CornucopiaType::Simple { .. }));
    assert_eq!(ty.own_ty(false, &GenCtx::new(ModCtx::Types, true)), "vibe_sim::Iccid");
    assert!(!ty.is_copy());
    assert_eq!(ty.sql_wrapped("value"), "value");
}

/// Mapping one domain must not affect an unrelated, unmapped one.
#[test]
fn domain_mapping_does_not_affect_other_domains() {
    let config = Config::builder().add_domain_mapping("iccid", "vibe_sim::Iccid").build();
    let mut registrar = TypeRegistrar::new(config);
    let domain = PgType::new(
        "my_domain".to_string(),
        100_002,
        PgKind::Domain(Box::new(text())),
        "public".to_string(),
    );

    let ty = registrar
        .register("col", &domain, &dummy_span("q"), &dummy_module_info())
        .unwrap()
        .clone();

    assert!(matches!(&*ty, CornucopiaType::Domain { .. }));
}

#[test]
fn domain_row_wrapper_name_upper_camel_cases_the_domain() {
    assert_eq!(domain_row_wrapper_name("iccid"), "IccidRowValue");
    assert_eq!(domain_row_wrapper_name("sim_note"), "SimNoteRowValue");
}
