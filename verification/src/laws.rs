//! What holds of registration across calls and states.
use vstd::prelude::*;
use crate::config::{last_index_of, Config};
use crate::cornucopia_type::{
    spec_add_trait, spec_param_ergo_ty, spec_brw_ty, spec_is_copy, spec_is_params, spec_own_ty, spec_param_ty, spec_sql_wrapped,
    TypeModel,
};
use crate::gen_ctx::{decimal, GenCtx};
use crate::pg_type::{PgFieldModel, PgKindModel, PgTypeModel};
use crate::type_registrar::{
    key_of, spec_insert, spec_register, spec_register_fields, spec_resolve, Entries,
};
use crate::type_map::{index_of_key, lemma_index_of_key, lemma_index_of_key_push, TypeKey};

verus! {

/// `s` has its first entry with key `k` at `i`.
proof fn lemma_index_of_key_at(s: Entries, k: TypeKey, i: int)
    requires
        0 <= i < s.len(),
        s[i].0 == k,
        forall|j: int| 0 <= j < i ==> s[j].0 != k,
    ensures
        index_of_key(s, k) == Some(i),
    decreases s.len(),
{
    let pre = s.subrange(0, s.len() - 1);
    if i < s.len() - 1 {
        lemma_index_of_key_at(pre, k, i);
    } else {
        lemma_index_of_key(pre, k);
        if index_of_key(pre, k) is Some {
            let j = index_of_key(pre, k)->Some_0;
            assert(pre[j] == s[j]);
        }
    }
}

/// A key found in a prefix is found at the same place in the whole.
proof fn lemma_index_of_key_prefix(p: Entries, s: Entries, k: TypeKey)
    requires
        p.len() <= s.len(),
        s.subrange(0, p.len() as int) == p,
        index_of_key(p, k) is Some,
    ensures
        index_of_key(s, k) == index_of_key(p, k),
{
    lemma_index_of_key(p, k);
    let i = index_of_key(p, k)->Some_0;
    assert(s[i] == p[i]);
    assert forall|j: int| 0 <= j < i implies s[j].0 != k by {
        assert(s[j] == p[j]);
    }
    lemma_index_of_key_at(s, k, i);
}

proof fn lemma_insert_prefix(es: Entries, t: PgTypeModel, v: TypeModel)
    ensures
        spec_insert(es, t, v).1.len() >= es.len(),
        spec_insert(es, t, v).1.subrange(0, es.len() as int) == es,
{
    assert(es.push((key_of(t), v)).subrange(0, es.len() as int) =~= es);
}

proof fn lemma_insert_finds(es: Entries, t: PgTypeModel, v: TypeModel)
    ensures
        spec_insert(es, t, v).0 is Ok,
        index_of_key(spec_insert(es, t, v).1, key_of(t)) matches Some(i) && 0 <= i < spec_insert(
            es,
            t,
            v,
        ).1.len() && spec_insert(es, t, v).1[i].1 == spec_insert(es, t, v).0->Ok_0,
{
    lemma_index_of_key(es, key_of(t));
    lemma_index_of_key_push(es, (key_of(t), v), key_of(t));
}

proof fn lemma_prefix_trans(a: Entries, b: Entries, c: Entries)
    requires
        a.len() <= b.len(),
        b.subrange(0, a.len() as int) == a,
        b.len() <= c.len(),
        c.subrange(0, b.len() as int) == b,
    ensures
        a.len() <= c.len(),
        c.subrange(0, a.len() as int) == a,
{
    assert(c.subrange(0, a.len() as int) =~= b.subrange(0, a.len() as int));
}

proof fn lemma_register_prefix(cfg: Config, es: Entries, t: PgTypeModel)
    ensures
        spec_register(cfg, es, t).1.len() >= es.len(),
        spec_register(cfg, es, t).1.subrange(0, es.len() as int) == es,
    decreases t, 2int,
{
    assert(es.subrange(0, es.len() as int) =~= es);
    match index_of_key(es, key_of(t)) {
        Some(i) => {},
        None => match crate::type_registrar::mapped_type(cfg, t) {
            Some(v) => lemma_insert_prefix(es, t, v),
            None => lemma_resolve_prefix(cfg, es, t, true, true),
        },
    }
}

proof fn lemma_resolve_prefix(cfg: Config, es: Entries, t: PgTypeModel, dc: bool, dp: bool)
    ensures
        spec_resolve(cfg, es, t, dc, dp).1.len() >= es.len(),
        spec_resolve(cfg, es, t, dc, dp).1.subrange(0, es.len() as int) == es,
    decreases t, 1int,
{
    assert(es.subrange(0, es.len() as int) =~= es);
    match t.kind {
        PgKindModel::Enum(_) => lemma_insert_prefix(es, t, crate::type_registrar::custom_model(t, true, true)),
        PgKindModel::Array(inner) => {
            lemma_register_prefix(cfg, es, *inner);
            let (r, es2) = spec_register(cfg, es, *inner);
            if let Ok(v) = r {
                lemma_insert_prefix(es2, t, TypeModel::Array { inner: Box::new(v) });
                lemma_prefix_trans(es, es2, spec_resolve(cfg, es, t, dc, dp).1);
            }
        },
        PgKindModel::Domain(inner) => {
            lemma_register_prefix(cfg, es, *inner);
            let (r, es2) = spec_register(cfg, es, *inner);
            if let Ok(v) = r {
                lemma_insert_prefix(es2, t, TypeModel::Domain { pg_ty: t, inner: Box::new(v) });
                lemma_prefix_trans(es, es2, spec_resolve(cfg, es, t, dc, dp).1);
            }
        },
        PgKindModel::Composite(fields) => {
            lemma_fields_prefix(cfg, es, fields, dc, dp);
            let (r, es2) = spec_register_fields(cfg, es, fields, dc, dp);
            if let Ok((c, p)) = r {
                lemma_insert_prefix(es2, t, crate::type_registrar::custom_model(t, c, p));
                lemma_prefix_trans(es, es2, spec_resolve(cfg, es, t, dc, dp).1);
            }
        },
        PgKindModel::Simple => {
            if let Some((n, c)) = crate::type_registrar::builtin_rust_type(t) {
                lemma_insert_prefix(
                    es,
                    t,
                    TypeModel::Simple { pg_ty: t, rust_name: n, borrowed_name: None, is_copy: c },
                );
            }
        },
        _ => {},
    }
}

proof fn lemma_fields_prefix(
    cfg: Config,
    es: Entries,
    fields: Seq<crate::pg_type::PgFieldModel>,
    c: bool,
    p: bool,
)
    ensures
        spec_register_fields(cfg, es, fields, c, p).1.len() >= es.len(),
        spec_register_fields(cfg, es, fields, c, p).1.subrange(0, es.len() as int) == es,
    decreases fields, 0int,
{
    assert(es.subrange(0, es.len() as int) =~= es);
    if fields.len() > 0 {
        lemma_register_prefix(cfg, es, fields[0].ty);
        let (r, es2) = spec_register(cfg, es, fields[0].ty);
        if let Ok(v) = r {
            let rest = fields.subrange(1, fields.len() as int);
            lemma_fields_prefix(cfg, es2, rest, c && spec_is_copy(v), p && spec_is_params(v));
            lemma_prefix_trans(es, es2, spec_register_fields(cfg, es, fields, c, p).1);
        }
    }
}

/// Registration only adds: every type registered before stays, at its place and
/// unchanged, whatever the registration gives.
pub proof fn law_register_keeps_registered(cfg: Config, es: Entries, t: PgTypeModel)
    ensures
        spec_register(cfg, es, t).1.len() >= es.len(),
        spec_register(cfg, es, t).1.subrange(0, es.len() as int) == es,
        forall|k: TypeKey|
            #[trigger] index_of_key(es, k) is Some ==> index_of_key(spec_register(cfg, es, t).1, k)
                == index_of_key(es, k),
{
    lemma_register_prefix(cfg, es, t);
    assert forall|k: TypeKey| #[trigger] index_of_key(es, k) is Some implies index_of_key(
        spec_register(cfg, es, t).1,
        k,
    ) == index_of_key(es, k) by {
        lemma_index_of_key_prefix(es, spec_register(cfg, es, t).1, k);
    }
}

/// After a successful registration, the type is registered, under its key, as the
/// Rust type that the registration returned (what `ref_of` and `registrar[&ty]` give).
pub proof fn law_registered_after_register(cfg: Config, es: Entries, t: PgTypeModel)
    requires
        spec_register(cfg, es, t).0 is Ok,
    ensures
        index_of_key(spec_register(cfg, es, t).1, key_of(t)) matches Some(i) && 0 <= i
            < spec_register(cfg, es, t).1.len() && spec_register(cfg, es, t).1[i].1 == spec_register(
            cfg,
            es,
            t,
        ).0->Ok_0,
{
    lemma_index_of_key(es, key_of(t));
    match index_of_key(es, key_of(t)) {
        Some(i) => {},
        None => match crate::type_registrar::mapped_type(cfg, t) {
            Some(v) => lemma_insert_finds(es, t, v),
            None => {
                let dc = true;
                let dp = true;
                match t.kind {
                    PgKindModel::Enum(_) => lemma_insert_finds(
                        es,
                        t,
                        crate::type_registrar::custom_model(t, true, true),
                    ),
                    PgKindModel::Array(inner) => {
                        let (r, es2) = spec_register(cfg, es, *inner);
                        lemma_insert_finds(es2, t, TypeModel::Array { inner: Box::new(r->Ok_0) });
                    },
                    PgKindModel::Domain(inner) => {
                        let (r, es2) = spec_register(cfg, es, *inner);
                        lemma_insert_finds(
                            es2,
                            t,
                            TypeModel::Domain { pg_ty: t, inner: Box::new(r->Ok_0) },
                        );
                    },
                    PgKindModel::Composite(fields) => {
                        let (r, es2) = spec_register_fields(cfg, es, fields, dc, dp);
                        let (c, p) = r->Ok_0;
                        lemma_insert_finds(es2, t, crate::type_registrar::custom_model(t, c, p));
                    },
                    PgKindModel::Simple => {
                        let (n, c) = crate::type_registrar::builtin_rust_type(t)->Some_0;
                        lemma_insert_finds(
                            es,
                            t,
                            TypeModel::Simple {
                                pg_ty: t,
                                rust_name: n,
                                borrowed_name: None,
                                is_copy: c,
                            },
                        );
                    },
                    _ => {},
                }
            },
        },
    }
}

/// Registering a type a second time gives what the first registration gave and
/// changes nothing.
pub proof fn law_register_idempotent(cfg: Config, es: Entries, t: PgTypeModel)
    requires
        spec_register(cfg, es, t).0 is Ok,
    ensures
        spec_register(cfg, spec_register(cfg, es, t).1, t) == spec_register(cfg, es, t),
{
    law_registered_after_register(cfg, es, t);
}

/// An unmapped domain is resolved transparently to its base type: it registers as a
/// domain wrapping whatever its base registers as, and fails where its base fails.
/// (This holds unless registering the base registers the domain's own key first.)
pub proof fn law_unmapped_domain_falls_back(cfg: Config, es: Entries, t: PgTypeModel)
    requires
        t.kind is Domain,
        index_of_key(es, key_of(t)) is None,
        cfg.spec_type_mapping(t) is None,
        cfg.spec_domain_mapping(t.name) is None,
        index_of_key(spec_register(cfg, es, *t.kind->Domain_0).1, key_of(t)) is None,
    ensures
        spec_register(cfg, es, t).0 == match spec_register(cfg, es, *t.kind->Domain_0).0 {
            Ok(base) => Ok(TypeModel::Domain { pg_ty: t, inner: Box::new(base) }),
            Err(bad) => Err::<TypeModel, PgTypeModel>(bad),
        },
{
}

/// A domain reads and is written as its inner type: its owned and borrowed types
/// are those of its inner type, it is `Copy` and usable as a parameter where its
/// inner type is, and as a parameter it is wrapped in `crate::Domain` so that it
/// needs no cast.
pub proof fn law_domain_is_transparent(
    t: TypeModel,
    name: Seq<char>,
    is_inner_nullable: bool,
    has_lifetime: bool,
    ctx: GenCtx,
)
    requires
        t is Domain,
    ensures
        spec_own_ty(t, is_inner_nullable, ctx) == spec_own_ty(*t->Domain_inner, false, ctx),
        spec_brw_ty(t, is_inner_nullable, has_lifetime, ctx) == spec_brw_ty(
            *t->Domain_inner,
            false,
            has_lifetime,
            ctx,
        ),
        spec_param_ty(t, is_inner_nullable, ctx) == spec_param_ty(*t->Domain_inner, false, ctx),
        spec_is_copy(t) == spec_is_copy(*t->Domain_inner),
        spec_is_params(t) == spec_is_params(*t->Domain_inner),
        spec_sql_wrapped(t, name) == "&crate::Domain("@ + spec_sql_wrapped(*t->Domain_inner, name)
            + ")"@,
{
}

/// A domain named in `types.domains` bypasses the base-type fallback entirely: the
/// mapped type is used as it is, not `Copy`, unwrapped as a parameter.
pub proof fn law_mapped_domain_used_as_is(
    cfg: Config,
    es: Entries,
    t: PgTypeModel,
    name: Seq<char>,
    is_inner_nullable: bool,
    ctx: GenCtx,
)
    requires
        t.kind is Domain,
        index_of_key(es, key_of(t)) is None,
        cfg.spec_type_mapping(t) is None,
        cfg.spec_domain_mapping(t.name) is Some,
    ensures
        spec_register(cfg, es, t).0 == Ok::<TypeModel, PgTypeModel>(
            TypeModel::Simple {
                pg_ty: t,
                rust_name: cfg.spec_domain_mapping(t.name)->Some_0,
                borrowed_name: None,
                is_copy: false,
            },
        ),
        spec_register(cfg, es, t).1 == es.push((key_of(t), spec_register(cfg, es, t).0->Ok_0)),
        spec_own_ty(spec_register(cfg, es, t).0->Ok_0, is_inner_nullable, ctx)
            == cfg.spec_domain_mapping(t.name)->Some_0,
        !spec_is_copy(spec_register(cfg, es, t).0->Ok_0),
        spec_sql_wrapped(spec_register(cfg, es, t).0->Ok_0, name) == name,
{
}

/// A `types.mapping` entry for a type's `schema.name` takes precedence over the
/// built-in table and over resolution by kind.
pub proof fn law_type_mapping_takes_precedence(cfg: Config, es: Entries, t: PgTypeModel)
    requires
        index_of_key(es, key_of(t)) is None,
        cfg.spec_type_mapping(t) is Some,
    ensures
        spec_register(cfg, es, t).0 == Ok::<TypeModel, PgTypeModel>(
            crate::type_registrar::mapped_type(cfg, t)->Some_0,
        ),
        spec_register(cfg, es, t).0->Ok_0 is Simple,
{
}

/// An array is supported exactly when its element type is.
pub proof fn law_array_supported_iff_element(cfg: Config, es: Entries, t: PgTypeModel)
    requires
        t.kind is Array,
        index_of_key(es, key_of(t)) is None,
        cfg.spec_type_mapping(t) is None,
    ensures
        (spec_register(cfg, es, t).0 is Ok) == (spec_register(cfg, es, *t.kind->Array_0).0 is Ok),
{
}

/// After a domain mapping is added, the domain maps to the added Rust type.
pub proof fn law_domain_mapping_after_add(before: Config, after: Config, name: String, rust_type: String)
    requires
        after.types.domains@ == before.types.domains@.push((name, rust_type)),
    ensures
        after.spec_domain_mapping(name@) == Some(rust_type@),
{
}


/// The type that an array or a domain wraps, if `t` is one.
pub open spec fn wrapped(t: TypeModel) -> Option<TypeModel> {
    match t {
        TypeModel::Array { inner } => Some(*inner),
        TypeModel::Domain { inner, .. } => Some(*inner),
        _ => None,
    }
}

/// Every array or domain among the entries wraps a type registered at an earlier
/// index: what a type depends on is registered before it.
pub open spec fn dependencies_registered_before(es: Entries) -> bool {
    forall|i: int|
        0 <= i < es.len() && #[trigger] wrapped(es[i].1) is Some ==> exists|j: int|
            0 <= j < i && es[j].1 == wrapped(es[i].1)->Some_0
}

proof fn lemma_deps_prefix(es: Entries, es2: Entries)
    requires
        dependencies_registered_before(es2),
        es.len() <= es2.len(),
        es2.subrange(0, es.len() as int) == es,
    ensures
        dependencies_registered_before(es),
{
    assert forall|i: int| 0 <= i < es.len() && #[trigger] wrapped(es[i].1) is Some implies exists|
        j: int,
    | 0 <= j < i && es[j].1 == wrapped(es[i].1)->Some_0 by {
        assert(es[i] == es2[i]);
        let j = choose|j: int| 0 <= j < i && es2[j].1 == wrapped(es2[i].1)->Some_0;
        assert(es[j] == es2[j]);
    }
}

/// Inserting keeps the order of dependencies when what `v` wraps is registered.
proof fn lemma_deps_insert(es: Entries, t: PgTypeModel, v: TypeModel)
    requires
        dependencies_registered_before(es),
        wrapped(v) is Some ==> exists|j: int| 0 <= j < es.len() && es[j].1 == wrapped(v)->Some_0,
    ensures
        dependencies_registered_before(spec_insert(es, t, v).1),
{
    let es2 = es.push((key_of(t), v));
    assert forall|i: int| 0 <= i < es2.len() && #[trigger] wrapped(es2[i].1) is Some implies exists|
        j: int,
    | 0 <= j < i && es2[j].1 == wrapped(es2[i].1)->Some_0 by {
        if i < es.len() {
            assert(es2[i] == es[i]);
            let j = choose|j: int| 0 <= j < i && es[j].1 == wrapped(es[i].1)->Some_0;
            assert(es2[j] == es[j]);
        } else {
            let j = choose|j: int| 0 <= j < es.len() && es[j].1 == wrapped(v)->Some_0;
            assert(es2[j] == es[j]);
        }
    }
}

proof fn lemma_register_deps(cfg: Config, es: Entries, t: PgTypeModel)
    requires
        dependencies_registered_before(es),
    ensures
        dependencies_registered_before(spec_register(cfg, es, t).1),
    decreases t, 2int,
{
    match index_of_key(es, key_of(t)) {
        Some(i) => {},
        None => match crate::type_registrar::mapped_type(cfg, t) {
            Some(v) => lemma_deps_insert(es, t, v),
            None => lemma_resolve_deps(cfg, es, t, true, true),
        },
    }
}

proof fn lemma_resolve_deps(cfg: Config, es: Entries, t: PgTypeModel, dc: bool, dp: bool)
    requires
        dependencies_registered_before(es),
    ensures
        dependencies_registered_before(spec_resolve(cfg, es, t, dc, dp).1),
    decreases t, 1int,
{
    match t.kind {
        PgKindModel::Enum(_) => lemma_deps_insert(
            es,
            t,
            crate::type_registrar::custom_model(t, true, true),
        ),
        PgKindModel::Array(inner) => {
            lemma_register_deps(cfg, es, *inner);
            let (r, es2) = spec_register(cfg, es, *inner);
            if let Ok(v) = r {
                law_registered_after_register(cfg, es, *inner);
                lemma_deps_insert(es2, t, TypeModel::Array { inner: Box::new(v) });
            }
        },
        PgKindModel::Domain(inner) => {
            lemma_register_deps(cfg, es, *inner);
            let (r, es2) = spec_register(cfg, es, *inner);
            if let Ok(v) = r {
                law_registered_after_register(cfg, es, *inner);
                lemma_deps_insert(es2, t, TypeModel::Domain { pg_ty: t, inner: Box::new(v) });
            }
        },
        PgKindModel::Composite(fields) => {
            lemma_fields_deps(cfg, es, fields, dc, dp);
            let (r, es2) = spec_register_fields(cfg, es, fields, dc, dp);
            if let Ok((c, p)) = r {
                lemma_deps_insert(es2, t, crate::type_registrar::custom_model(t, c, p));
            }
        },
        PgKindModel::Simple => {
            if let Some((n, c)) = crate::type_registrar::builtin_rust_type(t) {
                lemma_deps_insert(
                    es,
                    t,
                    TypeModel::Simple { pg_ty: t, rust_name: n, borrowed_name: None, is_copy: c },
                );
            }
        },
        _ => {},
    }
}

proof fn lemma_fields_deps(cfg: Config, es: Entries, fields: Seq<PgFieldModel>, c: bool, p: bool)
    requires
        dependencies_registered_before(es),
    ensures
        dependencies_registered_before(spec_register_fields(cfg, es, fields, c, p).1),
    decreases fields, 0int,
{
    if fields.len() > 0 {
        lemma_register_deps(cfg, es, fields[0].ty);
        let (r, es2) = spec_register(cfg, es, fields[0].ty);
        if let Ok(v) = r {
            let rest = fields.subrange(1, fields.len() as int);
            lemma_fields_deps(cfg, es2, rest, c && spec_is_copy(v), p && spec_is_params(v));
        }
    }
}

/// What a type depends on is registered before it: from no registered types, after
/// any registrations, successful or not, every array or domain among the registered
/// types wraps a type registered at an earlier index. Each registration keeps this.
pub proof fn law_dependencies_registered_before(cfg: Config, es: Entries, t: PgTypeModel)
    requires
        dependencies_registered_before(es),
    ensures
        dependencies_registered_before(Seq::<(TypeKey, TypeModel)>::empty()),
        dependencies_registered_before(spec_register(cfg, es, t).1),
{
    lemma_register_deps(cfg, es, t);
}

/// `param_ergo_ty` only appends to the trait bounds. Where it appends one, the result
/// is the generic parameter bound by the last bound appended; where it appends none,
/// the result is `param_ty`.
pub proof fn law_param_ergo_ty(t: TypeModel, is_inner_nullable: bool, traits: Seq<Seq<char>>, ctx: GenCtx)
    ensures
        ({
            let (res, after) = spec_param_ergo_ty(t, is_inner_nullable, traits, ctx);
            &&& after.len() >= traits.len()
            &&& after.subrange(0, traits.len() as int) == traits
            &&& after.len() == traits.len() ==> res == spec_param_ty(t, is_inner_nullable, ctx)
            &&& after.len() > traits.len() ==> res == "T"@ + decimal(after.len())
        }),
{
    lemma_param_ergo_ty(t, is_inner_nullable, traits, ctx);
}

proof fn lemma_param_ergo_ty(t: TypeModel, n: bool, traits: Seq<Seq<char>>, ctx: GenCtx)
    ensures
        ({
            let (res, after) = spec_param_ergo_ty(t, n, traits, ctx);
            &&& after.len() >= traits.len()
            &&& after.subrange(0, traits.len() as int) == traits
            &&& after.len() == traits.len() ==> res == spec_param_ty(t, n, ctx)
                && spec_param_ty(t, n, ctx) == spec_param_ty(t, false, ctx)
            &&& after.len() > traits.len() ==> res == "T"@ + decimal(after.len())
        }),
    decreases t,
{
    assert(traits.subrange(0, traits.len() as int) =~= traits);
    match t {
        TypeModel::Array { inner } => {
            lemma_param_ergo_ty(*inner, n, traits, ctx);
            let (elem, tr) = spec_param_ergo_ty(*inner, n, traits, ctx);
            let bound = "crate::ArraySql<Item = "@ + crate::cornucopia_type::spec_optional(elem, n)
                + ">"@;
            assert(tr.push(bound).subrange(0, traits.len() as int) =~= tr.subrange(
                0,
                traits.len() as int,
            ));
        },
        TypeModel::Domain { inner, .. } => {
            lemma_param_ergo_ty(*inner, n, traits, ctx);
        },
        TypeModel::Simple { .. } => {
            assert(traits.push("crate::BytesSql"@).subrange(0, traits.len() as int) =~= traits);
            assert(traits.push("crate::StringSql"@).subrange(0, traits.len() as int) =~= traits);
            assert(traits.push("crate::JsonSql"@).subrange(0, traits.len() as int) =~= traits);
        },
        TypeModel::Custom { .. } => {},
    }
}

/// `insert` keeps a registered type as it stands; else it appends the new one last.
pub proof fn law_insert(es: Entries, t: PgTypeModel, v: TypeModel)
    ensures
        index_of_key(es, key_of(t)) matches Some(i) ==> spec_insert(es, t, v) == (
            Ok::<TypeModel, PgTypeModel>(es[i].1),
            es,
        ),
        index_of_key(es, key_of(t)) is None ==> spec_insert(es, t, v) == (
            Ok::<TypeModel, PgTypeModel>(v),
            es.push((key_of(t), v)),
        ) && index_of_key(spec_insert(es, t, v).1, key_of(t)) == Some(es.len() as int),
{
    lemma_index_of_key_push(es, (key_of(t), v), key_of(t));
}


/// The keys of `t` and of every type registration reaches through it.
pub open spec fn all_keys(t: PgTypeModel) -> Set<TypeKey>
    decreases t, 1int,
{
    part_keys(t).insert(key_of(t))
}

/// The keys of the types that registering `t` registers first: what an array or a
/// domain wraps, the fields of a composite, and all they are made of.
pub open spec fn part_keys(t: PgTypeModel) -> Set<TypeKey>
    decreases t, 0int,
{
    match t.kind {
        PgKindModel::Array(inner) => all_keys(*inner),
        PgKindModel::Domain(inner) => all_keys(*inner),
        PgKindModel::Composite(fields) => fields_keys(fields),
        _ => Set::empty(),
    }
}

/// The keys of the fields' types and all they are made of.
pub open spec fn fields_keys(fields: Seq<PgFieldModel>) -> Set<TypeKey>
    decreases fields, 2int,
{
    if fields.len() == 0 {
        Set::empty()
    } else {
        all_keys(fields[0].ty).union(fields_keys(fields.subrange(1, fields.len() as int)))
    }
}

/// The entries of `es2` past `es` all have keys in `keys`.
pub open spec fn added_keys_within(es: Entries, es2: Entries, keys: Set<TypeKey>) -> bool {
    forall|i: int| es.len() <= i < es2.len() ==> keys.contains(#[trigger] es2[i].0)
}

proof fn lemma_added_trans(a: Entries, b: Entries, c: Entries, k1: Set<TypeKey>, k2: Set<TypeKey>, k: Set<TypeKey>)
    requires
        a.len() <= b.len(),
        b.len() <= c.len(),
        c.subrange(0, b.len() as int) == b,
        added_keys_within(a, b, k1),
        added_keys_within(b, c, k2),
        k1.subset_of(k),
        k2.subset_of(k),
    ensures
        added_keys_within(a, c, k),
{
    assert forall|i: int| a.len() <= i < c.len() implies k.contains(#[trigger] c[i].0) by {
        if i < b.len() {
            assert(c[i] == c.subrange(0, b.len() as int)[i]);
            assert(k1.contains(b[i].0));
        } else {
            assert(k2.contains(c[i].0));
        }
    }
}

proof fn lemma_insert_added(es: Entries, t: PgTypeModel, v: TypeModel)
    ensures
        added_keys_within(es, spec_insert(es, t, v).1, set![key_of(t)]),
        spec_insert(es, t, v).1.len() >= es.len(),
{
}

proof fn lemma_register_added(cfg: Config, es: Entries, t: PgTypeModel)
    ensures
        added_keys_within(es, spec_register(cfg, es, t).1, all_keys(t)),
        spec_register(cfg, es, t).0 is Err ==> added_keys_within(
            es,
            spec_register(cfg, es, t).1,
            part_keys(t),
        ),
    decreases t, 2int,
{
    lemma_register_prefix(cfg, es, t);
    match index_of_key(es, key_of(t)) {
        Some(i) => {},
        None => match crate::type_registrar::mapped_type(cfg, t) {
            Some(v) => lemma_insert_added(es, t, v),
            None => lemma_resolve_added(cfg, es, t, true, true),
        },
    }
}

proof fn lemma_resolve_added(cfg: Config, es: Entries, t: PgTypeModel, dc: bool, dp: bool)
    ensures
        added_keys_within(es, spec_resolve(cfg, es, t, dc, dp).1, all_keys(t)),
        spec_resolve(cfg, es, t, dc, dp).0 is Err ==> added_keys_within(
            es,
            spec_resolve(cfg, es, t, dc, dp).1,
            part_keys(t),
        ),
    decreases t, 1int,
{
    lemma_resolve_prefix(cfg, es, t, dc, dp);
    let ks = all_keys(t);
    assert(set![key_of(t)].subset_of(ks));
    assert(part_keys(t).subset_of(ks));
    match t.kind {
        PgKindModel::Enum(_) => lemma_insert_added(es, t, crate::type_registrar::custom_model(t, true, true)),
        PgKindModel::Array(inner) => {
            lemma_register_added(cfg, es, *inner);
            lemma_register_prefix(cfg, es, *inner);
            let (r, es2) = spec_register(cfg, es, *inner);
            if let Ok(v) = r {
                let v2 = TypeModel::Array { inner: Box::new(v) };
                lemma_insert_added(es2, t, v2);
                lemma_insert_prefix(es2, t, v2);
                lemma_added_trans(es, es2, spec_insert(es2, t, v2).1, part_keys(t), set![key_of(t)], ks);
            }
        },
        PgKindModel::Domain(inner) => {
            lemma_register_added(cfg, es, *inner);
            lemma_register_prefix(cfg, es, *inner);
            let (r, es2) = spec_register(cfg, es, *inner);
            if let Ok(v) = r {
                let v2 = TypeModel::Domain { pg_ty: t, inner: Box::new(v) };
                lemma_insert_added(es2, t, v2);
                lemma_insert_prefix(es2, t, v2);
                lemma_added_trans(es, es2, spec_insert(es2, t, v2).1, part_keys(t), set![key_of(t)], ks);
            }
        },
        PgKindModel::Composite(fields) => {
            lemma_fields_added(cfg, es, fields, dc, dp);
            lemma_fields_prefix(cfg, es, fields, dc, dp);
            let (r, es2) = spec_register_fields(cfg, es, fields, dc, dp);
            if let Ok((c, p)) = r {
                let v2 = crate::type_registrar::custom_model(t, c, p);
                lemma_insert_added(es2, t, v2);
                lemma_insert_prefix(es2, t, v2);
                lemma_added_trans(es, es2, spec_insert(es2, t, v2).1, part_keys(t), set![key_of(t)], ks);
            }
        },
        PgKindModel::Simple => {
            if let Some((n, c)) = crate::type_registrar::builtin_rust_type(t) {
                lemma_insert_added(
                    es,
                    t,
                    TypeModel::Simple { pg_ty: t, rust_name: n, borrowed_name: None, is_copy: c },
                );
            }
        },
        _ => {},
    }
}

proof fn lemma_fields_added(cfg: Config, es: Entries, fields: Seq<PgFieldModel>, c: bool, p: bool)
    ensures
        added_keys_within(es, spec_register_fields(cfg, es, fields, c, p).1, fields_keys(fields)),
    decreases fields, 0int,
{
    lemma_fields_prefix(cfg, es, fields, c, p);
    if fields.len() > 0 {
        lemma_register_added(cfg, es, fields[0].ty);
        lemma_register_prefix(cfg, es, fields[0].ty);
        let rest = fields.subrange(1, fields.len() as int);
        let (r, es2) = spec_register(cfg, es, fields[0].ty);
        let ks = fields_keys(fields);
        assert(all_keys(fields[0].ty).subset_of(ks));
        assert(fields_keys(rest).subset_of(ks));
        if let Ok(v) = r {
            lemma_fields_added(cfg, es2, rest, c && spec_is_copy(v), p && spec_is_params(v));
            lemma_fields_prefix(cfg, es2, rest, c && spec_is_copy(v), p && spec_is_params(v));
            lemma_added_trans(
                es,
                es2,
                spec_register_fields(cfg, es, fields, c, p).1,
                all_keys(fields[0].ty),
                fields_keys(rest),
                ks,
            );
        } else {
            assert forall|i: int| es.len() <= i < es2.len() implies ks.contains(#[trigger] es2[i].0) by {
                assert(all_keys(fields[0].ty).contains(es2[i].0));
            }
        }
    }
}

/// A failed registration leaves the type's own key unregistered, unless one of the
/// types it is made of has that same key.
pub proof fn law_failed_register_leaves_key_out(cfg: Config, es: Entries, t: PgTypeModel)
    requires
        index_of_key(es, key_of(t)) is None,
        spec_register(cfg, es, t).0 is Err,
        !part_keys(t).contains(key_of(t)),
    ensures
        index_of_key(spec_register(cfg, es, t).1, key_of(t)) is None,
{
    lemma_register_added(cfg, es, t);
    lemma_register_prefix(cfg, es, t);
    let es2 = spec_register(cfg, es, t).1;
    lemma_index_of_key(es, key_of(t));
    lemma_index_of_key(es2, key_of(t));
    if index_of_key(es2, key_of(t)) is Some {
        let i = index_of_key(es2, key_of(t))->Some_0;
        if i < es.len() {
            assert(es2[i] == es[i]);
        } else {
            assert(part_keys(t).contains(es2[i].0));
        }
    }
}


/// The type registered under `k` (the first entry with that key).
pub open spec fn registered_value(es: Entries, k: TypeKey) -> TypeModel {
    es[index_of_key(es, k)->Some_0].1
}

/// Every field's type is registered in `es`.
pub open spec fn fields_registered(es: Entries, fields: Seq<PgFieldModel>) -> bool {
    forall|i: int| 0 <= i < fields.len() ==> #[trigger] index_of_key(es, key_of(fields[i].ty)) is Some
}

/// Every field's type is registered in `es` as a `Copy` type.
pub open spec fn fields_all_copy(es: Entries, fields: Seq<PgFieldModel>) -> bool {
    forall|i: int|
        0 <= i < fields.len() ==> #[trigger] spec_is_copy(
            registered_value(es, key_of(fields[i].ty)),
        )
}

/// Every field's type is registered in `es` as a type usable as a parameter.
pub open spec fn fields_all_params(es: Entries, fields: Seq<PgFieldModel>) -> bool {
    forall|i: int|
        0 <= i < fields.len() ==> #[trigger] spec_is_params(
            registered_value(es, key_of(fields[i].ty)),
        )
}

/// Registered values stay as they are when entries are appended.
proof fn lemma_fields_facts_prefix(p: Entries, s: Entries, fields: Seq<PgFieldModel>)
    requires
        p.len() <= s.len(),
        s.subrange(0, p.len() as int) == p,
        fields_registered(p, fields),
    ensures
        fields_registered(s, fields),
        fields_all_copy(s, fields) == fields_all_copy(p, fields),
        fields_all_params(s, fields) == fields_all_params(p, fields),
{
    assert forall|i: int| 0 <= i < fields.len() implies index_of_key(s, key_of(fields[i].ty))
        == index_of_key(p, key_of(fields[i].ty)) && registered_value(s, key_of(fields[i].ty))
        == registered_value(p, key_of(fields[i].ty)) by {
        let k = key_of(fields[i].ty);
        assert(index_of_key(p, k) is Some);
        lemma_index_of_key_prefix(p, s, k);
        lemma_index_of_key(p, k);
        let j = index_of_key(p, k)->Some_0;
        assert(s[j] == s.subrange(0, p.len() as int)[j]);
    }
}

proof fn lemma_fields_copy(cfg: Config, es: Entries, fields: Seq<PgFieldModel>, c: bool, p: bool)
    requires
        spec_register_fields(cfg, es, fields, c, p).0 is Ok,
    ensures
        ({
            let (r, es2) = spec_register_fields(cfg, es, fields, c, p);
            &&& fields_registered(es2, fields)
            &&& r->Ok_0.0 == (c && fields_all_copy(es2, fields))
            &&& r->Ok_0.1 == (p && fields_all_params(es2, fields))
        }),
    decreases fields.len(),
{
    if fields.len() > 0 {
        let f0 = fields[0].ty;
        let (r0, es1) = spec_register(cfg, es, f0);
        let v = r0->Ok_0;
        law_registered_after_register(cfg, es, f0);
        let rest = fields.subrange(1, fields.len() as int);
        let c1 = c && spec_is_copy(v);
        let p1 = p && spec_is_params(v);
        lemma_fields_copy(cfg, es1, rest, c1, p1);
        lemma_fields_prefix(cfg, es1, rest, c1, p1);
        let es2 = spec_register_fields(cfg, es1, rest, c1, p1).1;
        let k0 = key_of(f0);
        lemma_index_of_key_prefix(es1, es2, k0);
        let i0 = index_of_key(es1, k0)->Some_0;
        assert(es2[i0] == es2.subrange(0, es1.len() as int)[i0]);
        assert(registered_value(es2, k0) == v);
        assert forall|i: int| 0 <= i < fields.len() implies #[trigger] index_of_key(
            es2,
            key_of(fields[i].ty),
        ) is Some by {
            if i > 0 {
                assert(fields[i] == rest[i - 1]);
            }
        }
        assert(fields_all_copy(es2, fields) == (spec_is_copy(v) && fields_all_copy(es2, rest))) by {
            if fields_all_copy(es2, fields) {
                assert(spec_is_copy(registered_value(es2, key_of(fields[0].ty))));
                assert forall|i: int| 0 <= i < rest.len() implies #[trigger] spec_is_copy(
                    registered_value(es2, key_of(rest[i].ty)),
                ) by {
                    assert(rest[i] == fields[i + 1]);
                }
            }
            if spec_is_copy(v) && fields_all_copy(es2, rest) {
                assert forall|i: int| 0 <= i < fields.len() implies #[trigger] spec_is_copy(
                    registered_value(es2, key_of(fields[i].ty)),
                ) by {
                    if i > 0 {
                        assert(fields[i] == rest[i - 1]);
                    }
                }
            }
        }
        assert(fields_all_params(es2, fields) == (spec_is_params(v) && fields_all_params(es2, rest))) by {
            if fields_all_params(es2, fields) {
                assert(spec_is_params(registered_value(es2, key_of(fields[0].ty))));
                assert forall|i: int| 0 <= i < rest.len() implies #[trigger] spec_is_params(
                    registered_value(es2, key_of(rest[i].ty)),
                ) by {
                    assert(rest[i] == fields[i + 1]);
                }
            }
            if spec_is_params(v) && fields_all_params(es2, rest) {
                assert forall|i: int| 0 <= i < fields.len() implies #[trigger] spec_is_params(
                    registered_value(es2, key_of(fields[i].ty)),
                ) by {
                    if i > 0 {
                        assert(fields[i] == rest[i - 1]);
                    }
                }
            }
        }
    }
}

/// An unmapped composite registered anew is a generated struct, named after the
/// composite in UpperCamelCase, that is `Copy` exactly when every one of its fields is
/// registered as a `Copy` type, and usable as a parameter exactly when every field
/// is. (This holds unless one of the types the composite is made of has the
/// composite's own key.)
pub proof fn law_composite_copy_iff_fields(cfg: Config, es: Entries, t: PgTypeModel)
    requires
        t.kind is Composite,
        index_of_key(es, key_of(t)) is None,
        cfg.spec_type_mapping(t) is None,
        !part_keys(t).contains(key_of(t)),
        spec_register(cfg, es, t).0 is Ok,
    ensures
        ({
            let (r, es2) = spec_register(cfg, es, t);
            let fields = t.kind->Composite_0;
            &&& fields_registered(es2, fields)
            &&& r->Ok_0 == TypeModel::Custom {
                pg_ty: t,
                struct_name: crate::naming::upper_camel_case(t.name),
                is_copy: fields_all_copy(es2, fields),
                is_params: fields_all_params(es2, fields),
            }
        }),
{
    let fields = t.kind->Composite_0;
    let (rf, esf) = spec_register_fields(cfg, es, fields, true, true);
    lemma_fields_copy(cfg, es, fields, true, true);
    lemma_fields_added(cfg, es, fields, true, true);
    lemma_fields_prefix(cfg, es, fields, true, true);
    lemma_index_of_key(es, key_of(t));
    lemma_index_of_key(esf, key_of(t));
    if index_of_key(esf, key_of(t)) is Some {
        let i = index_of_key(esf, key_of(t))->Some_0;
        if i < es.len() {
            assert(esf[i] == esf.subrange(0, es.len() as int)[i]);
        } else {
            assert(fields_keys(fields).contains(esf[i].0));
        }
    }
    let (c, p) = rf->Ok_0;
    let v = crate::type_registrar::custom_model(t, c, p);
    let es2 = esf.push((key_of(t), v));
    assert(es2.subrange(0, esf.len() as int) =~= esf);
    lemma_fields_facts_prefix(esf, es2, fields);
}


/// The Rust types of the server's built-in simple types, by OID.
pub proof fn law_builtin_type_table(t: PgTypeModel)
    requires
        t.builtin,
    ensures
        t.oid == 16 ==> crate::type_registrar::builtin_rust_type(t) == Some(("bool"@, true)),
        t.oid == 18 ==> crate::type_registrar::builtin_rust_type(t) == Some(("i8"@, true)),
        t.oid == 21 ==> crate::type_registrar::builtin_rust_type(t) == Some(("i16"@, true)),
        t.oid == 23 ==> crate::type_registrar::builtin_rust_type(t) == Some(("i32"@, true)),
        t.oid == 20 ==> crate::type_registrar::builtin_rust_type(t) == Some(("i64"@, true)),
        t.oid == 700 ==> crate::type_registrar::builtin_rust_type(t) == Some(("f32"@, true)),
        t.oid == 701 ==> crate::type_registrar::builtin_rust_type(t) == Some(("f64"@, true)),
        t.oid == 25 || t.oid == 1043 || t.oid == 1042 || t.oid == 19
            ==> crate::type_registrar::builtin_rust_type(t) == Some(("String"@, false)),
        t.oid == 17 ==> crate::type_registrar::builtin_rust_type(t) == Some(("Vec<u8>"@, false)),
        t.oid == 1114 ==> crate::type_registrar::builtin_rust_type(t) == Some(
            ("chrono::NaiveDateTime"@, true),
        ),
        t.oid == 1184 ==> crate::type_registrar::builtin_rust_type(t) == Some(
            ("chrono::DateTime<chrono::FixedOffset>"@, true),
        ),
        t.oid == 1082 ==> crate::type_registrar::builtin_rust_type(t) == Some(
            ("chrono::NaiveDate"@, true),
        ),
        t.oid == 1083 ==> crate::type_registrar::builtin_rust_type(t) == Some(
            ("chrono::NaiveTime"@, true),
        ),
        t.oid == 114 || t.oid == 3802 ==> crate::type_registrar::builtin_rust_type(t) == Some(
            ("serde_json::Value"@, false),
        ),
        t.oid == 2950 ==> crate::type_registrar::builtin_rust_type(t) == Some(("uuid::Uuid"@, true)),
        t.oid == 869 ==> crate::type_registrar::builtin_rust_type(t) == Some(
            ("std::net::IpAddr"@, true),
        ),
        t.oid == 829 ==> crate::type_registrar::builtin_rust_type(t) == Some(
            ("eui48::MacAddress"@, true),
        ),
        t.oid == 1700 ==> crate::type_registrar::builtin_rust_type(t) == Some(
            ("rust_decimal::Decimal"@, true),
        ),
{
}

/// The text extensions, named `citext`, `ltree`, `lquery` or `ltxtquery` in any
/// schema, are strings.
pub proof fn law_text_extensions_are_strings(t: PgTypeModel)
    requires
        t.name == "citext"@ || t.name == "ltree"@ || t.name == "lquery"@ || t.name == "ltxtquery"@,
        !t.builtin,
    ensures
        crate::type_registrar::builtin_rust_type(t) == Some(("String"@, false)),
{
}

/// An unmapped simple type registered anew is its entry in the built-in table, with
/// no borrowed form, appended last; a simple type the table lacks is refused and
/// nothing is registered.
pub proof fn law_simple_types_follow_the_table(cfg: Config, es: Entries, t: PgTypeModel)
    requires
        t.kind is Simple,
        index_of_key(es, key_of(t)) is None,
        cfg.spec_type_mapping(t) is None,
    ensures
        crate::type_registrar::builtin_rust_type(t) matches Some((n, c)) ==> spec_register(
            cfg,
            es,
            t,
        ) == (
            Ok::<TypeModel, PgTypeModel>(
                TypeModel::Simple { pg_ty: t, rust_name: n, borrowed_name: None, is_copy: c },
            ),
            es.push(
                (
                    key_of(t),
                    TypeModel::Simple { pg_ty: t, rust_name: n, borrowed_name: None, is_copy: c },
                ),
            ),
        ),
        crate::type_registrar::builtin_rust_type(t) is None ==> spec_register(cfg, es, t) == (
            Err::<TypeModel, PgTypeModel>(t),
            es,
        ),
{
}

/// An unmapped enum registered anew is a `Copy` generated struct, usable as a
/// parameter, named after the enum in UpperCamelCase.
pub proof fn law_enums_are_copy_structs(cfg: Config, es: Entries, t: PgTypeModel)
    requires
        t.kind is Enum,
        index_of_key(es, key_of(t)) is None,
        cfg.spec_type_mapping(t) is None,
    ensures
        spec_register(cfg, es, t).0 == Ok::<TypeModel, PgTypeModel>(
            TypeModel::Custom {
                pg_ty: t,
                struct_name: crate::naming::upper_camel_case(t.name),
                is_copy: true,
                is_params: true,
            },
        ),
{
}

/// Ranges, multiranges and pseudo-types are refused, and nothing is registered.
pub proof fn law_other_kinds_are_refused(cfg: Config, es: Entries, t: PgTypeModel)
    requires
        t.kind is Range || t.kind is Multirange || t.kind is Pseudo,
        index_of_key(es, key_of(t)) is None,
        cfg.spec_type_mapping(t) is None,
    ensures
        spec_register(cfg, es, t) == (Err::<TypeModel, PgTypeModel>(t), es),
{
}

/// An unmapped array registered anew wraps the type its element is registered as.
/// (This holds unless registering the element registers the array's own key.)
pub proof fn law_array_wraps_its_element(cfg: Config, es: Entries, t: PgTypeModel)
    requires
        t.kind is Array,
        index_of_key(es, key_of(t)) is None,
        cfg.spec_type_mapping(t) is None,
        spec_register(cfg, es, *t.kind->Array_0).0 is Ok,
        index_of_key(spec_register(cfg, es, *t.kind->Array_0).1, key_of(t)) is None,
    ensures
        ({
            let (r, es2) = spec_register(cfg, es, t);
            &&& index_of_key(es2, key_of(*t.kind->Array_0)) is Some
            &&& r == Ok::<TypeModel, PgTypeModel>(
                TypeModel::Array {
                    inner: Box::new(registered_value(es2, key_of(*t.kind->Array_0))),
                },
            )
        }),
{
    let e = *t.kind->Array_0;
    law_registered_after_register(cfg, es, e);
    let (re, es1) = spec_register(cfg, es, e);
    let v = TypeModel::Array { inner: Box::new(re->Ok_0) };
    let es2 = es1.push((key_of(t), v));
    assert(es2.subrange(0, es1.len() as int) =~= es1);
    lemma_index_of_key_prefix(es1, es2, key_of(e));
    let i = index_of_key(es1, key_of(e))->Some_0;
    assert(es2[i] == es1[i]);
}

} // verus!
