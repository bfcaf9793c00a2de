//! The user's configuration that the registrar consults: type mappings and domain
//! mappings.
use vstd::prelude::*;
use crate::cornucopia_type::cat3;
use crate::pg_type::{str_eq, PgType, PgTypeModel};

verus! {

/// A user-defined Rust type for a PostgreSQL type.
#[derive(Debug)]
pub enum TypeMapping {
    /// Only the Rust type's path; the type is `Copy` and has no borrowed form.
    Simple(String),
    Detailed { rust_type: String, borrowed_type: Option<String>, is_copy: bool },
}

/// The `types` section: `mapping` is keyed by `schema.name`, `domains` by the
/// domain's name. Where a key occurs twice, the later entry holds.
#[derive(Debug)]
pub struct TypesConfig {
    /// User-defined Rust types, keyed by the type's schema-qualified name
    /// (`pg_catalog.text`, `public.my_type`).
    pub mapping: Vec<(String, TypeMapping)>,
    /// Rust types for domains, keyed by the domain's name alone.
    ///
    /// By default a domain is unwrapped into its base type. A domain named here is used
    /// through the mapped Rust type instead, as it is (not wrapped), so that type has to
    /// accept the domain itself, both as a parameter and when read. PostgreSQL reports a
    /// result column of domain type as the domain's base type; such a column gets the
    /// mapped type only through a `col: domain_name` row override, which states the
    /// domain and is checked against the schema.
    pub domains: Vec<(String, String)>,
}

#[derive(Debug)]
pub struct Config {
    pub types: TypesConfig,
}

/// The index of the last entry of `s` whose key is `k`.
pub open spec fn last_index_of<V>(s: Seq<(String, V)>, k: Seq<char>) -> Option<int>
    decreases s.len(),
{
    if s.len() == 0 {
        None
    } else if s[s.len() - 1].0@ == k {
        Some(s.len() - 1)
    } else {
        last_index_of(s.subrange(0, s.len() - 1), k)
    }
}

/// The last index with key `k` holds key `k`; where there is none, no entry has it.
pub proof fn lemma_last_index_of<V>(s: Seq<(String, V)>, k: Seq<char>)
    ensures
        last_index_of(s, k) matches Some(i) ==> 0 <= i < s.len() && s[i].0@ == k,
        last_index_of(s, k) is None ==> forall|j: int| 0 <= j < s.len() ==> s[j].0@ != k,
    decreases s.len(),
{
    if s.len() > 0 {
        lemma_last_index_of(s.subrange(0, s.len() - 1), k);
        assert forall|j: int| 0 <= j < s.len() - 1 implies s[j] == s.subrange(0, s.len() - 1)[j] by {}
    }
}

/// The key of a type in `types.mapping`: its schema, a dot, its name.
pub open spec fn mapping_key(schema: Seq<char>, name: Seq<char>) -> Seq<char> {
    schema + "."@ + name
}

fn find_last<V>(s: &Vec<(String, V)>, k: &str) -> (r: Option<usize>)
    ensures
        match r {
            Some(i) => last_index_of(s@, k@) == Some(i as int),
            None => last_index_of(s@, k@) is None,
        },
{
    let mut i = s.len();
    assert(s@.subrange(0, i as int) =~= s@);
    while i > 0
        invariant
            i <= s@.len(),
            last_index_of(s@, k@) == last_index_of(s@.subrange(0, i as int), k@),
        decreases i,
    {
        let hit = str_eq(s[i - 1].0.as_str(), k);
        proof {
            let sub = s@.subrange(0, i as int);
            assert(sub[sub.len() - 1] == s@[i - 1]);
            assert(sub.subrange(0, sub.len() - 1) =~= s@.subrange(0, i - 1));
        }
        if hit {
            return Some(i - 1);
        }
        i = i - 1;
    }
    None
}

impl Config {
    /// The mapping configured for `schema.name`.
    pub open spec fn spec_type_mapping(&self, ty: PgTypeModel) -> Option<TypeMapping> {
        match last_index_of(self.types.mapping@, mapping_key(ty.schema, ty.name)) {
            Some(i) => Some(self.types.mapping@[i].1),
            None => None,
        }
    }

    /// The Rust type configured for the domain `name`.
    pub open spec fn spec_domain_mapping(&self, name: Seq<char>) -> Option<Seq<char>> {
        match last_index_of(self.types.domains@, name) {
            Some(i) => Some(self.types.domains@[i].1@),
            None => None,
        }
    }

    /// Returns the type mapping for a specific type
    pub fn get_type_mapping(&self, ty: &PgType) -> (r: Option<&TypeMapping>)
        ensures
            match r {
                Some(m) => self.spec_type_mapping(ty@) == Some(*m),
                None => self.spec_type_mapping(ty@) is None,
            },
    {
        let key = cat3(ty.schema.as_str(), ".", ty.name.as_str());
        match find_last(&self.types.mapping, key.as_str()) {
            Some(i) => {
                proof {
                    lemma_last_index_of(self.types.mapping@, key@);
                }
                Some(&self.types.mapping[i].1)
            },
            None => None,
        }
    }

    /// The Rust type configured for the domain `name`.
    pub fn get_domain_mapping(&self, name: &str) -> (r: Option<&String>)
        ensures
            match r {
                Some(m) => self.spec_domain_mapping(name@) == Some(m@),
                None => self.spec_domain_mapping(name@) is None,
            },
    {
        match find_last(&self.types.domains, name) {
            Some(i) => {
                proof {
                    lemma_last_index_of(self.types.domains@, name@);
                }
                Some(&self.types.domains[i].1)
            },
            None => None,
        }
    }

    /// Whether `types.domains` names any domain.
    pub fn has_domain_mappings(&self) -> (r: bool)
        ensures
            r == (self.types.domains@.len() > 0),
    {
        self.types.domains.len() > 0
    }

    pub fn builder() -> (r: ConfigBuilder)
        ensures
            r.config.types.mapping@.len() == 0,
            r.config.types.domains@.len() == 0,
    {
        ConfigBuilder { config: Config::default() }
    }
}

impl Default for Config {
    fn default() -> (r: Config)
        ensures
            r.types.mapping@.len() == 0,
            r.types.domains@.len() == 0,
    {
        Config { types: TypesConfig { mapping: Vec::new(), domains: Vec::new() } }
    }
}

/// Builds a [`Config`] entry by entry.
pub struct ConfigBuilder {
    pub config: Config,
}

impl ConfigBuilder {
    /// Maps the domain `name` to the Rust type `rust_type`.
    pub fn add_domain_mapping(self, name: &str, rust_type: &str) -> (r: ConfigBuilder)
        ensures
            r.config.types.mapping@ == self.config.types.mapping@,
            r.config.types.domains@.len() == self.config.types.domains@.len() + 1,
            r.config.types.domains@.subrange(0, self.config.types.domains@.len() as int)
                == self.config.types.domains@,
            r.config.types.domains@.last().0@ == name@,
            r.config.types.domains@.last().1@ == rust_type@,
    {
        let mut config = self.config;
        config.types.domains.push((String::from_str(name), String::from_str(rust_type)));
        ConfigBuilder { config }
    }

    /// Maps the type with key `schema.name` to `mapping`.
    pub fn add_type_mapping(self, key: &str, mapping: TypeMapping) -> (r: ConfigBuilder)
        ensures
            r.config.types.domains@ == self.config.types.domains@,
            r.config.types.mapping@.len() == self.config.types.mapping@.len() + 1,
            r.config.types.mapping@.subrange(0, self.config.types.mapping@.len() as int)
                == self.config.types.mapping@,
            r.config.types.mapping@.last().0@ == key@,
            r.config.types.mapping@.last().1 == mapping,
    {
        let mut config = self.config;
        config.types.mapping.push((String::from_str(key), mapping));
        ConfigBuilder { config }
    }

    pub fn build(self) -> (r: Config)
        ensures
            r == self.config,
    {
        self.config
    }
}

} // verus!
