//! Registration of PostgreSQL types and their Rust counterparts for code generation.
pub mod pg_type;
pub mod cornucopia_type;
pub mod gen_ctx;
pub mod config;
pub mod naming;
pub mod error;
pub mod type_map;
pub mod type_registrar;
pub mod laws;
pub mod type_laws;

pub use config::{Config, ConfigBuilder, TypeMapping, TypesConfig};
pub use cornucopia_type::CornucopiaType;
pub use error::{Error, ModuleInfo, SourceRange, Span};
pub use gen_ctx::{idx_char, GenCtx, ModCtx};
pub use naming::domain_row_wrapper_name;
pub use pg_type::{PgField, PgKind, PgType};
pub use type_registrar::{row_domain_override_type, validate_domain_mappings, TypeRegistrar};
