//! Errors of type registration, and where in the queries they arise.
use vstd::prelude::*;

verus! {

/// A range of bytes in a source file.
#[derive(Clone, Copy, Debug, PartialEq, Eq, Structural)]
pub struct SourceRange {
    pub offset: usize,
    pub length: usize,
}

/// A value together with the place in the source it was read from.
#[derive(Debug)]
pub struct Span<T> {
    pub span: SourceRange,
    pub value: T,
}

/// A query file being read.
#[derive(Debug)]
pub struct ModuleInfo {
    pub path: String,
    pub name: String,
    pub full_module_path: String,
    pub content: String,
}

impl ModuleInfo {
    /// A copy, field by field.
    pub fn duplicate(&self) -> (r: ModuleInfo)
        ensures
            r.path@ == self.path@,
            r.name@ == self.name@,
            r.full_module_path@ == self.full_module_path@,
            r.content@ == self.content@,
    {
        ModuleInfo {
            path: self.path.clone(),
            name: self.name.clone(),
            full_module_path: self.full_module_path.clone(),
            content: self.content.clone(),
        }
    }
}

/// Couldn't register SQL type.
#[derive(Debug)]
pub enum Error {
    /// This query contains an unsupported type (name: `col_name`, type: `col_ty`).
    UnsupportedPostgresType {
        src: ModuleInfo,
        query: SourceRange,
        col_name: String,
        col_ty: String,
    },
    /// Unknown domain `name` in `types.domains`: no such domain exists in the schema.
    UnknownDomain { name: String },
    /// Domain `name` named in a row override has no `types.domains` mapping.
    DomainOverrideNotMapped { name: String },
    /// Row override names domain `domain`, whose base type is `expected_base`, but the
    /// column's reported type is `actual`.
    DomainOverrideBaseMismatch { domain: String, expected_base: String, actual: String },
}

} // verus!
