//! Rewrites aliased module paths (`@/a`, `@common/b`) in the import and export sites of a
//! source file into paths under the file's nearest `src/` directory.
use vstd::prelude::*;

pub mod alias;
pub mod laws;
pub mod text;
pub mod visitor;

pub use alias::{AliasMatch, AliasMatcher, MatcherCache, PatternError};
pub use visitor::{
    Argument, CallExpr, Callee, ExportAll, ImportDecl, ImportPhase, NamedExport, PathLiteral,
    TransformVisitor,
};

verus! {

/// How a project spells its aliases.
pub struct Config {
    /// Prefix of an aliased path. Default is `@`.
    pub prefix: Option<String>,
    /// Names allowed right after the prefix: with `common`, `@common/` resolves too.
    pub allowed_pathnames: Option<Vec<String>>,
}

impl Default for Config {
    fn default() -> (r: Config)
        ensures
            r.prefix is None,
            r.allowed_pathnames is None,
    {
        Config { prefix: None, allowed_pathnames: None }
    }
}

} // verus!
