//! The command surface: the nested command and variant grammar that selects
//! which orchestration path runs.
//!
//! These types carry no behaviour of their own; an invocation is consumed
//! once by [`crate::plan::plan_invocation`]. The unverified shell that
//! parses the command line builds a value of [`Subcommands`] and hands it
//! over.

use vstd::prelude::*;

verus! {

/// A top-level action: initialize a new project, add files to an existing
/// one, or emit a CSS pattern to standard output.
#[derive(Debug, Clone)]
pub enum Subcommands {
    Create(Scaffolds),
    New(Scaffolds),
    Pattern(PatternScaffolds),
}

/// The selection for `create` and `new`: an optional name and a scaffold
/// variant.
#[derive(Debug, Clone)]
pub struct Scaffolds {
    pub name: Option<String>,
    pub available_scaffolds: AvailableScaffolds,
}

/// The closed set of scaffold variants, shared by `create` and `new`.
#[derive(Debug, Clone)]
pub enum AvailableScaffolds {
    React,
    Lit,
    Go,
}

/// The selection for `pattern`: an optional name (unused by every pattern)
/// and a pattern family.
#[derive(Debug, Clone)]
pub struct PatternScaffolds {
    pub name: Option<String>,
    pub available_patterns: AvailablePatterns,
}

/// The closed set of pattern families.
#[derive(Debug, Clone)]
pub enum AvailablePatterns {
    Css(CssOptions),
}

/// The selection inside the CSS pattern family.
#[derive(Debug, Clone)]
pub struct CssOptions {
    pub css_variants: CssVariants,
}

/// The two CSS patterns: the full design-token sheet or the reset ruleset
/// alone.
#[derive(Debug, Clone)]
pub enum CssVariants {
    Root,
    Global,
}

} // verus!
