//! Localization scope and month display format.

use vstd::prelude::*;

verus! {

/// Localization scope settings.
#[derive(Debug, Clone, Copy, PartialEq, Eq, Structural)]
pub struct Localize {
    pub scope: Scope,
}

impl Default for Localize {
    fn default() -> (r: Self)
        ensures
            r.scope == Scope::Global,
    {
        Localize { scope: Scope::Global }
    }
}

/// Localization scope.
#[derive(Debug, Clone, Copy, PartialEq, Eq, Structural, Default)]
pub enum Scope {
    #[default]
    Global,
    PerItem,
}

/// Month display format.
#[derive(Debug, Clone, Copy, PartialEq, Eq, Structural, Hash, Default)]
pub enum MonthFormat {
    #[default]
    Long,
    Short,
    Numeric,
}

} // verus!
