//! Freshness of an actual observation.
//!
//! ```text
//!                   reading                    time passes
//!   Unknown ──────────────→ Fresh ───────────────────→ Stale
//!                             ↑                          │
//!                             └──────── reading ─────────┘
//!
//!   On target change (when freshness is Fresh or Stale):
//!   Fresh/Stale ──→ Deprecated ──reading──→ Fresh
//! ```

use vstd::prelude::*;

verus! {

/// `Deprecated` captures the moment when the old value still describes the
/// previous target but the target has since changed: a new reading is
/// required before the value can be trusted again.
#[derive(Clone, Copy, Debug, PartialEq, Eq, Structural, Hash)]
pub enum Freshness {
    Unknown,
    Fresh,
    Stale,
    Deprecated,
}

impl Freshness {
    /// A value with this freshness is safe to consume for control
    /// decisions. Only `Fresh` qualifies.
    pub fn is_usable(self) -> (r: bool)
        ensures
            r <==> self is Fresh,
    {
        match self {
            Freshness::Fresh => true,
            _ => false,
        }
    }
}

} // verus!
