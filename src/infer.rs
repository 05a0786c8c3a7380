//! Inference of authoring defaults from the migrations written so far.
use vstd::prelude::*;

use crate::migrate::{DefaultMigrationType, DefaultVersioning};

verus! {

/// A migration that already exists, as far as inference needs to know it.
#[derive(Clone, Copy, Debug, PartialEq, Eq, Structural)]
pub struct PriorMigration {
    /// Whether it was written as an up/down pair.
    pub reversible: bool,
    /// Its version identifier.
    pub version: i64,
}

/// The type of the latest migration, or `Simple` when there is none.
pub open spec fn inferred_type(history: Seq<PriorMigration>) -> DefaultMigrationType {
    if history.len() == 0 {
        DefaultMigrationType::Simple
    } else if history.last().reversible {
        DefaultMigrationType::Reversible
    } else {
        DefaultMigrationType::Simple
    }
}

/// `Sequential` when there is no migration, when the only one has version 1,
/// or when the last two versions are consecutive; `Timestamp` otherwise.
pub open spec fn inferred_versioning(history: Seq<PriorMigration>) -> DefaultVersioning {
    let n = history.len();
    if n == 0 {
        DefaultVersioning::Sequential
    } else if n == 1 {
        if history[0].version == 1 {
            DefaultVersioning::Sequential
        } else {
            DefaultVersioning::Timestamp
        }
    } else if history[n - 1].version - history[n - 2].version == 1 {
        DefaultVersioning::Sequential
    } else {
        DefaultVersioning::Timestamp
    }
}

impl DefaultMigrationType {
    /// The migration type suggested by the existing migrations, oldest first.
    pub fn infer(history: &[PriorMigration]) -> (r: DefaultMigrationType)
        ensures
            r == inferred_type(history@),
    {
        let n = history.len();
        if n == 0 {
            DefaultMigrationType::Simple
        } else if history[n - 1].reversible {
            DefaultMigrationType::Reversible
        } else {
            DefaultMigrationType::Simple
        }
    }

    /// The concrete type to create: this one, unless it asks for inference.
    pub fn resolve(&self, history: &[PriorMigration]) -> (r: DefaultMigrationType)
        ensures
            r == (if *self == DefaultMigrationType::Inferred {
                inferred_type(history@)
            } else {
                *self
            }),
            r != DefaultMigrationType::Inferred,
    {
        match self {
            DefaultMigrationType::Inferred => DefaultMigrationType::infer(history),
            DefaultMigrationType::Simple => DefaultMigrationType::Simple,
            DefaultMigrationType::Reversible => DefaultMigrationType::Reversible,
        }
    }
}

impl DefaultVersioning {
    /// The versioning scheme suggested by the existing migrations, oldest first.
    pub fn infer(history: &[PriorMigration]) -> (r: DefaultVersioning)
        ensures
            r == inferred_versioning(history@),
    {
        let n = history.len();
        if n == 0 {
            DefaultVersioning::Sequential
        } else if n == 1 {
            if history[0].version == 1 {
                DefaultVersioning::Sequential
            } else {
                DefaultVersioning::Timestamp
            }
        } else {
            let prev = history[n - 2].version;
            let last = history[n - 1].version;
            if prev < i64::MAX && last == prev + 1 {
                DefaultVersioning::Sequential
            } else {
                DefaultVersioning::Timestamp
            }
        }
    }

    /// The concrete scheme to use: this one, unless it asks for inference.
    pub fn resolve(&self, history: &[PriorMigration]) -> (r: DefaultVersioning)
        ensures
            r == (if *self == DefaultVersioning::Inferred {
                inferred_versioning(history@)
            } else {
                *self
            }),
            r != DefaultVersioning::Inferred,
    {
        match self {
            DefaultVersioning::Inferred => DefaultVersioning::infer(history),
            DefaultVersioning::Timestamp => DefaultVersioning::Timestamp,
            DefaultVersioning::Sequential => DefaultVersioning::Sequential,
        }
    }
}

} // verus!
