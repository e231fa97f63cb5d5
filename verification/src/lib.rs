//! A versioned, forward-only schema-migration engine for an embedded
//! relational database.
//!
//! The crate models a migration as an immutable descriptor — a version,
//! a diagnostic label, and an ordered list of effects applied as one
//! atomic unit — and assembles all known descriptors into one registry,
//! sorted strictly ascending by version.  A verified engine states and
//! proves the execution contract a host must honor: migrations whose
//! version is at or below the persisted marker are never reapplied, each
//! migration applies atomically, and the marker advances exactly with
//! the effects it records.

pub mod database;
pub mod descriptor;
pub mod engine;
pub mod laws;
pub mod model;
pub mod v001_initial_tables;
pub mod v002_nullable_account_calendar;
pub mod v003_add_url_field;

pub use v001_initial_tables::migration as migration_v001;
pub use v002_nullable_account_calendar::migration as migration_v002;
pub use v003_add_url_field::migration as migration_v003;

use vstd::prelude::*;

use crate::descriptor::Migration;
use crate::descriptor::push_migration;
use crate::model::MigrationModel;
use crate::model::strictly_sorted;

verus! {

/// The authoritative migration set, in order: every known migration
/// descriptor, exactly once.
pub open spec fn registry_m() -> Seq<MigrationModel> {
    seq![
        v001_initial_tables::migration_m(),
        v002_nullable_account_calendar::migration_m(),
        v003_add_url_field::migration_m(),
    ]
}

/// The registry is strictly ascending by version, with no duplicates.
pub proof fn lemma_registry_strictly_sorted()
    ensures
        strictly_sorted(registry_m()),
{
}

/// Returns all database migrations for the application: every known
/// descriptor, exactly once, sorted strictly ascending by version.
pub fn get_migrations() -> (migrations: Vec<Migration>)
    ensures
        migrations.deep_view() == registry_m(),
        strictly_sorted(migrations.deep_view()),
{
    let mut migrations: Vec<Migration> = Vec::new();
    proof {
        assert(migrations.deep_view() =~= Seq::<MigrationModel>::empty());
    }
    push_migration(&mut migrations, migration_v001());
    push_migration(&mut migrations, migration_v002());
    push_migration(&mut migrations, migration_v003());
    proof {
        assert(migrations.deep_view() =~= registry_m());
        lemma_registry_strictly_sorted();
    }
    migrations
}

} // verus!
