//! Schema versioning and durability settings of the server database.
use vstd::prelude::*;

verus! {

/// The schema version this build writes and reads.
pub const CURRENT_SCHEMA_VERSION: i64 = 1;

/// How strongly commits are flushed.
#[derive(Debug, Clone, Copy, PartialEq, Eq, Structural)]
pub enum Durability {
    Full,
    Normal,
}

/// The value of SQLite's `synchronous` setting for a durability.
pub fn synchronous_setting(durability: Durability) -> (setting: &'static str)
    ensures
        setting@ == match durability {
            Durability::Full => "FULL"@,
            Durability::Normal => "NORMAL"@,
        },
{
    match durability {
        Durability::Full => "FULL",
        Durability::Normal => "NORMAL",
    }
}

/// A database that this build cannot open.
#[derive(Debug, Clone, Copy, PartialEq, Eq, Structural)]
pub enum SchemaError {
    NewerSchema { found: i64, supported: i64 },
}

/// What opening a database with schema version `found` requires.
#[derive(Debug, Clone, Copy, PartialEq, Eq, Structural)]
pub enum MigrationStep {
    /// The schema is current.
    UpToDate,
    /// The initial schema must be created (once, in one transaction).
    ApplyInitial,
}

/// Decides the migration of a database whose highest applied version is
/// `found`: a newer schema is refused untouched, an empty one gets the initial
/// schema, the current one is used as it is.
pub fn migration_plan(found: i64) -> (plan: Result<MigrationStep, SchemaError>)
    ensures
        found > CURRENT_SCHEMA_VERSION ==> plan == Err::<MigrationStep, SchemaError>(
            SchemaError::NewerSchema { found, supported: CURRENT_SCHEMA_VERSION },
        ),
        found < 1 ==> plan == Ok::<MigrationStep, SchemaError>(MigrationStep::ApplyInitial),
        1 <= found <= CURRENT_SCHEMA_VERSION ==> plan == Ok::<MigrationStep, SchemaError>(
            MigrationStep::UpToDate,
        ),
{
    if found > CURRENT_SCHEMA_VERSION {
        return Err(SchemaError::NewerSchema { found, supported: CURRENT_SCHEMA_VERSION });
    }
    if found < 1 {
        Ok(MigrationStep::ApplyInitial)
    } else {
        Ok(MigrationStep::UpToDate)
    }
}

} // verus!
