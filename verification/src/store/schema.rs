//! The version of the local schema and the steps that bring it up to date.

use crate::constants::DB_SCHEMA_VERSION;
use crate::error::AppError;
use crate::numbers::{decimal_int, show_i64};
use vstd::prelude::*;

verus! {

/// One step of a migration.
#[derive(Debug, Clone, Copy, PartialEq, Eq, Structural)]
pub enum MigrationStep {
    /// Create the tables that do not exist.
    CreateTables,
    /// Add the column with the read position to the group table.
    AddReadPosition,
}

/// The steps from a stored version; none lead on from a version that is newer than this one.
pub open spec fn steps_from(version: i32, has_read_position: bool) -> Option<Seq<MigrationStep>> {
    if version == 0 {
        Some(
            if has_read_position {
                seq![MigrationStep::CreateTables]
            } else {
                seq![MigrationStep::CreateTables, MigrationStep::AddReadPosition]
            },
        )
    } else if version == 1 {
        Some(seq![MigrationStep::AddReadPosition])
    } else if version > DB_SCHEMA_VERSION {
        None
    } else {
        Some(seq![])
    }
}

/// The steps of a migration. `has_read_position` tells whether the group table has the column once
/// the tables exist; it counts only for a database without a version.
pub fn migration(version: i32, has_read_position: bool) -> (r: Result<Vec<MigrationStep>, AppError>)
    ensures
        match steps_from(version, has_read_position) {
            Some(steps) => r matches Ok(v) && v@ == steps,
            None => r matches Err(AppError::Store(m)) && m@ == "database schema version "@
                + decimal_int(version as int) + " is newer than supported "@ + decimal_int(
                DB_SCHEMA_VERSION as int,
            ),
        },
{
    let mut v: Vec<MigrationStep> = Vec::new();
    if version == 0 {
        v.push(MigrationStep::CreateTables);
        if !has_read_position {
            v.push(MigrationStep::AddReadPosition);
        }
    } else if version == 1 {
        v.push(MigrationStep::AddReadPosition);
    } else if version > DB_SCHEMA_VERSION {
        let m = "database schema version ".to_owned().concat(show_i64(version as i64).as_str()).concat(
            " is newer than supported ",
        ).concat(show_i64(DB_SCHEMA_VERSION as i64).as_str());
        return Err(AppError::Store(m));
    }
    assert(v@ =~= steps_from(version, has_read_position)->0);
    Ok(v)
}

} // verus!
