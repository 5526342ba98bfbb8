//! Which migrations of the schema are applied.
use vstd::prelude::*;

use super::error;
use crate::outcome;
use crate::store::StoreError;
use crate::store::StoreErrorView;
use crate::text;

verus! {

/// What is done about a migration.
#[derive(Clone, Copy, Debug, PartialEq, Eq, Structural)]
pub enum MigrationStep {
    Apply,
    Skip,
}

impl DeepView for MigrationStep {
    type V = MigrationStep;

    open spec fn deep_view(&self) -> MigrationStep {
        *self
    }
}

/// What is done about a migration, given the name under which its version was
/// applied.
pub open spec fn step_for(version: i32, name: Seq<char>, applied: Option<Seq<char>>) -> Result<
    MigrationStep,
    StoreErrorView,
> {
    match applied {
        None => Ok(MigrationStep::Apply),
        Some(applied) => if applied == name {
            Ok(MigrationStep::Skip)
        } else {
            Err(
                StoreErrorView::Internal {
                    message: "migration version "@ + text::signed_decimal(version as int)
                        + " was already applied as "@ + text::debug_text(applied)
                        + ", expected "@ + text::debug_text(name),
                },
            )
        },
    }
}

/// What is done about a migration, given the name under which its version was
/// applied: a version is applied once, and only under one name.
pub fn migration_step(version: i32, name: &str, applied: Option<&str>) -> (r: Result<
    MigrationStep,
    StoreError,
>)
    ensures
        outcome::of(r) == step_for(version, name@, applied.deep_view()),
{
    match applied {
        None => Ok(MigrationStep::Apply),
        Some(applied) => {
            if text::same(applied, name) {
                return Ok(MigrationStep::Skip);
            }
            let shown = text::signed_number(version as i64);
            let was = text::quoted(applied);
            let expected = text::quoted(name);
            let message = text::join5(
                "migration version ",
                shown.as_str(),
                " was already applied as ",
                was.as_str(),
                ", expected ",
            );
            let message = text::appended(message, expected.as_str());
            Err(StoreError::Internal { message })
        },
    }
}

/// How the failure of a migration is reported.
pub fn map_migration_error(error: tokio_postgres::Error) -> (r: StoreError)
    ensures
        r.deep_view() == (StoreErrorView::Internal {
            message: "postgres migration failed: "@ + error::failure_of(error).description,
        }),
{
    let failure = error::read_failure(&error);
    let message = text::join2("postgres migration failed: ", failure.description.as_str());
    StoreError::Internal { message }
}

} // verus!
