//! Migration 029: add `check_for_updates` and `skipped_update_version`
//! columns to `cfg_general_settings`.
//!
//! Persists whether the app asks the release repository for a newer version,
//! and which version the user dismissed, so both survive restarts. The check
//! defaults to on; the skipped version defaults to empty, meaning "nothing
//! dismissed".
//!
//! The migration only adds what is missing, so it is safe to run on a
//! database that already has either column, and does nothing when the table
//! does not exist yet. The interface to SQLite runs the statements; this
//! module decides which ones, one answer at a time.

use vstd::prelude::*;
use vstd::string::*;

verus! {

pub struct MigrationImpl;

/// The query that tells whether the settings table exists (its count is > 0).
pub const TABLE_EXISTS_QUERY: &'static str =
    "SELECT COUNT(*) FROM sqlite_master WHERE type='table' AND name='cfg_general_settings'";

/// The query that tells whether the column named by its single parameter exists.
pub const COLUMN_EXISTS_QUERY: &'static str =
    "SELECT COUNT(*) FROM pragma_table_info('cfg_general_settings') WHERE name = ?1";

/// Number of columns the migration adds.
pub const COLUMN_COUNT: usize = 2;

/// What the migration does next.
#[derive(Debug, Clone, Copy, PartialEq, Eq, Structural)]
pub enum MigrationStep {
    /// Run `TABLE_EXISTS_QUERY`; answer whether the count is positive.
    CheckTable,
    /// Run `COLUMN_EXISTS_QUERY` for column `i`; answer whether it exists.
    CheckColumn(usize),
    /// Execute the DDL of column `i`; answer `true` once it ran.
    AddColumn(usize),
    /// Nothing left to do.
    Done,
}

/// The step after column `i` is dealt with.
pub open spec fn after_column(i: int) -> MigrationStep {
    if i + 1 < COLUMN_COUNT {
        MigrationStep::CheckColumn((i + 1) as usize)
    } else {
        MigrationStep::Done
    }
}

/// The step that follows `step` given the answer to it.
pub open spec fn next_step(step: MigrationStep, answer: bool) -> MigrationStep {
    match step {
        MigrationStep::CheckTable => if answer { MigrationStep::CheckColumn(0) } else { MigrationStep::Done },
        MigrationStep::CheckColumn(i) => if answer { after_column(i as int) } else { MigrationStep::AddColumn(i) },
        MigrationStep::AddColumn(i) => after_column(i as int),
        MigrationStep::Done => MigrationStep::Done,
    }
}

impl MigrationImpl {
    pub fn name(&self) -> (r: &'static str)
        ensures
            r@ == "029_general_settings_update_check"@,
    {
        "029_general_settings_update_check"
    }

    /// The first step of a run.
    pub fn first_step(&self) -> (r: MigrationStep)
        ensures
            r == MigrationStep::CheckTable,
    {
        MigrationStep::CheckTable
    }

    /// The name and the DDL of column `i`.
    pub fn column(&self, i: usize) -> (r: (&'static str, &'static str))
        requires
            i < COLUMN_COUNT,
        ensures
            i == 0 ==> r.0@ == "check_for_updates"@ && r.1@ ==
                "ALTER TABLE cfg_general_settings ADD COLUMN check_for_updates INTEGER NOT NULL DEFAULT 1;"@,
            i == 1 ==> r.0@ == "skipped_update_version"@ && r.1@ ==
                "ALTER TABLE cfg_general_settings ADD COLUMN skipped_update_version TEXT NOT NULL DEFAULT '';"@,
    {
        if i == 0 {
            (
                "check_for_updates",
                "ALTER TABLE cfg_general_settings ADD COLUMN check_for_updates INTEGER NOT NULL DEFAULT 1;",
            )
        } else {
            (
                "skipped_update_version",
                "ALTER TABLE cfg_general_settings ADD COLUMN skipped_update_version TEXT NOT NULL DEFAULT '';",
            )
        }
    }

    /// The step that follows `step` given the answer to it: a missing table
    /// ends the run, each column is checked and added only when missing.
    pub fn next_step(&self, step: MigrationStep, answer: bool) -> (r: MigrationStep)
        requires
            step matches MigrationStep::CheckColumn(i) ==> i < COLUMN_COUNT,
            step matches MigrationStep::AddColumn(i) ==> i < COLUMN_COUNT,
        ensures
            r == next_step(step, answer),
            r matches MigrationStep::CheckColumn(i) ==> i < COLUMN_COUNT,
            r matches MigrationStep::AddColumn(i) ==> i < COLUMN_COUNT,
    {
        match step {
            MigrationStep::CheckTable => if answer { MigrationStep::CheckColumn(0) } else { MigrationStep::Done },
            MigrationStep::CheckColumn(i) => if answer {
                if i + 1 < COLUMN_COUNT { MigrationStep::CheckColumn(i + 1) } else { MigrationStep::Done }
            } else {
                MigrationStep::AddColumn(i)
            },
            MigrationStep::AddColumn(i) => if i + 1 < COLUMN_COUNT { MigrationStep::CheckColumn(i + 1) } else { MigrationStep::Done },
            MigrationStep::Done => MigrationStep::Done,
        }
    }
}

/// The answer a database gives to `step`, when it has the settings table iff
/// `table_exists` and column `i` iff `has_column[i]`.
pub open spec fn answer_for(step: MigrationStep, table_exists: bool, has_column: Seq<bool>) -> bool {
    match step {
        MigrationStep::CheckTable => table_exists,
        MigrationStep::CheckColumn(i) => has_column[i as int],
        _ => true,
    }
}

/// The steps a run takes against such a database, at most `fuel` + 1 of them.
pub open spec fn run_steps(step: MigrationStep, table_exists: bool, has_column: Seq<bool>, fuel: nat) -> Seq<MigrationStep>
    decreases fuel,
{
    if fuel == 0 || step == MigrationStep::Done {
        seq![step]
    } else {
        seq![step] + run_steps(next_step(step, answer_for(step, table_exists, has_column)), table_exists, has_column, (fuel - 1) as nat)
    }
}

/// A run finishes within six steps and adds exactly the missing columns: a
/// column is added iff the table exists and lacks it, so running the
/// migration again changes nothing.
pub proof fn law_migration_adds_exactly_the_missing_columns(table_exists: bool, has_column: Seq<bool>)
    requires
        has_column.len() == COLUMN_COUNT,
    ensures
        run_steps(MigrationStep::CheckTable, table_exists, has_column, 5).last() == MigrationStep::Done,
        forall|i: int| 0 <= i < COLUMN_COUNT ==> (run_steps(MigrationStep::CheckTable, table_exists, has_column, 5).contains(
            MigrationStep::AddColumn(i as usize),
        ) <==> table_exists && !#[trigger] has_column[i]),
{
    reveal_with_fuel(run_steps, 6);
    let t = run_steps(MigrationStep::CheckTable, table_exists, has_column, 5);
    assert forall|i: int| 0 <= i < COLUMN_COUNT implies (t.contains(MigrationStep::AddColumn(i as usize))
        <==> table_exists && !#[trigger] has_column[i]) by {
        if table_exists && !has_column[i] {
            if i == 0 {
                assert(t[2] == MigrationStep::AddColumn(0));
            } else if has_column[0] {
                assert(t[3] == MigrationStep::AddColumn(1));
            } else {
                assert(t[4] == MigrationStep::AddColumn(1));
            }
        }
    }
}

} // verus!
