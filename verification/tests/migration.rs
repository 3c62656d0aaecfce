use dbflux::migration::{MigrationImpl, MigrationStep, COLUMN_COUNT};
use dbflux::migration::MigrationStep::{AddColumn, CheckColumn, CheckTable, Done};

fn run(table: bool, has: [bool; 2]) -> Vec<MigrationStep> {
    let migration = MigrationImpl;
    let mut step = migration.first_step();
    let mut steps = vec![step];
    while step != MigrationStep::Done {
        let answer = match step {
            MigrationStep::CheckTable => table,
            MigrationStep::CheckColumn(i) => has[i],
            _ => true,
        };
        step = migration.next_step(step, answer);
        steps.push(step);
    }
    steps
}

#[test]
fn migration_adds_only_missing_columns() {
    assert_eq!(run(false, [false, false]), vec![CheckTable, Done]);
    assert_eq!(
        run(true, [false, true]),
        vec![CheckTable, CheckColumn(0), AddColumn(0), CheckColumn(1), Done]
    );
    assert_eq!(run(true, [true, true]), vec![CheckTable, CheckColumn(0), CheckColumn(1), Done]);
}

#[test]
fn migration_names_its_columns() {
    let migration = MigrationImpl;
    assert_eq!(migration.name(), "029_general_settings_update_check");
    assert_eq!(COLUMN_COUNT, 2);
    assert_eq!(migration.column(0).0, "check_for_updates");
    assert!(migration.column(1).1.contains("skipped_update_version TEXT NOT NULL DEFAULT ''"));
}
