use typed_tables::open::{
    choose_secondary_path, next_open_step, open_tables_impl, open_tables_read_only,
    open_tables_read_write, plan_column_families, ColumnFamily, EngineError, EngineReply, OpenMode,
    OpenPlan, OpenStep, SecondaryPath,
};
use typed_tables::options::{OptionsError, ResolvedOptions, TableConfigMap};
use typed_tables::schema::{OptionsOverride, Schema, TableDefinition};

fn s(text: &str) -> String {
    text.to_owned()
}

fn ledger() -> Schema {
    Schema::new(
        s("Ledger"),
        s("DBMap"),
        vec![
            TableDefinition {
                name: s("accounts"),
                key_type: s("String"),
                value_type: s("String"),
                options_override: OptionsOverride::Named(s("account_options")),
            },
            TableDefinition {
                name: s("balances"),
                key_type: s("i32"),
                value_type: s("String"),
                options_override: OptionsOverride::Default,
            },
        ],
    )
    .unwrap()
}

fn by_function<'a>() -> Vec<ColumnFamily<'a, u32>> {
    vec![
        ColumnFamily { name: s("accounts"), options: ResolvedOptions::Function(s("account_options")) },
        ColumnFamily {
            name: s("balances"),
            options: ResolvedOptions::Function(s("typed_store::rocks::default_rocksdb_options")),
        },
    ]
}

#[test]
fn primary_plan_without_overrides() {
    let none: Option<&TableConfigMap<u32>> = None;
    let plan = open_tables_read_write(&ledger(), s("/db"), Some(9), none).unwrap();
    assert_eq!(
        plan,
        OpenPlan {
            mode: OpenMode::Primary(s("/db")),
            global_options: Some(9),
            column_families: by_function(),
        }
    );
    assert_eq!(plan_column_families(&ledger(), none), Ok(by_function()));
}

#[test]
fn secondary_plan_names_both_paths() {
    let none: Option<&TableConfigMap<u32>> = None;
    let plan = open_tables_impl(&ledger(), s("/db"), Some(s("/scratch")), None, none).unwrap();
    assert_eq!(plan.mode, OpenMode::Secondary(s("/db"), s("/scratch")));
    assert_eq!(plan.global_options, None);
    assert_eq!(plan.column_families, by_function());
    let read_only: OpenPlan<String, u32> =
        open_tables_read_only(&ledger(), s("/db"), s("/scratch"), None);
    assert_eq!(read_only, plan);
}

#[test]
fn plan_with_overrides_uses_them_for_every_table() {
    let mut map: TableConfigMap<u32> = TableConfigMap::new();
    map.insert(s("accounts"), 1);
    map.insert(s("balances"), 2);
    let plan = open_tables_read_write(&ledger(), s("/db"), None, Some(&map)).unwrap();
    assert_eq!(plan.mode, OpenMode::Primary(s("/db")));
    assert_eq!(
        plan.column_families,
        vec![
            ColumnFamily { name: s("accounts"), options: ResolvedOptions::Supplied(&1) },
            ColumnFamily { name: s("balances"), options: ResolvedOptions::Supplied(&2) },
        ]
    );
}

#[test]
fn plan_fails_on_a_table_that_the_overrides_leave_out() {
    let mut map: TableConfigMap<u32> = TableConfigMap::new();
    map.insert(s("balances"), 2);
    assert_eq!(
        open_tables_read_write(&ledger(), s("/db"), Some(5), Some(&map)),
        Err(OptionsError::MissingTableOverride(s("accounts")))
    );
    assert_eq!(
        open_tables_impl(&ledger(), s("/db"), Some(s("/scratch")), None, Some(&map)),
        Err(OptionsError::MissingTableOverride(s("accounts")))
    );
}

#[test]
fn steps_bind_each_table_in_turn() {
    let schema = ledger();
    let opened: EngineReply<String> = EngineReply::Opened;
    assert_eq!(next_open_step(&schema, OpenStep::OpenEngine, opened), Ok(OpenStep::BindTable(0)));
    let bound: EngineReply<String> = EngineReply::Bound;
    assert_eq!(next_open_step(&schema, OpenStep::BindTable(0), bound), Ok(OpenStep::BindTable(1)));
    let bound: EngineReply<String> = EngineReply::Bound;
    assert_eq!(next_open_step(&schema, OpenStep::BindTable(1), bound), Ok(OpenStep::Done));
}

#[test]
fn engine_failures_end_the_opening() {
    let schema = ledger();
    assert_eq!(
        next_open_step(&schema, OpenStep::OpenEngine, EngineReply::OpenFailed(s("lock held"))),
        Err(EngineError::CannotOpen(s("lock held")))
    );
    let missing: EngineReply<String> = EngineReply::Missing;
    assert_eq!(
        next_open_step(&schema, OpenStep::BindTable(1), missing),
        Err(EngineError::MissingColumnFamily(s("balances")))
    );
}

#[test]
fn replies_out_of_turn_are_refused() {
    let schema = ledger();
    let bound: EngineReply<String> = EngineReply::Bound;
    assert_eq!(next_open_step(&schema, OpenStep::OpenEngine, bound), Err(EngineError::OutOfTurn));
    let opened: EngineReply<String> = EngineReply::Opened;
    assert_eq!(next_open_step(&schema, OpenStep::BindTable(0), opened), Err(EngineError::OutOfTurn));
    let bound: EngineReply<String> = EngineReply::Bound;
    assert_eq!(next_open_step(&schema, OpenStep::BindTable(2), bound), Err(EngineError::OutOfTurn));
    let missing: EngineReply<String> = EngineReply::Missing;
    assert_eq!(next_open_step(&schema, OpenStep::Done, missing), Err(EngineError::OutOfTurn));
}

#[test]
fn a_reader_without_a_path_gets_a_scratch_location() {
    assert_eq!(choose_secondary_path(Some(s("/given"))), SecondaryPath::Given(s("/given")));
    let none: Option<String> = None;
    assert_eq!(choose_secondary_path(none), SecondaryPath::Scratch);
}

#[test]
fn only_a_primary_may_write() {
    assert_eq!(OpenMode::Primary(s("/db")).require_writable(), Ok(()));
    assert_eq!(
        OpenMode::Secondary(s("/db"), s("/scratch")).require_writable(),
        Err(typed_tables::open::AccessError::ReadOnly)
    );
}
