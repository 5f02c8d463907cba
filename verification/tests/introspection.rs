use typed_tables::introspect::{
    get_memory_usage, page_of, MemoryUsageStats, NotFoundError, ReadOnlyHandle,
};
use typed_tables::schema::{OptionsOverride, Schema, TableDefinition};

fn s(text: &str) -> String {
    text.to_owned()
}

fn ledger() -> Schema {
    Schema::new(
        s("Ledger"),
        s("DBMap"),
        vec![
            TableDefinition {
                name: s("accounts"),
                key_type: s("String"),
                value_type: s("String"),
                options_override: OptionsOverride::Default,
            },
            TableDefinition {
                name: s("balances"),
                key_type: s("i32"),
                value_type: s("String"),
                options_override: OptionsOverride::Default,
            },
        ],
    )
    .unwrap()
}

fn numbered(n: usize) -> Vec<(String, String)> {
    (0..n).map(|i| (format!("{:?}", i), format!("{:?}", i * 10))).collect()
}

#[test]
fn pages_are_consecutive_ranges() {
    let entries = numbered(7);
    assert_eq!(page_of(&entries, 3, 0), entries[0..3].to_vec());
    assert_eq!(page_of(&entries, 3, 1), entries[3..6].to_vec());
    assert_eq!(page_of(&entries, 3, 2), entries[6..7].to_vec());
    assert_eq!(page_of(&entries, 7, 0), entries);
    assert_eq!(page_of(&entries, 100, 0), entries);
}

#[test]
fn a_page_beyond_the_end_is_empty() {
    let entries = numbered(7);
    assert_eq!(page_of(&entries, 3, 3), vec![]);
    assert_eq!(page_of(&entries, 7, 1), vec![]);
    assert_eq!(page_of(&entries, u16::MAX, usize::MAX), vec![]);
    assert_eq!(page_of(&entries, 2, usize::MAX), vec![]);
    assert_eq!(page_of(&vec![], 10, 0), vec![]);
}

#[test]
fn a_page_of_size_zero_is_empty() {
    let entries = numbered(7);
    assert_eq!(page_of(&entries, 0, 0), vec![]);
    assert_eq!(page_of(&entries, 0, 5), vec![]);
}

#[test]
fn a_new_handle_is_empty() {
    let handle = ReadOnlyHandle::new(ledger());
    assert_eq!(handle.entries_at_last_catch_up(&s("accounts")), Ok(&vec![]));
    assert_eq!(handle.entries_at_last_catch_up(&s("balances")), Ok(&vec![]));
    assert_eq!(handle.primary_db_name(), "Ledger");
    assert_eq!(
        handle.describe_tables(),
        vec![(s("accounts"), (s("String"), s("String"))), (s("balances"), (s("i32"), s("String")))]
    );
}

#[test]
fn accounts_and_balances_scenario() {
    let mut handle = ReadOnlyHandle::new(ledger());
    let accounts = vec![(format!("{:?}", "a"), format!("{:?}", "1"))];
    let balances = vec![(format!("{:?}", 7), format!("{:?}", "x"))];
    assert_eq!(
        handle.dump(&s("accounts"), accounts.clone(), 10, 0),
        Ok(vec![(s("\"a\""), s("\"1\""))])
    );
    assert_eq!(handle.count_keys(&s("balances"), balances.clone()), Ok(1));
    assert_eq!(handle.dump(&s("balances"), balances, 10, 0), Ok(vec![(s("7"), s("\"x\""))]));
    assert_eq!(handle.dump(&s("accounts"), accounts, 10, 1), Ok(vec![]));
}

#[test]
fn counts_follow_the_last_catch_up() {
    let mut handle = ReadOnlyHandle::new(ledger());
    assert_eq!(handle.count_keys(&s("accounts"), numbered(5)), Ok(5));
    assert_eq!(handle.entries_at_last_catch_up(&s("accounts")), Ok(&numbered(5)));
    assert_eq!(handle.entries_at_last_catch_up(&s("balances")), Ok(&vec![]));
    assert_eq!(handle.count_keys(&s("accounts"), numbered(8)), Ok(8));
    assert_eq!(handle.dump(&s("accounts"), numbered(8), 3, 2), Ok(numbered(8)[6..8].to_vec()));
    assert_eq!(handle.entries_at_last_catch_up(&s("accounts")), Ok(&numbered(8)));
    assert_eq!(handle.dump(&s("balances"), numbered(2), 1, 1), Ok(numbered(2)[1..2].to_vec()));
    assert_eq!(handle.entries_at_last_catch_up(&s("accounts")), Ok(&numbered(8)));
    assert_eq!(handle.entries_at_last_catch_up(&s("balances")), Ok(&numbered(2)));
}

#[test]
fn unknown_tables_are_not_found() {
    let mut handle = ReadOnlyHandle::new(ledger());
    assert_eq!(handle.dump(&s("missing"), numbered(2), 10, 0), Err(NotFoundError(s("missing"))));
    assert_eq!(handle.count_keys(&s("missing"), numbered(2)), Err(NotFoundError(s("missing"))));
    assert_eq!(handle.locate(&s("missing")), Err(NotFoundError(s("missing"))));
    assert_eq!(handle.entries_at_last_catch_up(&s("missing")), Err(NotFoundError(s("missing"))));
    assert_eq!(handle.entries_at_last_catch_up(&s("accounts")), Ok(&vec![]));
    assert_eq!(handle.locate(&s("balances")), Ok(1));
}

#[test]
fn tables_are_addressed_by_owned_names_too() {
    let mut handle = ReadOnlyHandle::new(ledger());
    assert_eq!(handle.dump_table(s("balances"), numbered(4), 3, 1), Ok(numbered(4)[3..4].to_vec()));
    assert_eq!(handle.count_table_keys(s("balances"), numbered(4)), Ok(4));
    assert_eq!(handle.dump_table(s("missing"), numbered(4), 3, 1), Err(NotFoundError(s("missing"))));
    assert_eq!(handle.count_table_keys(s("missing"), vec![]), Err(NotFoundError(s("missing"))));
    assert_eq!(handle.describe_all_tables(), handle.describe_tables());
}

#[test]
fn memory_usage_is_tables_and_cache() {
    let stats = MemoryUsageStats {
        mem_table_total: 4096,
        mem_table_unflushed: 1024,
        mem_table_readers_total: 77,
        cache_total: 8192,
    };
    let ok: Result<MemoryUsageStats, String> = Ok(stats);
    assert_eq!(get_memory_usage(ok), Ok((4096, 8192)));
    let failed: Result<MemoryUsageStats, String> = Err(s("engine closed"));
    assert_eq!(get_memory_usage(failed), Err(s("engine closed")));
}
