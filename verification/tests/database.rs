use durian::database::{
    batch_insert_accounts, batch_upsert_accounts, clear_user_cache, get_account_count,
    get_last_update_time, init_database, load_cache_data, save_cache_data,
    save_cache_data_with_mode, PullMode, RecordStore,
};
use durian::error::DurianError;
use durian::models::{AccountRecord, CacheData};

fn create_test_db() -> RecordStore {
    let mut store = RecordStore::new();
    init_database(&mut store).unwrap();
    store
}

fn record(rid: i64, username: &str, website: &str, account: &str, password: &str) -> AccountRecord {
    AccountRecord {
        rid,
        username: username.to_string(),
        website: website.to_string(),
        account: account.to_string(),
        password: password.to_string(),
    }
}

fn snapshot(username: &str, update_time: i64, accounts: Vec<AccountRecord>) -> CacheData {
    CacheData { username: username.to_string(), update_time, accounts }
}

fn fields(r: &AccountRecord) -> (i64, &str, &str, &str, &str) {
    (r.rid, r.username.as_str(), r.website.as_str(), r.account.as_str(), r.password.as_str())
}

#[test]
fn test_init_database() {
    let mut store = RecordStore::new();
    let result = init_database(&mut store);
    assert!(result.is_ok());
}

#[test]
fn test_pull_mode_parsing() {
    assert_eq!(PullMode::from_str("PULL_ALL").unwrap(), PullMode::PullAll);
    assert_eq!(PullMode::from_str("PULL_UPDATED").unwrap(), PullMode::PullUpdated);
    assert_eq!(PullMode::from_str("PULL_NOTHING").unwrap(), PullMode::PullNothing);
    assert!(PullMode::from_str("INVALID").is_err());
}

#[test]
fn test_save_and_load_cache_data() {
    let mut store = create_test_db();
    let username = "test_user";

    let cache_data = CacheData {
        username: username.to_string(),
        update_time: 1234567890,
        accounts: vec![AccountRecord {
            rid: 1,
            username: username.to_string(),
            website: "example.com".to_string(),
            account: "user@example.com".to_string(),
            password: "encrypted_password".to_string(),
        }],
    };

    save_cache_data(&mut store, username, &cache_data, "PULL_ALL").unwrap();

    let loaded = load_cache_data(&store, username).unwrap();
    assert!(loaded.is_some());

    let loaded = loaded.unwrap();
    assert_eq!(loaded.update_time, 1234567890);
    assert_eq!(loaded.accounts.len(), 1);
    assert_eq!(loaded.accounts[0].website, "example.com");
}

#[test]
fn test_incremental_update() {
    let mut store = create_test_db();
    let username = "test_user";

    let cache_data = CacheData {
        username: username.to_string(),
        update_time: 1000,
        accounts: vec![AccountRecord {
            rid: 1,
            username: username.to_string(),
            website: "site1.com".to_string(),
            account: "user1".to_string(),
            password: "pass1".to_string(),
        }],
    };
    save_cache_data(&mut store, username, &cache_data, "PULL_ALL").unwrap();

    let update_data = CacheData {
        username: username.to_string(),
        update_time: 2000,
        accounts: vec![AccountRecord {
            rid: 2,
            username: username.to_string(),
            website: "site2.com".to_string(),
            account: "user2".to_string(),
            password: "pass2".to_string(),
        }],
    };
    save_cache_data(&mut store, username, &update_data, "PULL_UPDATED").unwrap();

    let count = get_account_count(&store, username).unwrap();
    assert_eq!(count, 2);
}

#[test]
fn test_get_last_update_time() {
    let mut store = create_test_db();
    let username = "test_user";

    let time = get_last_update_time(&store, username).unwrap();
    assert_eq!(time, 0);

    let cache_data = CacheData {
        username: username.to_string(),
        update_time: 9999999,
        accounts: vec![],
    };
    save_cache_data(&mut store, username, &cache_data, "PULL_ALL").unwrap();

    let time = get_last_update_time(&store, username).unwrap();
    assert_eq!(time, 9999999);
}

#[test]
fn test_clear_user_cache() {
    let mut store = create_test_db();
    let username = "test_user";

    let cache_data = CacheData {
        username: username.to_string(),
        update_time: 1234567890,
        accounts: vec![AccountRecord {
            rid: 1,
            username: username.to_string(),
            website: "example.com".to_string(),
            account: "user@example.com".to_string(),
            password: "encrypted_password".to_string(),
        }],
    };
    save_cache_data(&mut store, username, &cache_data, "PULL_ALL").unwrap();

    clear_user_cache(&mut store, username).unwrap();

    let loaded = load_cache_data(&store, username).unwrap();
    assert!(loaded.is_none());
}

#[test]
fn unknown_mode_is_refused_with_its_name() {
    match PullMode::from_str("INVALID") {
        Err(DurianError::UnknownPullMode(m)) => assert_eq!(m, "INVALID"),
        other => panic!("unexpected: {:?}", other),
    }
    match PullMode::from_str("pull_all") {
        Err(DurianError::UnknownPullMode(m)) => assert_eq!(m, "pull_all"),
        other => panic!("unexpected: {:?}", other),
    }
    let mut store = create_test_db();
    let data = snapshot("u", 5, vec![record(1, "u", "s", "a", "p")]);
    match save_cache_data(&mut store, "u", &data, "") {
        Err(DurianError::UnknownPullMode(m)) => assert_eq!(m, ""),
        other => panic!("unexpected: {:?}", other),
    }
    assert_eq!(get_last_update_time(&store, "u").unwrap(), 0);
    assert_eq!(get_account_count(&store, "u").unwrap(), 0);
}

#[test]
fn a_store_without_tables_refuses_everything() {
    let mut store = RecordStore::new();
    let data = snapshot("u", 5, vec![]);
    match save_cache_data_with_mode(&mut store, "u", &data, PullMode::PullNothing) {
        Err(DurianError::DatabaseError(m)) => assert_eq!(m, "缓存尚未初始化"),
        other => panic!("unexpected: {:?}", other),
    }
    match load_cache_data(&store, "u") {
        Err(DurianError::DatabaseError(m)) => assert_eq!(m, "缓存尚未初始化"),
        other => panic!("unexpected: {:?}", other),
    }
    match get_last_update_time(&store, "u") {
        Err(DurianError::DatabaseError(m)) => assert_eq!(m, "缓存尚未初始化"),
        other => panic!("unexpected: {:?}", other),
    }
    match clear_user_cache(&mut store, "u") {
        Err(DurianError::DatabaseError(m)) => assert_eq!(m, "缓存尚未初始化"),
        other => panic!("unexpected: {:?}", other),
    }
    match get_account_count(&store, "u") {
        Err(DurianError::DatabaseError(m)) => assert_eq!(m, "缓存尚未初始化"),
        other => panic!("unexpected: {:?}", other),
    }
}

#[test]
fn init_keeps_what_the_store_holds() {
    let mut store = create_test_db();
    let data = snapshot("u", 5, vec![record(1, "u", "s", "a", "p")]);
    save_cache_data(&mut store, "u", &data, "PULL_ALL").unwrap();
    init_database(&mut store).unwrap();
    assert_eq!(get_last_update_time(&store, "u").unwrap(), 5);
    assert_eq!(get_account_count(&store, "u").unwrap(), 1);
}

#[test]
fn full_sync_of_nothing_leaves_an_empty_snapshot() {
    let mut store = create_test_db();
    let first = snapshot("u", 10, vec![record(1, "u", "s1", "a", "p"), record(2, "u", "s2", "a", "p")]);
    save_cache_data(&mut store, "u", &first, "PULL_ALL").unwrap();
    assert_eq!(get_account_count(&store, "u").unwrap(), 2);
    save_cache_data(&mut store, "u", &snapshot("u", 20, vec![]), "PULL_ALL").unwrap();
    let loaded = load_cache_data(&store, "u").unwrap().unwrap();
    assert_eq!(loaded.update_time, 20);
    assert_eq!(loaded.username, "u");
    assert!(loaded.accounts.is_empty());
    assert!(loaded.is_empty());
    assert_eq!(get_account_count(&store, "u").unwrap(), 0);
}

#[test]
fn a_zero_watermark_means_no_snapshot() {
    let mut store = create_test_db();
    let data = snapshot("u", 0, vec![record(1, "u", "s1", "a", "p")]);
    save_cache_data(&mut store, "u", &data, "PULL_ALL").unwrap();
    assert!(load_cache_data(&store, "u").unwrap().is_none());
    assert_eq!(get_last_update_time(&store, "u").unwrap(), 0);
    assert_eq!(get_account_count(&store, "u").unwrap(), 1);
}

#[test]
fn incremental_sync_overwrites_the_record_with_the_same_id() {
    let mut store = create_test_db();
    save_cache_data(&mut store, "u", &snapshot("u", 1, vec![record(7, "u", "old.com", "a", "p")]), "PULL_ALL")
        .unwrap();
    save_cache_data(
        &mut store,
        "u",
        &snapshot("u", 2, vec![record(7, "u", "new.com", "b", "q")]),
        "PULL_UPDATED",
    )
    .unwrap();
    assert_eq!(get_account_count(&store, "u").unwrap(), 1);
    let loaded = load_cache_data(&store, "u").unwrap().unwrap();
    assert_eq!(loaded.update_time, 2);
    assert_eq!(loaded.accounts.len(), 1);
    assert_eq!(fields(&loaded.accounts[0]), (7, "u", "new.com", "b", "q"));
}

#[test]
fn incremental_sync_of_nothing_only_advances_the_watermark() {
    let mut store = create_test_db();
    save_cache_data(&mut store, "u", &snapshot("u", 1, vec![record(7, "u", "s", "a", "p")]), "PULL_ALL")
        .unwrap();
    save_cache_data(&mut store, "u", &snapshot("u", 2, vec![]), "PULL_UPDATED").unwrap();
    let loaded = load_cache_data(&store, "u").unwrap().unwrap();
    assert_eq!(loaded.update_time, 2);
    assert_eq!(loaded.accounts.len(), 1);
    assert_eq!(fields(&loaded.accounts[0]), (7, "u", "s", "a", "p"));
}

#[test]
fn no_change_ignores_the_records_and_advances_the_watermark() {
    let mut store = create_test_db();
    save_cache_data(&mut store, "u", &snapshot("u", 1, vec![record(7, "u", "s", "a", "p")]), "PULL_ALL")
        .unwrap();
    save_cache_data(
        &mut store,
        "u",
        &snapshot("u", 3, vec![record(8, "u", "t", "a", "p")]),
        "PULL_NOTHING",
    )
    .unwrap();
    let loaded = load_cache_data(&store, "u").unwrap().unwrap();
    assert_eq!(loaded.update_time, 3);
    assert_eq!(loaded.accounts.len(), 1);
    assert_eq!(loaded.accounts[0].rid, 7);
}

#[test]
fn later_record_of_an_incremental_batch_wins() {
    let mut store = create_test_db();
    let batch = vec![record(1, "u", "first", "a", "p"), record(1, "u", "second", "a", "p")];
    save_cache_data(&mut store, "u", &snapshot("u", 1, batch), "PULL_UPDATED").unwrap();
    let loaded = load_cache_data(&store, "u").unwrap().unwrap();
    assert_eq!(loaded.accounts.len(), 1);
    assert_eq!(loaded.accounts[0].website, "second");
}

#[test]
fn full_sync_with_a_repeated_id_fails_and_changes_nothing() {
    let mut store = create_test_db();
    save_cache_data(&mut store, "u", &snapshot("u", 1, vec![record(7, "u", "s", "a", "p")]), "PULL_ALL")
        .unwrap();
    let batch = vec![record(1, "u", "x", "a", "p"), record(2, "u", "y", "a", "p"), record(1, "u", "z", "a", "p")];
    match save_cache_data(&mut store, "u", &snapshot("u", 9, batch), "PULL_ALL") {
        Err(DurianError::DatabaseError(m)) => {
            assert_eq!(m, "同一用户的记录 ID 重复")
        }
        other => panic!("unexpected: {:?}", other),
    }
    assert_eq!(get_last_update_time(&store, "u").unwrap(), 1);
    let loaded = load_cache_data(&store, "u").unwrap().unwrap();
    assert_eq!(loaded.accounts.len(), 1);
    assert_eq!(fields(&loaded.accounts[0]), (7, "u", "s", "a", "p"));
}

#[test]
fn snapshot_is_ordered_by_site() {
    let mut store = create_test_db();
    let batch = vec![
        record(1, "u", "zeta.com", "a", "p"),
        record(2, "u", "alpha.com", "a", "p"),
        record(3, "u", "Beta.com", "a", "p"),
        record(4, "u", "alpha", "a", "p"),
        record(5, "u", "", "a", "p"),
        record(6, "u", "ösi.at", "a", "p"),
    ];
    save_cache_data(&mut store, "u", &snapshot("u", 1, batch), "PULL_ALL").unwrap();
    let loaded = load_cache_data(&store, "u").unwrap().unwrap();
    let sites: Vec<&str> = loaded.accounts.iter().map(|r| r.website.as_str()).collect();
    assert_eq!(sites, vec!["", "Beta.com", "alpha", "alpha.com", "zeta.com", "ösi.at"]);
    let ids: Vec<i64> = loaded.accounts.iter().map(|r| r.rid).collect();
    assert_eq!(ids, vec![5, 3, 4, 2, 1, 6]);
}

#[test]
fn records_are_stored_for_the_user_the_call_names() {
    let mut store = create_test_db();
    let batch = vec![record(1, "somebody else", "s", "a", "p")];
    save_cache_data(&mut store, "u", &snapshot("ignored", 1, batch), "PULL_ALL").unwrap();
    assert_eq!(get_account_count(&store, "u").unwrap(), 1);
    assert_eq!(get_account_count(&store, "somebody else").unwrap(), 0);
    let loaded = load_cache_data(&store, "u").unwrap().unwrap();
    assert_eq!(loaded.username, "u");
    assert_eq!(loaded.accounts[0].username, "u");
}

#[test]
fn users_do_not_see_each_other() {
    let mut store = create_test_db();
    save_cache_data(&mut store, "a", &snapshot("a", 1, vec![record(1, "a", "sa", "x", "p")]), "PULL_ALL")
        .unwrap();
    save_cache_data(&mut store, "b", &snapshot("b", 2, vec![record(1, "b", "sb", "y", "q")]), "PULL_ALL")
        .unwrap();
    assert_eq!(get_account_count(&store, "a").unwrap(), 1);
    assert_eq!(get_account_count(&store, "b").unwrap(), 1);
    save_cache_data(&mut store, "a", &snapshot("a", 3, vec![]), "PULL_ALL").unwrap();
    assert_eq!(get_account_count(&store, "a").unwrap(), 0);
    assert_eq!(get_last_update_time(&store, "b").unwrap(), 2);
    let loaded = load_cache_data(&store, "b").unwrap().unwrap();
    assert_eq!(fields(&loaded.accounts[0]), (1, "b", "sb", "y", "q"));
    clear_user_cache(&mut store, "b").unwrap();
    assert_eq!(get_last_update_time(&store, "a").unwrap(), 3);
    assert_eq!(get_last_update_time(&store, "b").unwrap(), 0);
}

#[test]
fn clearing_twice_is_no_error() {
    let mut store = create_test_db();
    save_cache_data(&mut store, "u", &snapshot("u", 1, vec![record(1, "u", "s", "a", "p")]), "PULL_ALL")
        .unwrap();
    clear_user_cache(&mut store, "u").unwrap();
    clear_user_cache(&mut store, "u").unwrap();
    clear_user_cache(&mut store, "never seen").unwrap();
    assert!(load_cache_data(&store, "u").unwrap().is_none());
    assert_eq!(get_last_update_time(&store, "u").unwrap(), 0);
    assert_eq!(get_account_count(&store, "u").unwrap(), 0);
}

#[test]
fn batch_insert_stops_at_an_existing_key() {
    let mut rows = vec![record(1, "u", "s", "a", "p")];
    let r = batch_insert_accounts(&mut rows, "u", &vec![record(2, "x", "t", "b", "q")]);
    assert!(r.is_ok());
    assert_eq!(rows.len(), 2);
    assert_eq!(fields(&rows[1]), (2, "u", "t", "b", "q"));
    let r = batch_insert_accounts(&mut rows, "u", &vec![record(1, "u", "t", "b", "q")]);
    assert!(matches!(r, Err(DurianError::DatabaseError(_))));
    let r = batch_insert_accounts(&mut rows, "v", &vec![record(1, "v", "t", "b", "q")]);
    assert!(r.is_ok());
    assert_eq!(rows.len(), 3);
}

#[test]
fn batch_upsert_replaces_or_appends() {
    let mut rows = vec![record(1, "u", "s", "a", "p"), record(1, "v", "s", "a", "p")];
    let batch = vec![record(1, "u", "t", "b", "q"), record(2, "u", "w", "c", "r")];
    batch_upsert_accounts(&mut rows, "u", &batch).unwrap();
    assert_eq!(rows.len(), 3);
    assert_eq!(fields(&rows[0]), (1, "v", "s", "a", "p"));
    assert_eq!(fields(&rows[1]), (1, "u", "t", "b", "q"));
    assert_eq!(fields(&rows[2]), (2, "u", "w", "c", "r"));
}

#[test]
fn a_store_comes_back_from_what_it_exported() {
    let mut store = create_test_db();
    save_cache_data(&mut store, "a", &snapshot("a", 1, vec![record(1, "a", "sa", "x", "p")]), "PULL_ALL")
        .unwrap();
    save_cache_data(
        &mut store,
        "b",
        &snapshot("b", 2, vec![record(1, "b", "sb", "y", "q"), record(2, "b", "sc", "z", "r")]),
        "PULL_ALL",
    )
    .unwrap();
    assert!(store.is_ready());
    let watermarks = store.export_watermarks();
    let accounts = store.export_accounts();
    assert_eq!(watermarks.len(), 2);
    assert_eq!(accounts.len(), 3);
    let copy = RecordStore::import(true, &watermarks, &accounts);
    assert_eq!(get_last_update_time(&copy, "a").unwrap(), 1);
    assert_eq!(get_last_update_time(&copy, "b").unwrap(), 2);
    assert_eq!(get_account_count(&copy, "a").unwrap(), 1);
    assert_eq!(get_account_count(&copy, "b").unwrap(), 2);
    let loaded = load_cache_data(&copy, "b").unwrap().unwrap();
    assert_eq!(fields(&loaded.accounts[0]), (1, "b", "sb", "y", "q"));
    assert_eq!(fields(&loaded.accounts[1]), (2, "b", "sc", "z", "r"));

    let unready = RecordStore::import(false, &watermarks, &accounts);
    assert!(!unready.is_ready());
    assert!(get_last_update_time(&unready, "a").is_err());

    let repeated = vec![record(1, "a", "first", "x", "p"), record(1, "a", "second", "x", "p")];
    let merged = RecordStore::import(true, &vec![("a".to_string(), 5), ("a".to_string(), 6)], &repeated);
    assert_eq!(get_last_update_time(&merged, "a").unwrap(), 6);
    assert_eq!(get_account_count(&merged, "a").unwrap(), 1);
    assert_eq!(load_cache_data(&merged, "a").unwrap().unwrap().accounts[0].website, "second");
}

#[test]
fn records_of_the_same_site_keep_table_order() {
    let mut store = create_test_db();
    let batch = vec![
        record(5, "u", "same.com", "e", "p"),
        record(1, "u", "same.com", "a", "p"),
        record(3, "u", "other.com", "c", "p"),
        record(2, "u", "same.com", "b", "p"),
    ];
    save_cache_data(&mut store, "u", &snapshot("u", 1, batch), "PULL_ALL").unwrap();
    let first = load_cache_data(&store, "u").unwrap().unwrap();
    let ids: Vec<i64> = first.accounts.iter().map(|r| r.rid).collect();
    assert_eq!(ids, vec![3, 5, 1, 2]);
    let second = load_cache_data(&store, "u").unwrap().unwrap();
    assert_eq!(second.update_time, first.update_time);
    assert_eq!(second.username, first.username);
    let again: Vec<_> = second.accounts.iter().map(fields).collect();
    let before: Vec<_> = first.accounts.iter().map(fields).collect();
    assert_eq!(again, before);
    save_cache_data(&mut store, "u", &snapshot("u", 2, vec![record(5, "u", "same.com", "E", "p")]), "PULL_UPDATED")
        .unwrap();
    let third = load_cache_data(&store, "u").unwrap().unwrap();
    let ids: Vec<i64> = third.accounts.iter().map(|r| r.rid).collect();
    assert_eq!(ids, vec![3, 1, 2, 5]);
}
