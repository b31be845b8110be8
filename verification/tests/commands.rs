use durian::api_client::{HttpMethod, RequestBody};
use durian::commands::{
    check_cache_fields, check_session_fields, clear_cache, decrypt, decrypt_batch, delete_account, delete_account_reply, encrypt,
    get_last_update_time, get_token, get_username, init_state, insert_account,
    insert_account_reply, is_key_usable, is_logged_in, load_query_cache, login, login_finish, login_opens_session, logout,
    query_accounts, query_accounts_finish, register, register_reply, save_query_cache,
    update_account, update_account_reply, validate_min_length, validate_not_empty, verify,
    QueryStep,
};
use durian::crypto::{decrypt_message, hash_core_password, hash_login_password};
use durian::database::RecordStore;
use durian::error::DurianError;
use durian::models::{
    AccountItem, ApiResponse, LoginResponseData, QueryResponseData, TempAccountRecord,
};
use durian::state::SessionSlot;

fn logged_in(username: &str) -> (SessionSlot, RecordStore) {
    let mut slot = SessionSlot::new();
    let mut store = RecordStore::new();
    init_state(
        &mut slot,
        &mut store,
        username.to_string(),
        "core password".to_string(),
        "token".to_string(),
        "http://host".to_string(),
        Some("cache.db".to_string()),
    )
    .unwrap();
    (slot, store)
}

fn item(rid: i64, website: &str, account: &str, password: &str) -> AccountItem {
    AccountItem::new(rid, website.to_string(), account.to_string(), password.to_string())
}

fn answer(mode: &str, update_time: i64, accounts: Vec<AccountItem>) -> ApiResponse<QueryResponseData> {
    ApiResponse {
        code: 0,
        msg: "ok".to_string(),
        data: Some(QueryResponseData { pull_mode: mode.to_string(), update_time, accounts }),
    }
}

const NO_SESSION: &str = "应用状态未初始化，请先登录";

#[test]
fn blank_fields_are_rejected() {
    assert_eq!(validate_not_empty("x", "用户名"), Ok(()));
    assert_eq!(validate_not_empty(" x ", "用户名"), Ok(()));
    assert_eq!(validate_not_empty("", "用户名"), Err("输入验证错误: 用户名不能为空".to_string()));
    assert_eq!(validate_not_empty("  \t\n", "密码"), Err("输入验证错误: 密码不能为空".to_string()));
    assert_eq!(validate_not_empty("\u{3000}", "网站"), Err("输入验证错误: 网站不能为空".to_string()));
}

#[test]
fn short_fields_are_rejected() {
    assert_eq!(validate_min_length("123456", 6, "密码"), Ok(()));
    assert_eq!(validate_min_length("", 0, "密码"), Ok(()));
    assert_eq!(
        validate_min_length("12345", 6, "密码"),
        Err("输入验证错误: 密码长度不能少于6个字符".to_string())
    );
    assert_eq!(validate_min_length("密码", 6, "密码"), Ok(()));
    assert_eq!(
        validate_min_length("abc", 12, "核心密码"),
        Err("输入验证错误: 核心密码长度不能少于12个字符".to_string())
    );
}

#[test]
fn init_state_checks_then_opens_the_session() {
    let mut slot = SessionSlot::new();
    let mut store = RecordStore::new();
    let attempt = |slot: &mut SessionSlot, store: &mut RecordStore, u: &str, c: &str, t: &str, a: &str| {
        init_state(slot, store, u.to_string(), c.to_string(), t.to_string(), a.to_string(), Some("db".to_string()))
    };
    assert_eq!(attempt(&mut slot, &mut store, " ", "", "", ""), Err("输入验证错误: 用户名不能为空".to_string()));
    assert_eq!(attempt(&mut slot, &mut store, "u", " ", "", ""), Err("输入验证错误: 核心密码不能为空".to_string()));
    assert_eq!(attempt(&mut slot, &mut store, "u", "c", " ", ""), Err("输入验证错误: 认证令牌不能为空".to_string()));
    assert_eq!(attempt(&mut slot, &mut store, "u", "c", "t", " "), Err("输入验证错误: API URL不能为空".to_string()));
    assert!(!is_logged_in(&slot));
    assert_eq!(
        init_state(&mut slot, &mut store, "u".into(), "c".into(), "t".into(), "a".into(), None),
        Err("配置错误: 无法获取 AppData 目录".to_string())
    );
    assert!(!is_logged_in(&slot));
    assert_eq!(attempt(&mut slot, &mut store, "u", "c", "t", "a"), Ok(()));
    assert!(is_logged_in(&slot));
    assert_eq!(get_username(&slot), Ok("u".to_string()));
    assert_eq!(get_token(&slot), Ok("t".to_string()));
    assert_eq!(get_last_update_time(&slot, &store), Ok(0));
    assert_eq!(logout(&mut slot), Ok(()));
    assert!(!is_logged_in(&slot));
    assert_eq!(get_username(&slot), Err(NO_SESSION.to_string()));
    assert_eq!(get_token(&slot), Err(NO_SESSION.to_string()));
}

#[test]
fn login_builds_the_request_and_opens_the_session() {
    assert_eq!(login(" ", "u", "p", "c").unwrap_err(), "输入验证错误: API URL不能为空");
    assert_eq!(login("a", " ", "p", "c").unwrap_err(), "输入验证错误: 用户名不能为空");
    assert_eq!(login("a", "u", " ", "c").unwrap_err(), "输入验证错误: 密码不能为空");
    assert_eq!(login("a", "u", "p", " ").unwrap_err(), "输入验证错误: 核心密码不能为空");
    let request = login("http://host", "alice", "pw", "core").unwrap();
    assert_eq!(request.method, HttpMethod::Post);
    assert_eq!(request.url, "http://host/v1/login");
    match request.body {
        RequestBody::Credentials { username, password, core_password } => {
            assert_eq!(username, "alice");
            assert_eq!(password, hash_login_password("pw"));
            assert_eq!(core_password, hash_core_password("core"));
        }
        other => panic!("unexpected: {:?}", other),
    }

    let mut slot = SessionSlot::new();
    let mut store = RecordStore::new();
    let refused = ApiResponse { code: 1, msg: "密码错误".to_string(), data: None };
    assert_eq!(
        login_finish(&mut slot, &mut store, refused, "http://host".into(), "alice".into(), "core".into(), Some("db".into())),
        Err("登录失败: 密码错误".to_string())
    );
    let hollow: ApiResponse<LoginResponseData> = ApiResponse { code: 0, msg: "empty".to_string(), data: None };
    assert_eq!(
        login_finish(&mut slot, &mut store, hollow, "http://host".into(), "alice".into(), "core".into(), Some("db".into())),
        Err("登录失败: empty".to_string())
    );
    assert!(!is_logged_in(&slot));
    let granted = ApiResponse {
        code: 0,
        msg: "ok".to_string(),
        data: Some(LoginResponseData { token: "tok".to_string() }),
    };
    assert_eq!(
        login_finish(&mut slot, &mut store, granted, "http://host".into(), "alice".into(), "core".into(), Some("db".into())),
        Ok("tok".to_string())
    );
    assert!(is_logged_in(&slot));
    assert_eq!(get_username(&slot), Ok("alice".to_string()));
    assert_eq!(get_token(&slot), Ok("tok".to_string()));
    let blank_token = ApiResponse {
        code: 0,
        msg: "ok".to_string(),
        data: Some(LoginResponseData { token: "".to_string() }),
    };
    assert_eq!(
        login_finish(&mut slot, &mut store, blank_token, "http://host".into(), "bob".into(), "core".into(), Some("db".into())),
        Err("输入验证错误: 认证令牌不能为空".to_string())
    );
    assert_eq!(get_username(&slot), Ok("alice".to_string()));
}

#[test]
fn register_checks_lengths() {
    assert_eq!(register("a", "u", "12345", "123456").unwrap_err(), "输入验证错误: 密码长度不能少于6个字符");
    assert_eq!(register("a", "u", "123456", "12345").unwrap_err(), "输入验证错误: 核心密码长度不能少于6个字符");
    assert_eq!(register("a", " ", "123456", "123456").unwrap_err(), "输入验证错误: 用户名不能为空");
    let request = register("http://host", "alice", "123456", "abcdef").unwrap();
    assert_eq!(request.url, "http://host/v1/register");
    assert!(matches!(request.body, RequestBody::Credentials { .. }));
    assert_eq!(register_reply(0, "whatever"), Ok("注册成功".to_string()));
    assert_eq!(register_reply(2, "用户已存在"), Err("注册失败: 用户已存在".to_string()));
}

#[test]
fn verify_needs_a_session() {
    let slot = SessionSlot::new();
    assert_eq!(verify(&slot).unwrap_err(), NO_SESSION);
    let (slot, _store) = logged_in("alice");
    let request = verify(&slot).unwrap();
    assert_eq!(request.method, HttpMethod::Get);
    assert_eq!(request.url, "http://host/v1/auth/verify");
    assert_eq!(request.authorization.as_deref(), Some("token"));
}

#[test]
fn insert_account_encrypts_the_secret() {
    let (slot, _store) = logged_in("alice");
    assert_eq!(insert_account(&slot, " ", "me", "pw").unwrap_err(), "输入验证错误: 网站不能为空");
    assert_eq!(insert_account(&slot, "site", "me", " ").unwrap_err(), "输入验证错误: 密码不能为空");
    assert_eq!(insert_account(&SessionSlot::new(), "site", "me", "pw").unwrap_err(), NO_SESSION);
    let request = insert_account(&slot, "site", "", "pw").unwrap();
    assert_eq!(request.method, HttpMethod::Post);
    assert_eq!(request.url, "http://host/v1/account");
    assert_eq!(request.authorization.as_deref(), Some("token"));
    match request.body {
        RequestBody::NewAccount { website, account, password } => {
            assert_eq!(website, "site");
            assert_eq!(account, "");
            assert_ne!(password, "pw");
            assert_eq!(decrypt_message(&password, "core password").unwrap(), "pw");
        }
        other => panic!("unexpected: {:?}", other),
    }
    assert_eq!(insert_account_reply(0, ""), Ok("插入成功".to_string()));
    assert_eq!(insert_account_reply(5, "满了"), Err("插入失败: 满了".to_string()));
}

#[test]
fn update_account_checks_and_encrypts() {
    let (slot, _store) = logged_in("alice");
    assert_eq!(update_account(&slot, 0, "s", "a", "p").unwrap_err(), "输入验证错误: 无效的记录 ID");
    assert_eq!(update_account(&slot, -3, " ", " ", " ").unwrap_err(), "输入验证错误: 无效的记录 ID");
    assert_eq!(update_account(&slot, 1, " ", "a", "p").unwrap_err(), "输入验证错误: 网站不能为空");
    assert_eq!(update_account(&slot, 1, "s", " ", "p").unwrap_err(), "输入验证错误: 账户不能为空");
    assert_eq!(update_account(&slot, 1, "s", "a", " ").unwrap_err(), "输入验证错误: 密码不能为空");
    assert_eq!(update_account(&SessionSlot::new(), 1, "s", "a", "p").unwrap_err(), NO_SESSION);
    let request = update_account(&slot, 12, "s", "a", "p").unwrap();
    assert_eq!(request.method, HttpMethod::Put);
    match request.body {
        RequestBody::ChangedAccount { rid, website, account, password } => {
            assert_eq!((rid, website.as_str(), account.as_str()), (12, "s", "a"));
            assert_eq!(decrypt_message(&password, "core password").unwrap(), "p");
        }
        other => panic!("unexpected: {:?}", other),
    }
    assert_eq!(update_account_reply(0, ""), Ok("更新成功".to_string()));
    assert_eq!(update_account_reply(1, "x"), Err("更新失败: x".to_string()));
}

#[test]
fn delete_account_checks_the_id() {
    let (slot, _store) = logged_in("alice");
    assert_eq!(delete_account(&slot, 0).unwrap_err(), "输入验证错误: 无效的记录 ID");
    assert_eq!(delete_account(&SessionSlot::new(), 1).unwrap_err(), NO_SESSION);
    let request = delete_account(&slot, 9).unwrap();
    assert_eq!(request.method, HttpMethod::Delete);
    assert!(matches!(request.body, RequestBody::AccountId { rid: 9 }));
    assert_eq!(delete_account_reply(0, ""), Ok("删除成功".to_string()));
    assert_eq!(delete_account_reply(1, "x"), Err("删除失败: x".to_string()));
}

#[test]
fn encrypt_and_decrypt_use_the_session_key() {
    let (slot, _store) = logged_in("alice");
    assert_eq!(encrypt(&slot, ""), Err("输入验证错误: 加密内容不能为空".to_string()));
    assert_eq!(decrypt(&slot, ""), Err("输入验证错误: 解密内容不能为空".to_string()));
    assert_eq!(encrypt(&SessionSlot::new(), "x"), Err(NO_SESSION.to_string()));
    assert_eq!(decrypt(&SessionSlot::new(), "x"), Err(NO_SESSION.to_string()));
    let sealed = encrypt(&slot, "secret").unwrap();
    assert_eq!(decrypt(&slot, &sealed), Ok("secret".to_string()));
    assert_eq!(decrypt_message(&sealed, "core password").unwrap(), "secret");
    let (other, _s) = logged_in("bob");
    assert_eq!(decrypt(&other, &sealed), Ok("secret".to_string()));
    assert_eq!(decrypt(&slot, "garbage").unwrap_err(), "加密/解密错误: 解密失败");
}

#[test]
fn decrypt_batch_keeps_empty_entries_and_stops_at_a_failure() {
    let (slot, _store) = logged_in("alice");
    let one = encrypt(&slot, "one").unwrap();
    let two = encrypt(&slot, "two").unwrap();
    assert_eq!(decrypt_batch(&slot, &vec![]), Ok(vec![]));
    assert_eq!(
        decrypt_batch(&slot, &vec![one.clone(), String::new(), two.clone()]),
        Ok(vec!["one".to_string(), String::new(), "two".to_string()])
    );
    let failed = decrypt_batch(&slot, &vec![one, "garbage".to_string(), two]);
    assert_eq!(failed.unwrap_err(), "加密/解密错误: 解密失败");
    assert_eq!(decrypt_batch(&SessionSlot::new(), &vec![]), Err(NO_SESSION.to_string()));
}

#[test]
fn save_query_cache_checks_in_order() {
    let (slot, mut store) = logged_in("alice");
    let temps = || {
        Ok(vec![TempAccountRecord {
            rid: 1,
            website: "w".to_string(),
            account: "a".to_string(),
            password: "p".to_string(),
        }])
    };
    assert_eq!(
        save_query_cache(&slot, &mut store, " ", -1, Err("bad".to_string())),
        Err("输入验证错误: pull_mode不能为空".to_string())
    );
    assert_eq!(
        save_query_cache(&slot, &mut store, "PULL_ALL", -1, Err("bad".to_string())),
        Err("输入验证错误: 无效的更新时间".to_string())
    );
    assert_eq!(
        save_query_cache(&SessionSlot::new(), &mut store, "PULL_ALL", 1, Err("bad".to_string())),
        Err(NO_SESSION.to_string())
    );
    assert_eq!(
        save_query_cache(&slot, &mut store, "PULL_ALL", 1, Err("bad".to_string())),
        Err("解析账户数据失败: bad".to_string())
    );
    assert_eq!(
        save_query_cache(&slot, &mut store, "PULL_SOME", 1, temps()),
        Err("输入验证错误: 未知的 pull_mode: PULL_SOME".to_string())
    );
    assert_eq!(load_query_cache(&slot, &store).unwrap().map(|d| d.len()), None);
    assert_eq!(save_query_cache(&slot, &mut store, "PULL_ALL", 77, temps()), Ok(()));
    let loaded = load_query_cache(&slot, &store).unwrap().unwrap();
    assert_eq!(loaded.username, "alice");
    assert_eq!(loaded.update_time, 77);
    assert_eq!(loaded.accounts.len(), 1);
    assert_eq!(loaded.accounts[0].username, "alice");
    assert_eq!(get_last_update_time(&slot, &store), Ok(77));
    assert_eq!(clear_cache(&slot, &mut store), Ok(()));
    assert_eq!(clear_cache(&slot, &mut store), Ok(()));
    assert!(load_query_cache(&slot, &store).unwrap().is_none());
    assert_eq!(get_last_update_time(&slot, &store), Ok(0));
    assert_eq!(clear_cache(&SessionSlot::new(), &mut store), Err(NO_SESSION.to_string()));
    assert_eq!(get_last_update_time(&SessionSlot::new(), &store), Err(NO_SESSION.to_string()));
    assert_eq!(load_query_cache(&SessionSlot::new(), &store).unwrap_err(), NO_SESSION);
}

#[test]
fn first_pull_of_a_fresh_store_is_a_full_one() {
    let (slot, mut store) = logged_in("alice");
    assert_eq!(get_last_update_time(&slot, &store), Ok(0));
    match query_accounts(&slot, &store, false).unwrap() {
        QueryStep::Fetch(request) => {
            assert_eq!(request.method, HttpMethod::Get);
            assert_eq!(request.url, "http://host/v1/account?update_time=0");
            assert_eq!(request.authorization.as_deref(), Some("token"));
        }
        other => panic!("unexpected: {:?}", other),
    }
    let fetched = answer("PULL_ALL", 1000, vec![item(1, "example.com", "a@x.com", "ct1")]);
    let result = query_accounts_finish(&slot, &mut store, Ok(fetched)).unwrap();
    assert_eq!(result.username, "alice");
    assert_eq!(result.update_time, 1000);
    assert_eq!(result.accounts.len(), 1);
    let r = &result.accounts[0];
    assert_eq!(
        (r.rid, r.username.as_str(), r.website.as_str(), r.account.as_str(), r.password.as_str()),
        (1, "alice", "example.com", "a@x.com", "ct1")
    );
    let loaded = load_query_cache(&slot, &store).unwrap().unwrap();
    assert_eq!(loaded.update_time, 1000);
    assert_eq!(loaded.accounts.len(), 1);
    assert_eq!(loaded.accounts[0].website, "example.com");
    assert_eq!(loaded.accounts[0].account, "a@x.com");
    assert_eq!(loaded.accounts[0].password, "ct1");
}

#[test]
fn a_snapshot_with_records_answers_unless_forced() {
    let (slot, mut store) = logged_in("alice");
    let fetched = answer("PULL_ALL", 1000, vec![item(2, "b.com", "x", "c2"), item(1, "a.com", "y", "c1")]);
    query_accounts_finish(&slot, &mut store, Ok(fetched)).unwrap();
    match query_accounts(&slot, &store, false).unwrap() {
        QueryStep::Cached(data) => {
            assert_eq!(data.update_time, 1000);
            let sites: Vec<&str> = data.accounts.iter().map(|r| r.website.as_str()).collect();
            assert_eq!(sites, vec!["a.com", "b.com"]);
        }
        other => panic!("unexpected: {:?}", other),
    }
    match query_accounts(&slot, &store, true).unwrap() {
        QueryStep::Fetch(request) => assert_eq!(request.url, "http://host/v1/account?update_time=1000"),
        other => panic!("unexpected: {:?}", other),
    }
    let more = answer("PULL_UPDATED", 2000, vec![item(3, "0.com", "z", "c3"), item(1, "a.com", "y", "c1b")]);
    let merged = query_accounts_finish(&slot, &mut store, Ok(more)).unwrap();
    assert_eq!(merged.update_time, 2000);
    let rows: Vec<(i64, &str, &str)> =
        merged.accounts.iter().map(|r| (r.rid, r.website.as_str(), r.password.as_str())).collect();
    assert_eq!(rows, vec![(3, "0.com", "c3"), (1, "a.com", "c1b"), (2, "b.com", "c2")]);
    let same = query_accounts_finish(&slot, &mut store, Ok(answer("PULL_NOTHING", 3000, vec![]))).unwrap();
    assert_eq!(same.update_time, 3000);
    assert_eq!(same.accounts.len(), 3);
    let advanced = query_accounts_finish(&slot, &mut store, Ok(answer("PULL_UPDATED", 4000, vec![]))).unwrap();
    assert_eq!(advanced.update_time, 4000);
    assert_eq!(advanced.accounts.len(), 3);
}

#[test]
fn an_empty_snapshot_does_not_answer() {
    let (slot, mut store) = logged_in("alice");
    let emptied = query_accounts_finish(&slot, &mut store, Ok(answer("PULL_ALL", 500, vec![]))).unwrap();
    assert_eq!(emptied.update_time, 500);
    assert!(emptied.accounts.is_empty());
    match query_accounts(&slot, &store, false).unwrap() {
        QueryStep::Fetch(request) => assert_eq!(request.url, "http://host/v1/account?update_time=500"),
        other => panic!("unexpected: {:?}", other),
    }
}

#[test]
fn a_failed_pull_leaves_the_store_alone() {
    let (slot, mut store) = logged_in("alice");
    query_accounts_finish(&slot, &mut store, Ok(answer("PULL_ALL", 1000, vec![item(1, "a.com", "y", "c1")])))
        .unwrap();
    let timeout = DurianError::from_transport(true, false, "");
    assert_eq!(
        query_accounts_finish(&slot, &mut store, Err(timeout)).unwrap_err(),
        "网络请求失败: 请求超时"
    );
    let refused = ApiResponse { code: 401, msg: "未授权".to_string(), data: None };
    assert_eq!(query_accounts_finish(&slot, &mut store, Ok(refused)).unwrap_err(), "查询失败: 未授权");
    let hollow = ApiResponse { code: 0, msg: "无数据".to_string(), data: None };
    assert_eq!(query_accounts_finish(&slot, &mut store, Ok(hollow)).unwrap_err(), "查询失败: 无数据");
    let unknown = answer("PULL_SOME", 2000, vec![item(2, "b.com", "y", "c2")]);
    assert_eq!(
        query_accounts_finish(&slot, &mut store, Ok(unknown)).unwrap_err(),
        "输入验证错误: 未知的 pull_mode: PULL_SOME"
    );
    let repeated = answer("PULL_ALL", 2000, vec![item(2, "b.com", "y", "c2"), item(2, "c.com", "y", "c3")]);
    assert_eq!(
        query_accounts_finish(&slot, &mut store, Ok(repeated)).unwrap_err(),
        "数据库错误: 同一用户的记录 ID 重复"
    );
    assert_eq!(
        query_accounts_finish(&SessionSlot::new(), &mut store, Ok(answer("PULL_ALL", 9, vec![]))).unwrap_err(),
        NO_SESSION
    );
    assert_eq!(get_last_update_time(&slot, &store), Ok(1000));
    let loaded = load_query_cache(&slot, &store).unwrap().unwrap();
    assert_eq!(loaded.accounts.len(), 1);
    assert_eq!(loaded.accounts[0].password, "c1");
    assert_eq!(query_accounts(&SessionSlot::new(), &store, false).unwrap_err(), NO_SESSION);
}

#[test]
fn a_pull_that_writes_a_zero_watermark_reports_the_servers_message() {
    let (slot, mut store) = logged_in("alice");
    let zero = answer("PULL_ALL", 0, vec![item(1, "a.com", "y", "c1")]);
    assert_eq!(query_accounts_finish(&slot, &mut store, Ok(zero)).unwrap_err(), "查询失败: ok");
    assert_eq!(get_last_update_time(&slot, &store), Ok(0));
}

#[test]
fn session_fields_are_checked_before_a_session_is_opened() {
    assert_eq!(check_session_fields("u", "c", "t", "a"), Ok(()));
    assert_eq!(check_session_fields("", "c", "t", "a"), Err("输入验证错误: 用户名不能为空".to_string()));
    assert_eq!(check_session_fields("u", "\t", "t", "a"), Err("输入验证错误: 核心密码不能为空".to_string()));
    assert_eq!(check_session_fields("u", "c", " ", "a"), Err("输入验证错误: 认证令牌不能为空".to_string()));
    assert_eq!(check_session_fields("u", "c", "t", "\u{2003}"), Err("输入验证错误: API URL不能为空".to_string()));
    let granted = ApiResponse {
        code: 0,
        msg: "ok".to_string(),
        data: Some(LoginResponseData { token: "tok".to_string() }),
    };
    assert!(login_opens_session(&granted, "http://host", "alice", "core"));
    assert!(!login_opens_session(&granted, "http://host", " ", "core"));
    assert!(!login_opens_session(&granted, "http://host", "alice", ""));
    let refused = ApiResponse { code: 7, msg: "no".to_string(), data: granted.data.clone() };
    assert!(!login_opens_session(&refused, "http://host", "alice", "core"));
    let hollow: ApiResponse<LoginResponseData> = ApiResponse { code: 0, msg: "no".to_string(), data: None };
    assert!(!login_opens_session(&hollow, "http://host", "alice", "core"));
    let blank = ApiResponse {
        code: 0,
        msg: "ok".to_string(),
        data: Some(LoginResponseData { token: " ".to_string() }),
    };
    assert!(!login_opens_session(&blank, "http://host", "alice", "core"));
}

#[test]
fn white_space_is_what_unicode_says() {
    for blank in ["", " ", "\t", "\n", "\u{b}", "\u{c}", "\r", "\u{85}", "\u{a0}", "\u{1680}", "\u{2000}",
        "\u{200a}", "\u{2028}", "\u{2029}", "\u{202f}", "\u{205f}", "\u{3000}", " \t\u{3000}\n"]
    {
        assert!(validate_not_empty(blank, "f").is_err(), "{:?}", blank);
    }
    for filled in ["a", " a ", "\u{200b}", "\u{180e}", "\u{feff}", "\u{1}", "PULL_ALL", "\u{3000}密\u{3000}"] {
        assert!(validate_not_empty(filled, "f").is_ok(), "{:?}", filled);
    }
}

#[test]
fn cache_fields_are_checked_in_order() {
    assert_eq!(check_cache_fields("PULL_ALL", 0), Ok(()));
    assert_eq!(check_cache_fields("anything", 5), Ok(()));
    assert_eq!(check_cache_fields(" ", -1), Err("输入验证错误: pull_mode不能为空".to_string()));
    assert_eq!(check_cache_fields("PULL_ALL", -1), Err("输入验证错误: 无效的更新时间".to_string()));
}

#[test]
fn a_session_key_of_ordinary_length_is_usable() {
    let (slot, _store) = logged_in("alice");
    assert!(is_key_usable(&slot));
    assert!(is_key_usable(&SessionSlot::new()));
}
