//! The operations offered to the user interface. Each checks its input, works on the
//! session and the store that the caller lends it, and reports a failure as the message to
//! show. An operation that needs the server comes in two parts: the first returns the
//! request to send, the second takes the server's answer.

use vstd::prelude::*;
use vstd::string::*;
use crate::api_client::{
    api_delete_account, api_insert_account, api_login, api_query_accounts, api_register,
    api_update_account, api_verify, credentials_request, ApiRequest, ApiRequestView, HttpMethod,
    RequestBodyView,
};
use crate::crypto::{
    decrypt_message, decrypt_spec, encrypt_message, hashable, is_hashable, openable, sealable,
};
use crate::database::{parse_pull_mode, RecordStore};
use crate::store_model::{
    cleared, is_snapshot, lemma_in_site_order, rows_of, sync_accepted, sync_refusal, synced, watermark_or_zero,
    StoreView,
};
use crate::error::{error_text, DurianError, ErrorView};
use crate::models::{
    items_view, records_from_items, records_from_temps, records_of, temps_view, AccountRecordView,
    ApiResponse, CacheData, LoginResponseData, QueryResponseData, TempAccountRecord,
};
use crate::state::{
    clear_state, get_state, is_state_initialized, set_global_state, DurianState, SessionSlot,
};
use crate::text::{
    decimal_digits, decimal_text, is_white_space, lemma_trims_to_nothing, str_trim,
    trim_white_space, usize_to_text,
};

verus! {

/// Whether a text is empty but for white space.
pub open spec fn is_blank(value: Seq<char>) -> bool {
    trim_white_space(value).len() == 0
}

/// A text is blank exactly where each of its characters is white space; the empty text is.
pub proof fn lemma_blank(value: Seq<char>)
    ensures
        is_blank(value) <==> forall|i: int| 0 <= i < value.len() ==> is_white_space(value[i]),
        value.len() == 0 ==> is_blank(value),
{
    lemma_trims_to_nothing(value);
}

/// The message that rejects a blank field.
pub open spec fn blank_message(field_name: Seq<char>) -> Seq<char> {
    error_text(ErrorView::ValidationError(field_name + "不能为空"@))
}

/// The message that rejects a field shorter than `min_len` bytes.
pub open spec fn short_message(field_name: Seq<char>, min_len: nat) -> Seq<char> {
    error_text(
        ErrorView::ValidationError(
            field_name + "长度不能少于"@ + decimal_digits(min_len) + "个字符"@,
        ),
    )
}

/// The message shown where no session is live.
pub open spec fn no_session_message() -> Seq<char> {
    error_text(ErrorView::StateNotInitialized)
}

/// Accepts a text that is not blank.
pub fn validate_not_empty(value: &str, field_name: &str) -> (r: Result<(), String>)
    ensures
        is_blank(value@) ==> r is Err && r->Err_0@ == blank_message(field_name@),
        !is_blank(value@) ==> r is Ok && value@.len() > 0,
{
    proof {
        lemma_trims_to_nothing(value@);
    }
    if str_trim(value).is_empty() {
        let detail = String::from_str(field_name).concat("不能为空");
        Err(DurianError::ValidationError(detail).to_string())
    } else {
        Ok(())
    }
}

/// Accepts a text of at least `min_len` bytes.
pub fn validate_min_length(value: &str, min_len: usize, field_name: &str) -> (r: Result<(), String>)
    ensures
        value.spec_bytes().len() < min_len ==> r is Err && r->Err_0@ == short_message(
            field_name@,
            min_len as nat,
        ),
        value.spec_bytes().len() >= min_len ==> r is Ok,
{
    if value.as_bytes().len() < min_len {
        let number = usize_to_text(min_len);
        let detail = String::from_str(field_name).concat("长度不能少于").concat(
            number.as_str(),
        ).concat("个字符");
        Err(DurianError::ValidationError(detail).to_string())
    } else {
        Ok(())
    }
}

/// The first of the four session fields that is blank, as the message that rejects it.
pub open spec fn blank_session_field(
    username: Seq<char>,
    core_password: Seq<char>,
    token: Seq<char>,
    api_base_url: Seq<char>,
) -> Option<Seq<char>> {
    if is_blank(username) {
        Some(blank_message("用户名"@))
    } else if is_blank(core_password) {
        Some(blank_message("核心密码"@))
    } else if is_blank(token) {
        Some(blank_message("认证令牌"@))
    } else if is_blank(api_base_url) {
        Some(blank_message("API URL"@))
    } else {
        None
    }
}

/// Checks the four session fields in order: none may be blank.
pub fn check_session_fields(username: &str, core_password: &str, token: &str, api_base_url: &str) -> (r:
    Result<(), String>)
    ensures
        match blank_session_field(username@, core_password@, token@, api_base_url@) {
            Some(message) => r is Err && r->Err_0@ == message,
            None => r is Ok && username@.len() > 0 && core_password@.len() > 0 && token@.len() > 0
                && api_base_url@.len() > 0,
        },
{
    match validate_not_empty(username, "用户名") {
        Ok(()) => {},
        Err(message) => {
            return Err(message);
        },
    }
    match validate_not_empty(core_password, "核心密码") {
        Ok(()) => {},
        Err(message) => {
            return Err(message);
        },
    }
    match validate_not_empty(token, "认证令牌") {
        Ok(()) => {},
        Err(message) => {
            return Err(message);
        },
    }
    validate_not_empty(api_base_url, "API URL")
}

/// Opens a session for `username` and puts it into the slot. A blank field, or a store
/// location that could not be determined, is refused with its message; the slot and the
/// store are then as they were.
pub fn init_state(
    slot: &mut SessionSlot,
    store: &mut RecordStore,
    username: String,
    core_password: String,
    token: String,
    api_base_url: String,
    db_path: Option<String>,
) -> (r: Result<(), String>)
    ensures
        match blank_session_field(username@, core_password@, token@, api_base_url@) {
            Some(message) => r is Err && r->Err_0@ == message && final(slot).state == old(slot).state && final(store)@ == old(store)@,
            None => match db_path {
                None => r is Err && r->Err_0@ == error_text(
                    ErrorView::ConfigError("无法获取 AppData 目录"@),
                ) && final(slot).state == old(slot).state && final(store)@ == old(store)@,
                Some(path) => r is Ok && final(slot).state == Some(
                    DurianState { username, core_password, token, db_path: path, api_base_url },
                ) && final(store)@ == (StoreView { ready: true, ..old(store)@ }),
            },
        },
{
    match check_session_fields(
        username.as_str(),
        core_password.as_str(),
        token.as_str(),
        api_base_url.as_str(),
    ) {
        Ok(()) => {},
        Err(message) => {
            return Err(message);
        },
    }
    match DurianState::new(username, core_password, token, api_base_url, db_path, store) {
        Ok(state) => {
            set_global_state(slot, state);
            Ok(())
        },
        Err(e) => Err(e.to_string()),
    }
}

/// Ends the session.
pub fn logout(slot: &mut SessionSlot) -> (r: Result<(), String>)
    ensures
        r is Ok,
        final(slot).state is None,
{
    clear_state(slot);
    Ok(())
}

/// Whether a session is live.
pub fn is_logged_in(slot: &SessionSlot) -> (live: bool)
    ensures
        live == (slot.state is Some),
{
    is_state_initialized(slot)
}

/// The user of the live session, or the message that there is none.
pub fn get_username(slot: &SessionSlot) -> (r: Result<String, String>)
    ensures
        match slot.state {
            Some(state) => r is Ok && r->Ok_0@ == state.username@,
            None => r is Err && r->Err_0@ == no_session_message(),
        },
{
    match crate::state::get_username(slot) {
        Ok(name) => Ok(name),
        Err(e) => Err(e.to_string()),
    }
}

/// The token of the live session, or the message that there is none.
pub fn get_token(slot: &SessionSlot) -> (r: Result<String, String>)
    ensures
        match slot.state {
            Some(state) => r is Ok && r->Ok_0@ == state.token@,
            None => r is Err && r->Err_0@ == no_session_message(),
        },
{
    match crate::state::get_token(slot) {
        Ok(token) => Ok(token),
        Err(e) => Err(e.to_string()),
    }
}

/// The model of a request that may have been refused with a message.
pub open spec fn request_or_message(r: Result<ApiRequest, String>) -> Result<
    ApiRequestView,
    Seq<char>,
> {
    match r {
        Ok(request) => Ok(request@),
        Err(message) => Err(message@),
    }
}

/// The model of a text answer that may be a refusal.
pub open spec fn text_or_message(r: Result<String, String>) -> Result<Seq<char>, Seq<char>> {
    match r {
        Ok(text) => Ok(text@),
        Err(message) => Err(message@),
    }
}

/// The first of the four login fields that is blank, as the message that rejects it.
pub open spec fn blank_login_field(
    api_base_url: Seq<char>,
    username: Seq<char>,
    password: Seq<char>,
    core_password: Seq<char>,
) -> Option<Seq<char>> {
    if is_blank(api_base_url) {
        Some(blank_message("API URL"@))
    } else if is_blank(username) {
        Some(blank_message("用户名"@))
    } else if is_blank(password) {
        Some(blank_message("密码"@))
    } else if is_blank(core_password) {
        Some(blank_message("核心密码"@))
    } else {
        None
    }
}

/// A credentials request, or the message of the error that refuses it.
pub open spec fn credentials_or_message(
    api_base_url: Seq<char>,
    path: Seq<char>,
    username: Seq<char>,
    password: Seq<char>,
    core_password: Seq<char>,
) -> Result<ApiRequestView, Seq<char>> {
    match credentials_request(api_base_url, path, username, password, core_password) {
        Ok(request) => Ok(request),
        Err(e) => Err(error_text(e)),
    }
}

/// What [`login`] answers.
pub open spec fn login_spec(
    api_base_url: Seq<char>,
    username: Seq<char>,
    password: Seq<char>,
    core_password: Seq<char>,
) -> Result<ApiRequestView, Seq<char>> {
    match blank_login_field(api_base_url, username, password, core_password) {
        Some(message) => Err(message),
        None => credentials_or_message(
            api_base_url,
            "/v1/login"@,
            username,
            password,
            core_password,
        ),
    }
}

fn check_login_fields(api_base_url: &str, username: &str, password: &str, core_password: &str) -> (r:
    Result<(), String>)
    ensures
        match blank_login_field(api_base_url@, username@, password@, core_password@) {
            Some(message) => r is Err && r->Err_0@ == message,
            None => r is Ok,
        },
{
    match validate_not_empty(api_base_url, "API URL") {
        Ok(()) => {},
        Err(message) => {
            return Err(message);
        },
    }
    match validate_not_empty(username, "用户名") {
        Ok(()) => {},
        Err(message) => {
            return Err(message);
        },
    }
    match validate_not_empty(password, "密码") {
        Ok(()) => {},
        Err(message) => {
            return Err(message);
        },
    }
    validate_not_empty(core_password, "核心密码")
}

/// First part of a login: checks the four fields and returns the request to send.
pub fn login(api_base_url: &str, username: &str, password: &str, core_password: &str) -> (r: Result<
    ApiRequest,
    String,
>)
    requires
        hashable(password@),
        hashable(core_password@),
    ensures
        request_or_message(r) == login_spec(api_base_url@, username@, password@, core_password@),
{
    match check_login_fields(api_base_url, username, password, core_password) {
        Ok(()) => {},
        Err(message) => {
            return Err(message);
        },
    }
    match api_login(api_base_url, username, password, core_password) {
        Ok(request) => Ok(request),
        Err(e) => Err(e.to_string()),
    }
}

/// Whether the server's answer to a login opens a session: it reports success, carries a
/// token, and none of the session's fields is blank.
pub fn login_opens_session(
    response: &ApiResponse<LoginResponseData>,
    api_base_url: &str,
    username: &str,
    core_password: &str,
) -> (opens: bool)
    ensures
        opens == (response.code == 0 && response.data is Some && blank_session_field(
            username@,
            core_password@,
            response.data->0.token@,
            api_base_url@,
        ) is None),
{
    if response.code != 0 {
        return false;
    }
    match &response.data {
        Some(data) => check_session_fields(
            username,
            core_password,
            data.token.as_str(),
            api_base_url,
        ).is_ok(),
        None => false,
    }
}

/// Second part of a login: takes the server's answer. A successful answer that carries a
/// token opens the session with it and returns the token; any other answer is refused with
/// the server's message, and the slot and the store are as they were.
pub fn login_finish(
    slot: &mut SessionSlot,
    store: &mut RecordStore,
    response: ApiResponse<LoginResponseData>,
    api_base_url: String,
    username: String,
    core_password: String,
    db_path: Option<String>,
) -> (r: Result<String, String>)
    ensures
        response.code == 0 && response.data is Some ==> match blank_session_field(
            username@,
            core_password@,
            response.data->0.token@,
            api_base_url@,
        ) {
            Some(message) => r is Err && r->Err_0@ == message && final(slot).state == old(slot).state && final(store)@ == old(store)@,
            None => match db_path {
                None => r is Err && r->Err_0@ == error_text(
                    ErrorView::ConfigError("无法获取 AppData 目录"@),
                ) && final(slot).state == old(slot).state && final(store)@ == old(store)@,
                Some(path) => r is Ok && r->Ok_0@ == response.data->0.token@ && final(slot).state is Some && final(slot).state->0.username == username && final(slot).state->0.core_password == core_password && final(slot).state->0.token@
                    == response.data->0.token@ && final(slot).state->0.db_path == path && final(slot).state->0.api_base_url == api_base_url && final(store)@ == (StoreView {
                    ready: true,
                    ..old(store)@
                }),
            },
        },
        !(response.code == 0 && response.data is Some) ==> r is Err && r->Err_0@ == "登录失败: "@
            + response.msg@ && final(slot).state == old(slot).state && final(store)@ == old(store)@,
{
    if response.code == 0 {
        match response.data {
            Some(data) => {
                let token = data.token.clone();
                match init_state(slot, store, username, core_password, token, api_base_url, db_path) {
                    Ok(()) => {},
                    Err(message) => {
                        return Err(message);
                    },
                }
                return Ok(data.token);
            },
            None => {},
        }
    }
    Err(String::from_str("登录失败: ").concat(response.msg.as_str()))
}

/// What the server's verdict on a change turns into: `done` where the code is zero, else
/// `failed` followed by the server's message.
pub open spec fn reply_spec(code: int, msg: Seq<char>, done: Seq<char>, failed: Seq<char>) -> Result<
    Seq<char>,
    Seq<char>,
> {
    if code == 0 {
        Ok(done)
    } else {
        Err(failed + msg)
    }
}

fn reply(code: i32, msg: &str, done: &str, failed: &str) -> (r: Result<String, String>)
    ensures
        text_or_message(r) == reply_spec(code as int, msg@, done@, failed@),
{
    if code == 0 {
        Ok(String::from_str(done))
    } else {
        Err(String::from_str(failed).concat(msg))
    }
}

/// What [`register`] answers.
pub open spec fn register_spec(
    api_base_url: Seq<char>,
    username: Seq<char>,
    password: Seq<char>,
    core_password: Seq<char>,
) -> Result<ApiRequestView, Seq<char>> {
    match blank_login_field(api_base_url, username, password, core_password) {
        Some(message) => Err(message),
        None => if vstd::utf8::encode_utf8(password).len() < 6 {
            Err(short_message("密码"@, 6))
        } else if vstd::utf8::encode_utf8(core_password).len() < 6 {
            Err(short_message("核心密码"@, 6))
        } else {
            credentials_or_message(
                api_base_url,
                "/v1/register"@,
                username,
                password,
                core_password,
            )
        },
    }
}

/// First part of a registration: checks the four fields, and that each passphrase has at
/// least six bytes, and returns the request to send.
pub fn register(api_base_url: &str, username: &str, password: &str, core_password: &str) -> (r:
    Result<ApiRequest, String>)
    requires
        hashable(password@),
        hashable(core_password@),
    ensures
        request_or_message(r) == register_spec(
            api_base_url@,
            username@,
            password@,
            core_password@,
        ),
{
    match check_login_fields(api_base_url, username, password, core_password) {
        Ok(()) => {},
        Err(message) => {
            return Err(message);
        },
    }
    match validate_min_length(password, 6, "密码") {
        Ok(()) => {},
        Err(message) => {
            return Err(message);
        },
    }
    match validate_min_length(core_password, 6, "核心密码") {
        Ok(()) => {},
        Err(message) => {
            return Err(message);
        },
    }
    match api_register(api_base_url, username, password, core_password) {
        Ok(request) => Ok(request),
        Err(e) => Err(e.to_string()),
    }
}

/// Second part of a registration: the server's verdict as the text to show.
pub fn register_reply(code: i32, msg: &str) -> (r: Result<String, String>)
    ensures
        text_or_message(r) == reply_spec(code as int, msg@, "注册成功"@, "注册失败: "@),
{
    reply(code, msg, "注册成功", "注册失败: ")
}

/// The request that asks the server whether the session's token is still good, or the
/// message that no session is live. The verdict on the answer is
/// [`verify_outcome`](crate::api_client::verify_outcome).
pub fn verify(slot: &SessionSlot) -> (r: Result<ApiRequest, String>)
    ensures
        match slot.state {
            Some(state) => r is Ok && r->Ok_0@ == (ApiRequestView {
                method: HttpMethod::Get,
                url: state.api_base_url@ + "/v1/auth/verify"@,
                json_content: false,
                authorization: Some(state.token@),
                body: RequestBodyView::Empty,
            }),
            None => r is Err && r->Err_0@ == no_session_message(),
        },
{
    match get_state(slot) {
        Ok(guard) => {
            let state = guard.state();
            Ok(api_verify(state.api_base_url.as_str(), state.token.as_str()))
        },
        Err(e) => Err(e.to_string()),
    }
}

/// The message that rejects a record id that is not positive.
pub open spec fn bad_rid_message() -> Seq<char> {
    error_text(ErrorView::ValidationError("无效的记录 ID"@))
}

/// Whether `request` carries `body` to the account address of the session with `method`.
pub open spec fn is_account_request(
    request: ApiRequestView,
    state: DurianState,
    method: HttpMethod,
) -> bool {
    &&& request.method == method
    &&& request.url == state.api_base_url@ + "/v1/account"@
    &&& request.json_content
    &&& request.authorization == Some(state.token@)
}

/// Whether `sealed` is `secret` encrypted under the key of the session.
pub open spec fn seals(sealed: Seq<char>, secret: Seq<char>, state: DurianState) -> bool {
    decrypt_spec(sealed, state.core_password@) == Ok::<Seq<char>, ErrorView>(secret)
}

/// The message that [`encrypt_message`] refuses an empty key with.
pub open spec fn empty_key_message() -> Seq<char> {
    error_text(ErrorView::ValidationError("加密密钥不能为空"@))
}

/// Whether the key of the live session, if there is one, is short enough for the cipher.
pub open spec fn key_usable(slot: SessionSlot) -> bool {
    slot.state matches Some(state) ==> hashable(state.core_password@)
}

/// Whether the key of the live session, if there is one, is short enough for the cipher.
pub fn is_key_usable(slot: &SessionSlot) -> (fits: bool)
    ensures
        fits == key_usable(*slot),
{
    match &slot.state {
        Some(state) => is_hashable(state.core_password.as_str()),
        None => true,
    }
}

fn seal_for(state: &DurianState, secret: &str) -> (r: Result<String, String>)
    requires
        secret@.len() > 0,
        sealable(secret@),
        hashable(state.core_password@),
    ensures
        state.core_password@.len() == 0 ==> r is Err && r->Err_0@ == empty_key_message(),
        state.core_password@.len() > 0 ==> r is Ok && seals(r->Ok_0@, secret@, *state),
{
    match encrypt_message(secret, state.core_password.as_str()) {
        Ok(sealed) => Ok(sealed),
        Err(e) => Err(e.to_string()),
    }
}

/// First part of adding a record: checks the site and the secret, encrypts the secret under
/// the session's key and returns the request to send. The secret leaves the client
/// encrypted only.
pub fn insert_account(slot: &SessionSlot, website: &str, account: &str, password: &str) -> (r: Result<
    ApiRequest,
    String,
>)
    requires
        sealable(password@),
        key_usable(*slot),
    ensures
        is_blank(website@) ==> r is Err && r->Err_0@ == blank_message("网站"@),
        !is_blank(website@) && is_blank(password@) ==> r is Err && r->Err_0@ == blank_message(
            "密码"@,
        ),
        !is_blank(website@) && !is_blank(password@) ==> match slot.state {
            None => r is Err && r->Err_0@ == no_session_message(),
            Some(state) => if state.core_password@.len() == 0 {
                r is Err && r->Err_0@ == empty_key_message()
            } else {
                &&& r is Ok
                &&& is_account_request(r->Ok_0@, state, HttpMethod::Post)
                &&& r->Ok_0@.body matches RequestBodyView::NewAccount {
                    website: site,
                    account: login,
                    password: sealed,
                }
                &&& site == website@
                &&& login == account@
                &&& seals(sealed, password@, state)
            },
        },
{
    match validate_not_empty(website, "网站") {
        Ok(()) => {},
        Err(message) => {
            return Err(message);
        },
    }
    match validate_not_empty(password, "密码") {
        Ok(()) => {},
        Err(message) => {
            return Err(message);
        },
    }
    let guard = match get_state(slot) {
        Ok(guard) => guard,
        Err(e) => {
            return Err(e.to_string());
        },
    };
    let state = guard.state();
    let sealed = match seal_for(state, password) {
        Ok(sealed) => sealed,
        Err(message) => {
            return Err(message);
        },
    };
    Ok(
        api_insert_account(
            state.api_base_url.as_str(),
            state.token.as_str(),
            website,
            account,
            sealed.as_str(),
        ),
    )
}

/// Second part of adding a record: the server's verdict as the text to show.
pub fn insert_account_reply(code: i32, msg: &str) -> (r: Result<String, String>)
    ensures
        text_or_message(r) == reply_spec(code as int, msg@, "插入成功"@, "插入失败: "@),
{
    reply(code, msg, "插入成功", "插入失败: ")
}

/// The first check that an update fails, as its message.
pub open spec fn update_refusal(
    rid: int,
    website: Seq<char>,
    account: Seq<char>,
    password: Seq<char>,
) -> Option<Seq<char>> {
    if rid <= 0 {
        Some(bad_rid_message())
    } else if is_blank(website) {
        Some(blank_message("网站"@))
    } else if is_blank(account) {
        Some(blank_message("账户"@))
    } else if is_blank(password) {
        Some(blank_message("密码"@))
    } else {
        None
    }
}

/// First part of changing a record: checks the id and the three fields, encrypts the secret
/// under the session's key and returns the request to send.
pub fn update_account(slot: &SessionSlot, rid: i64, website: &str, account: &str, password: &str) -> (r:
    Result<ApiRequest, String>)
    requires
        sealable(password@),
        key_usable(*slot),
    ensures
        match update_refusal(rid as int, website@, account@, password@) {
            Some(message) => r is Err && r->Err_0@ == message,
            None => match slot.state {
                None => r is Err && r->Err_0@ == no_session_message(),
                Some(state) => if state.core_password@.len() == 0 {
                    r is Err && r->Err_0@ == empty_key_message()
                } else {
                    &&& r is Ok
                    &&& is_account_request(r->Ok_0@, state, HttpMethod::Put)
                    &&& r->Ok_0@.body matches RequestBodyView::ChangedAccount {
                        rid: id,
                        website: site,
                        account: login,
                        password: sealed,
                    }
                    &&& id == rid
                    &&& site == website@
                    &&& login == account@
                    &&& seals(sealed, password@, state)
                },
            },
        },
{
    if rid <= 0 {
        return Err(DurianError::validation("无效的记录 ID").to_string());
    }
    match validate_not_empty(website, "网站") {
        Ok(()) => {},
        Err(message) => {
            return Err(message);
        },
    }
    match validate_not_empty(account, "账户") {
        Ok(()) => {},
        Err(message) => {
            return Err(message);
        },
    }
    match validate_not_empty(password, "密码") {
        Ok(()) => {},
        Err(message) => {
            return Err(message);
        },
    }
    let guard = match get_state(slot) {
        Ok(guard) => guard,
        Err(e) => {
            return Err(e.to_string());
        },
    };
    let state = guard.state();
    let sealed = match seal_for(state, password) {
        Ok(sealed) => sealed,
        Err(message) => {
            return Err(message);
        },
    };
    Ok(
        api_update_account(
            state.api_base_url.as_str(),
            state.token.as_str(),
            rid,
            website,
            account,
            sealed.as_str(),
        ),
    )
}

/// Second part of changing a record: the server's verdict as the text to show.
pub fn update_account_reply(code: i32, msg: &str) -> (r: Result<String, String>)
    ensures
        text_or_message(r) == reply_spec(code as int, msg@, "更新成功"@, "更新失败: "@),
{
    reply(code, msg, "更新成功", "更新失败: ")
}

/// First part of deleting a record: checks the id and returns the request to send.
pub fn delete_account(slot: &SessionSlot, rid: i64) -> (r: Result<ApiRequest, String>)
    ensures
        rid <= 0 ==> r is Err && r->Err_0@ == bad_rid_message(),
        rid > 0 ==> match slot.state {
            None => r is Err && r->Err_0@ == no_session_message(),
            Some(state) => r is Ok && is_account_request(r->Ok_0@, state, HttpMethod::Delete)
                && r->Ok_0@.body == (RequestBodyView::AccountId { rid: rid as int }),
        },
{
    if rid <= 0 {
        return Err(DurianError::validation("无效的记录 ID").to_string());
    }
    match get_state(slot) {
        Ok(guard) => {
            let state = guard.state();
            Ok(api_delete_account(state.api_base_url.as_str(), state.token.as_str(), rid))
        },
        Err(e) => Err(e.to_string()),
    }
}

/// Second part of deleting a record: the server's verdict as the text to show.
pub fn delete_account_reply(code: i32, msg: &str) -> (r: Result<String, String>)
    ensures
        text_or_message(r) == reply_spec(code as int, msg@, "删除成功"@, "删除失败: "@),
{
    reply(code, msg, "删除成功", "删除失败: ")
}

/// Encrypts `message` under the key of the live session.
pub fn encrypt(slot: &SessionSlot, message: &str) -> (r: Result<String, String>)
    requires
        sealable(message@),
        key_usable(*slot),
    ensures
        message@.len() == 0 ==> r is Err && r->Err_0@ == error_text(
            ErrorView::ValidationError("加密内容不能为空"@),
        ),
        message@.len() > 0 ==> match slot.state {
            None => r is Err && r->Err_0@ == no_session_message(),
            Some(state) => if state.core_password@.len() == 0 {
                r is Err && r->Err_0@ == empty_key_message()
            } else {
                r is Ok && seals(r->Ok_0@, message@, state)
            },
        },
{
    if message.is_empty() {
        return Err(DurianError::validation("加密内容不能为空").to_string());
    }
    match get_state(slot) {
        Ok(guard) => seal_for(guard.state(), message),
        Err(e) => Err(e.to_string()),
    }
}

/// What decrypting `ciphertext` under `key` gives: the plaintext, or the message of the
/// error.
pub open spec fn decrypt_or_message(ciphertext: Seq<char>, key: Seq<char>) -> Result<
    Seq<char>,
    Seq<char>,
> {
    match decrypt_spec(ciphertext, key) {
        Ok(plain) => Ok(plain),
        Err(e) => Err(error_text(e)),
    }
}

fn open_for(state: &DurianState, ciphertext: &str) -> (r: Result<String, String>)
    requires
        openable(ciphertext@),
        hashable(state.core_password@),
    ensures
        text_or_message(r) == decrypt_or_message(ciphertext@, state.core_password@),
{
    match decrypt_message(ciphertext, state.core_password.as_str()) {
        Ok(plain) => Ok(plain),
        Err(e) => Err(e.to_string()),
    }
}

/// Decrypts `message` under the key of the live session.
pub fn decrypt(slot: &SessionSlot, message: &str) -> (r: Result<String, String>)
    requires
        openable(message@),
        key_usable(*slot),
    ensures
        message@.len() == 0 ==> r is Err && r->Err_0@ == error_text(
            ErrorView::ValidationError("解密内容不能为空"@),
        ),
        message@.len() > 0 ==> match slot.state {
            None => r is Err && r->Err_0@ == no_session_message(),
            Some(state) => text_or_message(r) == decrypt_or_message(
                message@,
                state.core_password@,
            ),
        },
{
    if message.is_empty() {
        return Err(DurianError::validation("解密内容不能为空").to_string());
    }
    match get_state(slot) {
        Ok(guard) => open_for(guard.state(), message),
        Err(e) => Err(e.to_string()),
    }
}

/// What one entry of a batch decrypts to: an empty entry stays empty.
pub open spec fn batch_entry(ciphertext: Seq<char>, key: Seq<char>) -> Result<
    Seq<char>,
    Seq<char>,
> {
    if ciphertext.len() == 0 {
        Ok(Seq::<char>::empty())
    } else {
        decrypt_or_message(ciphertext, key)
    }
}

/// Decrypts each entry under the key of the live session, in order; an empty entry stays
/// empty. The first entry that fails ends the batch with its message.
pub fn decrypt_batch(slot: &SessionSlot, messages: &Vec<String>) -> (r: Result<Vec<String>, String>)
    requires
        forall|i: int| 0 <= i < messages@.len() ==> openable(#[trigger] messages@[i]@),
        key_usable(*slot),
    ensures
        match slot.state {
            None => r is Err && r->Err_0@ == no_session_message(),
            Some(state) => match r {
                Ok(plain) => plain@.len() == messages@.len() && forall|i: int|
                    0 <= i < messages@.len() ==> batch_entry(
                        #[trigger] messages@[i]@,
                        state.core_password@,
                    ) == Ok::<Seq<char>, Seq<char>>(plain@[i]@),
                Err(message) => exists|i: int|
                    0 <= i < messages@.len() && batch_entry(
                        #[trigger] messages@[i]@,
                        state.core_password@,
                    ) == Err::<Seq<char>, Seq<char>>(message@) && forall|j: int|
                        0 <= j < i ==> batch_entry(
                            #[trigger] messages@[j]@,
                            state.core_password@,
                        ) is Ok,
            },
        },
{
    let guard = match get_state(slot) {
        Ok(guard) => guard,
        Err(e) => {
            return Err(e.to_string());
        },
    };
    let state = guard.state();
    let mut plain: Vec<String> = Vec::new();
    let mut i: usize = 0;
    while i < messages.len()
        invariant
            i <= messages.len(),
            slot.state == Some(*state),
            hashable(state.core_password@),
            forall|k: int| 0 <= k < messages@.len() ==> openable(#[trigger] messages@[k]@),
            plain@.len() == i,
            forall|k: int|
                0 <= k < i ==> batch_entry(#[trigger] messages@[k]@, state.core_password@) == Ok::<
                    Seq<char>,
                    Seq<char>,
                >(plain@[k]@),
        decreases messages.len() - i,
    {
        if messages[i].as_str().is_empty() {
            plain.push(String::new());
        } else {
            match open_for(state, messages[i].as_str()) {
                Ok(text) => {
                    plain.push(text);
                },
                Err(message) => {
                    assert(batch_entry(messages@[i as int]@, state.core_password@) == Err::<
                        Seq<char>,
                        Seq<char>,
                    >(message@));
                    return Err(message);
                },
            }
        }
        i += 1;
    }
    Ok(plain)
}

/// The message of the store's answer to a read it cannot serve.
pub open spec fn no_table_message() -> Seq<char> {
    error_text(ErrorView::DatabaseError("缓存尚未初始化"@))
}

/// What saving `batch` for the user of `state` answers, given the wire name of the mode:
/// nothing on success, else the message of the refusal.
pub open spec fn save_refusal(
    before: StoreView,
    batch: Seq<AccountRecordView>,
    pull_mode: Seq<char>,
) -> Option<Seq<char>> {
    match parse_pull_mode(pull_mode) {
        None => Some(error_text(ErrorView::UnknownPullMode(pull_mode))),
        Some(mode) => if sync_accepted(before, batch, mode) {
            None
        } else {
            Some(error_text(ErrorView::DatabaseError(sync_refusal(before))))
        },
    }
}

/// The store after `batch` was saved for `owner`, where the save was not refused.
pub open spec fn saved(
    before: StoreView,
    owner: Seq<char>,
    update_time: int,
    batch: Seq<AccountRecordView>,
    pull_mode: Seq<char>,
) -> StoreView {
    synced(before, owner, update_time, batch, parse_pull_mode(pull_mode)->0)
}

/// The first check that a handed-in cache fails, as its message.
pub open spec fn cache_refusal(pull_mode: Seq<char>, update_time: int) -> Option<Seq<char>> {
    if is_blank(pull_mode) {
        Some(blank_message("pull_mode"@))
    } else if update_time < 0 {
        Some(error_text(ErrorView::ValidationError("无效的更新时间"@)))
    } else {
        None
    }
}

/// Checks the mode name and the watermark of a handed-in cache: the name may not be blank,
/// the watermark not negative.
pub fn check_cache_fields(pull_mode: &str, update_time: i64) -> (r: Result<(), String>)
    ensures
        match cache_refusal(pull_mode@, update_time as int) {
            Some(message) => r is Err && r->Err_0@ == message,
            None => r is Ok,
        },
{
    match validate_not_empty(pull_mode, "pull_mode") {
        Ok(()) => {},
        Err(message) => {
            return Err(message);
        },
    }
    if update_time < 0 {
        return Err(DurianError::validation("无效的更新时间").to_string());
    }
    Ok(())
}

/// Saves records that the caller fetched itself. `accounts` is what decoding the caller's
/// payload gave: the records, or the decoder's word on why there are none. A refusal
/// leaves the store as it was.
pub fn save_query_cache(
    slot: &SessionSlot,
    store: &mut RecordStore,
    pull_mode: &str,
    update_time: i64,
    accounts: Result<Vec<TempAccountRecord>, String>,
) -> (r: Result<(), String>)
    ensures
        r is Err ==> final(store)@ == old(store)@,
        match cache_refusal(pull_mode@, update_time as int) {
            Some(message) => r is Err && r->Err_0@ == message,
            None => match slot.state {
                None => r is Err && r->Err_0@ == no_session_message(),
                Some(state) => match accounts {
                    Err(why) => r is Err && r->Err_0@ == "解析账户数据失败: "@ + why@,
                    Ok(items) => match save_refusal(
                        old(store)@,
                        records_of(temps_view(items@), state.username@),
                        pull_mode@,
                    ) {
                        Some(message) => r is Err && r->Err_0@ == message,
                        None => r is Ok && final(store)@ == saved(
                            old(store)@,
                            state.username@,
                            update_time as int,
                            records_of(temps_view(items@), state.username@),
                            pull_mode@,
                        ),
                    },
                },
            },
        },
{
    match check_cache_fields(pull_mode, update_time) {
        Ok(()) => {},
        Err(message) => {
            return Err(message);
        },
    }
    let guard = match get_state(slot) {
        Ok(guard) => guard,
        Err(e) => {
            return Err(e.to_string());
        },
    };
    let state = guard.state();
    let items = match accounts {
        Ok(items) => items,
        Err(why) => {
            return Err(String::from_str("解析账户数据失败: ").concat(why.as_str()));
        },
    };
    let records = records_from_temps(items, state.username.as_str());
    let data = CacheData::new(state.username.clone(), update_time, records);
    match state.save_cache_data(store, &data, pull_mode) {
        Ok(()) => Ok(()),
        Err(e) => Err(e.to_string()),
    }
}

/// The snapshot of the session's user, or nothing where they have none.
pub fn load_query_cache(slot: &SessionSlot, store: &RecordStore) -> (r: Result<
    Option<CacheData>,
    String,
>)
    ensures
        match slot.state {
            None => r is Err && r->Err_0@ == no_session_message(),
            Some(state) => match r {
                Ok(Some(d)) => store@.ready && watermark_or_zero(store@, state.username@) != 0
                    && is_snapshot(d@, store@, state.username@),
                Ok(None) => store@.ready && watermark_or_zero(store@, state.username@) == 0,
                Err(message) => !store@.ready && message@ == no_table_message(),
            },
        },
{
    let guard = match get_state(slot) {
        Ok(guard) => guard,
        Err(e) => {
            return Err(e.to_string());
        },
    };
    match guard.state().load_cache_data(store) {
        Ok(found) => Ok(found),
        Err(e) => Err(e.to_string()),
    }
}

/// The watermark of the session's user; zero where nothing was synchronised for them yet.
pub fn get_last_update_time(slot: &SessionSlot, store: &RecordStore) -> (r: Result<i64, String>)
    ensures
        match slot.state {
            None => r is Err && r->Err_0@ == no_session_message(),
            Some(state) => match r {
                Ok(time) => store@.ready && time == watermark_or_zero(store@, state.username@),
                Err(message) => !store@.ready && message@ == no_table_message(),
            },
        },
{
    let guard = match get_state(slot) {
        Ok(guard) => guard,
        Err(e) => {
            return Err(e.to_string());
        },
    };
    match guard.state().get_last_update_time(store) {
        Ok(time) => Ok(time),
        Err(e) => Err(e.to_string()),
    }
}

/// Deletes what the store holds for the session's user.
pub fn clear_cache(slot: &SessionSlot, store: &mut RecordStore) -> (r: Result<(), String>)
    ensures
        match slot.state {
            None => r is Err && r->Err_0@ == no_session_message() && final(store)@ == old(store)@,
            Some(state) => match r {
                Ok(()) => old(store)@.ready && final(store)@ == cleared(
                    old(store)@,
                    state.username@,
                ),
                Err(message) => !old(store)@.ready && final(store)@ == old(store)@ && message@
                    == error_text(ErrorView::DatabaseError("缓存尚未初始化"@)),
            },
        },
{
    let guard = match get_state(slot) {
        Ok(guard) => guard,
        Err(e) => {
            return Err(e.to_string());
        },
    };
    match guard.state().clear_cache(store) {
        Ok(()) => Ok(()),
        Err(e) => Err(e.to_string()),
    }
}

/// How a pull goes on after its first part.
#[derive(Debug)]
pub enum QueryStep {
    /// The store had a snapshot with records: this is the answer, and nothing is sent.
    Cached(CacheData),
    /// The server has to be asked, with this request.
    Fetch(ApiRequest),
}

/// Whether a pull is answered from the store: it is not forced, and the user has a
/// snapshot with at least one record.
pub open spec fn answered_from_store(s: StoreView, owner: Seq<char>, force_refresh: bool) -> bool {
    !force_refresh && watermark_or_zero(s, owner) != 0 && rows_of(s.accounts, owner).len() > 0
}

/// First part of a pull. Unless the pull is forced, a snapshot with records is the answer.
/// Otherwise the answer is the request for what changed since the user's watermark, which
/// is zero, and so asks for everything, where nothing was synchronised yet.
pub fn query_accounts(slot: &SessionSlot, store: &RecordStore, force_refresh: bool) -> (r: Result<
    QueryStep,
    String,
>)
    ensures
        match slot.state {
            None => r is Err && r->Err_0@ == no_session_message(),
            Some(state) => if !store@.ready {
                r is Err && r->Err_0@ == no_table_message()
            } else if answered_from_store(store@, state.username@, force_refresh) {
                r matches Ok(QueryStep::Cached(d)) && is_snapshot(d@, store@, state.username@)
            } else {
                r matches Ok(QueryStep::Fetch(request)) && request@ == (ApiRequestView {
                    method: HttpMethod::Get,
                    url: state.api_base_url@ + "/v1/account?update_time="@ + decimal_text(
                        watermark_or_zero(store@, state.username@),
                    ),
                    json_content: true,
                    authorization: Some(state.token@),
                    body: RequestBodyView::Empty,
                })
            },
        },
{
    let guard = match get_state(slot) {
        Ok(guard) => guard,
        Err(e) => {
            return Err(e.to_string());
        },
    };
    let state = guard.state();
    if !force_refresh {
        match state.load_cache_data(store) {
            Ok(Some(cached)) => {
                proof {
                    lemma_in_site_order(rows_of(store@.accounts, state.username@));
                }
                if !cached.is_empty() {
                    return Ok(QueryStep::Cached(cached));
                }
            },
            Ok(None) => {},
            Err(e) => {
                return Err(e.to_string());
            },
        }
    }
    let last_update_time = match state.get_last_update_time(store) {
        Ok(time) => time,
        Err(e) => {
            return Err(e.to_string());
        },
    };
    Ok(
        QueryStep::Fetch(
            api_query_accounts(
                state.api_base_url.as_str(),
                state.token.as_str(),
                last_update_time,
            ),
        ),
    )
}

/// Second part of a pull: takes what the fetch gave. A failed fetch is reported and the
/// store is not touched. A successful answer with a payload is merged into the store in
/// the mode and with the watermark that it declares, all or nothing, and the answer to the
/// caller is then read back from the store, never taken from the payload. Any other
/// answer, and one after which the store has no snapshot, is refused with the server's
/// message.
pub fn query_accounts_finish(
    slot: &SessionSlot,
    store: &mut RecordStore,
    fetched: Result<ApiResponse<QueryResponseData>, DurianError>,
) -> (r: Result<CacheData, String>)
    ensures
        match slot.state {
            None => r is Err && r->Err_0@ == no_session_message() && final(store)@ == old(store)@,
            Some(state) => match fetched {
                Err(e) => r is Err && r->Err_0@ == error_text(e@) && final(store)@ == old(store)@,
                Ok(response) => if response.code == 0 && response.data is Some {
                    match save_refusal(
                        old(store)@,
                        records_of(items_view(response.data->0.accounts@), state.username@),
                        response.data->0.pull_mode@,
                    ) {
                        Some(message) => r is Err && r->Err_0@ == message && final(store)@
                            == old(store)@,
                        None => {
                            &&& final(store)@ == saved(
                                old(store)@,
                                state.username@,
                                response.data->0.update_time as int,
                                records_of(
                                    items_view(response.data->0.accounts@),
                                    state.username@,
                                ),
                                response.data->0.pull_mode@,
                            )
                            &&& if response.data->0.update_time != 0 {
                                r is Ok && is_snapshot(r->Ok_0@, final(store)@, state.username@)
                            } else {
                                r is Err && r->Err_0@ == "查询失败: "@ + response.msg@
                            }
                        },
                    }
                } else {
                    r is Err && r->Err_0@ == "查询失败: "@ + response.msg@ && final(store)@
                        == old(store)@
                },
            },
        },
{
    let guard = match get_state(slot) {
        Ok(guard) => guard,
        Err(e) => {
            return Err(e.to_string());
        },
    };
    let state = guard.state();
    let response = match fetched {
        Ok(response) => response,
        Err(e) => {
            return Err(e.to_string());
        },
    };
    if response.code == 0 {
        match &response.data {
            Some(data) => {
                let accounts = records_from_items(&data.accounts, state.username.as_str());
                let cache_data = CacheData::new(state.username.clone(), data.update_time, accounts);
                match state.save_cache_data(store, &cache_data, data.pull_mode.as_str()) {
                    Ok(()) => {},
                    Err(e) => {
                        return Err(e.to_string());
                    },
                }
                match state.load_cache_data(store) {
                    Ok(Some(loaded)) => {
                        return Ok(loaded);
                    },
                    Ok(None) => {},
                    Err(e) => {
                        return Err(e.to_string());
                    },
                }
            },
            None => {},
        }
    }
    Err(String::from_str("查询失败: ").concat(response.msg.as_str()))
}

} // verus!
