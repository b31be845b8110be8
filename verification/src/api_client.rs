//! The requests the client sends to the server, as values: what to send is decided here,
//! the sending is the caller's.

use vstd::prelude::*;
use vstd::string::*;
use crate::crypto::{auth_hash_spec, derive_auth_hash, hashable, HashPurpose};
use crate::error::{DurianError, DurianResult, ErrorView};
use crate::text::{decimal_text, i64_to_text};

verus! {

/// Seconds after which a request is given up.
pub const REQUEST_TIMEOUT_SECS: u64 = 30;

/// Seconds after which a connection attempt is given up.
pub const CONNECT_TIMEOUT_SECS: u64 = 10;

/// Idle connections kept per host.
pub const MAX_IDLE_PER_HOST: usize = 5;

/// The verb of a request.
#[derive(Debug, Clone, Copy, PartialEq, Eq, Structural)]
pub enum HttpMethod {
    Get,
    Post,
    Put,
    Delete,
}

/// The JSON object a request carries, by its fields.
#[derive(Debug)]
pub enum RequestBody {
    /// No body.
    Empty,
    /// `username`, `password`, `core_password`: a name and the two digests.
    Credentials { username: String, password: String, core_password: String },
    /// `website`, `account`, `password`: a record to add, its secret encrypted.
    NewAccount { website: String, account: String, password: String },
    /// `rid`, `website`, `account`, `password`: a record to change, its secret encrypted.
    ChangedAccount { rid: i64, website: String, account: String, password: String },
    /// `rid`: a record to delete.
    AccountId { rid: i64 },
}

/// Model of a [`RequestBody`].
pub ghost enum RequestBodyView {
    Empty,
    Credentials { username: Seq<char>, password: Seq<char>, core_password: Seq<char> },
    NewAccount { website: Seq<char>, account: Seq<char>, password: Seq<char> },
    ChangedAccount { rid: int, website: Seq<char>, account: Seq<char>, password: Seq<char> },
    AccountId { rid: int },
}

impl View for RequestBody {
    type V = RequestBodyView;

    open spec fn view(&self) -> RequestBodyView {
        match self {
            RequestBody::Empty => RequestBodyView::Empty,
            RequestBody::Credentials { username, password, core_password } => {
                RequestBodyView::Credentials {
                    username: username@,
                    password: password@,
                    core_password: core_password@,
                }
            },
            RequestBody::NewAccount { website, account, password } => RequestBodyView::NewAccount {
                website: website@,
                account: account@,
                password: password@,
            },
            RequestBody::ChangedAccount { rid, website, account, password } => {
                RequestBodyView::ChangedAccount {
                    rid: *rid as int,
                    website: website@,
                    account: account@,
                    password: password@,
                }
            },
            RequestBody::AccountId { rid } => RequestBodyView::AccountId { rid: *rid as int },
        }
    }
}

/// One request: its verb, its address, whether it announces JSON content, the token it
/// presents, and its body.
#[derive(Debug)]
pub struct ApiRequest {
    pub method: HttpMethod,
    pub url: String,
    pub json_content: bool,
    pub authorization: Option<String>,
    pub body: RequestBody,
}

/// Model of an [`ApiRequest`].
pub ghost struct ApiRequestView {
    pub method: HttpMethod,
    pub url: Seq<char>,
    pub json_content: bool,
    pub authorization: Option<Seq<char>>,
    pub body: RequestBodyView,
}

impl View for ApiRequest {
    type V = ApiRequestView;

    open spec fn view(&self) -> ApiRequestView {
        ApiRequestView {
            method: self.method,
            url: self.url@,
            json_content: self.json_content,
            authorization: match self.authorization {
                Some(token) => Some(token@),
                None => None,
            },
            body: self.body@,
        }
    }
}

/// The request that presents a name and the digests of two passphrases at `path`, or the
/// error that rejects one of the passphrases.
pub open spec fn credentials_request(
    api_base_url: Seq<char>,
    path: Seq<char>,
    username: Seq<char>,
    password: Seq<char>,
    core_password: Seq<char>,
) -> Result<ApiRequestView, ErrorView> {
    match auth_hash_spec(password, HashPurpose::Login) {
        Err(e) => Err(e),
        Ok(login_digest) => match auth_hash_spec(core_password, HashPurpose::Core) {
            Err(e) => Err(e),
            Ok(core_digest) => Ok(
                ApiRequestView {
                    method: HttpMethod::Post,
                    url: api_base_url + path,
                    json_content: true,
                    authorization: None,
                    body: RequestBodyView::Credentials {
                        username,
                        password: login_digest,
                        core_password: core_digest,
                    },
                },
            ),
        },
    }
}

/// The model of a request that may have been refused.
pub open spec fn request_result_view(r: DurianResult<ApiRequest>) -> Result<
    ApiRequestView,
    ErrorView,
> {
    match r {
        Ok(request) => Ok(request@),
        Err(e) => Err(e@),
    }
}

fn credentials(api_base_url: &str, path: &str, username: &str, password: &str, core_password: &str) -> (r:
    DurianResult<ApiRequest>)
    requires
        hashable(password@),
        hashable(core_password@),
    ensures
        request_result_view(r) == credentials_request(
            api_base_url@,
            path@,
            username@,
            password@,
            core_password@,
        ),
{
    let login_digest = derive_auth_hash(password, HashPurpose::Login)?;
    let core_digest = derive_auth_hash(core_password, HashPurpose::Core)?;
    Ok(
        ApiRequest {
            method: HttpMethod::Post,
            url: String::from_str(api_base_url).concat(path),
            json_content: true,
            authorization: None,
            body: RequestBody::Credentials {
                username: String::from_str(username),
                password: login_digest,
                core_password: core_digest,
            },
        },
    )
}

/// The login request. The passphrases leave the client as digests only.
pub fn api_login(api_base_url: &str, username: &str, password: &str, core_password: &str) -> (r:
    DurianResult<ApiRequest>)
    requires
        hashable(password@),
        hashable(core_password@),
    ensures
        request_result_view(r) == credentials_request(
            api_base_url@,
            "/v1/login"@,
            username@,
            password@,
            core_password@,
        ),
{
    credentials(api_base_url, "/v1/login", username, password, core_password)
}

/// The registration request. The passphrases leave the client as digests only.
pub fn api_register(api_base_url: &str, username: &str, password: &str, core_password: &str) -> (r:
    DurianResult<ApiRequest>)
    requires
        hashable(password@),
        hashable(core_password@),
    ensures
        request_result_view(r) == credentials_request(
            api_base_url@,
            "/v1/register"@,
            username@,
            password@,
            core_password@,
        ),
{
    credentials(api_base_url, "/v1/register", username, password, core_password)
}

/// The request that asks whether `token` is still good.
pub fn api_verify(api_base_url: &str, token: &str) -> (request: ApiRequest)
    ensures
        request@ == (ApiRequestView {
            method: HttpMethod::Get,
            url: api_base_url@ + "/v1/auth/verify"@,
            json_content: false,
            authorization: Some(token@),
            body: RequestBodyView::Empty,
        }),
{
    ApiRequest {
        method: HttpMethod::Get,
        url: String::from_str(api_base_url).concat("/v1/auth/verify"),
        json_content: false,
        authorization: Some(String::from_str(token)),
        body: RequestBody::Empty,
    }
}

/// Whether the answer to [`api_verify`] says that the token is good: a status of the 2xx
/// class.
pub fn verify_outcome(status: u16) -> (valid: bool)
    ensures
        valid == (200 <= status < 300),
{
    200 <= status && status < 300
}

/// The request for what changed since the watermark `update_time`.
pub fn api_query_accounts(api_base_url: &str, token: &str, update_time: i64) -> (request: ApiRequest)
    ensures
        request@ == (ApiRequestView {
            method: HttpMethod::Get,
            url: api_base_url@ + "/v1/account?update_time="@ + decimal_text(update_time as int),
            json_content: true,
            authorization: Some(token@),
            body: RequestBodyView::Empty,
        }),
{
    let since = i64_to_text(update_time);
    ApiRequest {
        method: HttpMethod::Get,
        url: String::from_str(api_base_url).concat("/v1/account?update_time=").concat(
            since.as_str(),
        ),
        json_content: true,
        authorization: Some(String::from_str(token)),
        body: RequestBody::Empty,
    }
}

/// The request that adds a record. `password` is the encrypted secret.
pub fn api_insert_account(
    api_base_url: &str,
    token: &str,
    website: &str,
    account: &str,
    password: &str,
) -> (request: ApiRequest)
    ensures
        request@ == (ApiRequestView {
            method: HttpMethod::Post,
            url: api_base_url@ + "/v1/account"@,
            json_content: true,
            authorization: Some(token@),
            body: RequestBodyView::NewAccount {
                website: website@,
                account: account@,
                password: password@,
            },
        }),
{
    ApiRequest {
        method: HttpMethod::Post,
        url: String::from_str(api_base_url).concat("/v1/account"),
        json_content: true,
        authorization: Some(String::from_str(token)),
        body: RequestBody::NewAccount {
            website: String::from_str(website),
            account: String::from_str(account),
            password: String::from_str(password),
        },
    }
}

/// The request that changes the record `rid`. `password` is the encrypted secret.
pub fn api_update_account(
    api_base_url: &str,
    token: &str,
    rid: i64,
    website: &str,
    account: &str,
    password: &str,
) -> (request: ApiRequest)
    ensures
        request@ == (ApiRequestView {
            method: HttpMethod::Put,
            url: api_base_url@ + "/v1/account"@,
            json_content: true,
            authorization: Some(token@),
            body: RequestBodyView::ChangedAccount {
                rid: rid as int,
                website: website@,
                account: account@,
                password: password@,
            },
        }),
{
    ApiRequest {
        method: HttpMethod::Put,
        url: String::from_str(api_base_url).concat("/v1/account"),
        json_content: true,
        authorization: Some(String::from_str(token)),
        body: RequestBody::ChangedAccount {
            rid,
            website: String::from_str(website),
            account: String::from_str(account),
            password: String::from_str(password),
        },
    }
}

/// The request that deletes the record `rid`.
pub fn api_delete_account(api_base_url: &str, token: &str, rid: i64) -> (request: ApiRequest)
    ensures
        request@ == (ApiRequestView {
            method: HttpMethod::Delete,
            url: api_base_url@ + "/v1/account"@,
            json_content: true,
            authorization: Some(token@),
            body: RequestBodyView::AccountId { rid: rid as int },
        }),
{
    ApiRequest {
        method: HttpMethod::Delete,
        url: String::from_str(api_base_url).concat("/v1/account"),
        json_content: true,
        authorization: Some(String::from_str(token)),
        body: RequestBody::AccountId { rid },
    }
}

/// The error for an answer whose body could not be decoded; `why` is the decoder's word.
pub fn decode_failure(why: &str) -> (e: DurianError)
    ensures
        e@ == ErrorView::NetworkError("解析响应失败: "@ + why@),
{
    DurianError::NetworkError(String::from_str("解析响应失败: ").concat(why))
}

} // verus!
