//! The error taxonomy shared by every component.

use vstd::prelude::*;
use vstd::string::*;
use crate::text::{decimal_text, i64_to_text};

verus! {

/// Every failure the client can report.
#[derive(Debug)]
pub enum DurianError {
    /// No session is active.
    StateNotInitialized,
    /// The session lock could not be taken.
    StateLockError,
    /// Transport-level failure.
    NetworkError(String),
    /// The server answered with an error code.
    ApiError { code: i32, message: String },
    /// The record store rejected an operation.
    DatabaseError(String),
    /// Key derivation or cipher failure.
    CryptoError(String),
    /// A payload could not be encoded or decoded.
    SerializationError(String),
    /// File-system failure.
    IoError(String),
    /// The environment is not usable.
    ConfigError(String),
    /// Malformed caller input.
    ValidationError(String),
    /// A synchronisation mode that is none of the three; it holds the name that was given.
    UnknownPullMode(String),
    /// Anything else.
    Unknown(String),
}

/// Result type used throughout the crate.
pub type DurianResult<T> = Result<T, DurianError>;

/// Mathematical model of a [`DurianError`]: the same variants over character sequences.
pub ghost enum ErrorView {
    StateNotInitialized,
    StateLockError,
    NetworkError(Seq<char>),
    ApiError { code: int, message: Seq<char> },
    DatabaseError(Seq<char>),
    CryptoError(Seq<char>),
    SerializationError(Seq<char>),
    IoError(Seq<char>),
    ConfigError(Seq<char>),
    ValidationError(Seq<char>),
    UnknownPullMode(Seq<char>),
    Unknown(Seq<char>),
}

impl View for DurianError {
    type V = ErrorView;

    open spec fn view(&self) -> ErrorView {
        match self {
            DurianError::StateNotInitialized => ErrorView::StateNotInitialized,
            DurianError::StateLockError => ErrorView::StateLockError,
            DurianError::NetworkError(m) => ErrorView::NetworkError(m@),
            DurianError::ApiError { code, message } => ErrorView::ApiError {
                code: *code as int,
                message: message@,
            },
            DurianError::DatabaseError(m) => ErrorView::DatabaseError(m@),
            DurianError::CryptoError(m) => ErrorView::CryptoError(m@),
            DurianError::SerializationError(m) => ErrorView::SerializationError(m@),
            DurianError::IoError(m) => ErrorView::IoError(m@),
            DurianError::ConfigError(m) => ErrorView::ConfigError(m@),
            DurianError::ValidationError(m) => ErrorView::ValidationError(m@),
            DurianError::UnknownPullMode(m) => ErrorView::UnknownPullMode(m@),
            DurianError::Unknown(m) => ErrorView::Unknown(m@),
        }
    }
}

/// The human-readable message of an error: a fixed prefix per variant, then the detail.
pub open spec fn error_text(e: ErrorView) -> Seq<char> {
    match e {
        ErrorView::StateNotInitialized => "应用状态未初始化，请先登录"@,
        ErrorView::StateLockError => "状态锁定失败"@,
        ErrorView::NetworkError(m) => "网络请求失败: "@ + m,
        ErrorView::ApiError { code, message } => "API 错误 ["@ + decimal_text(code) + "]: "@
            + message,
        ErrorView::DatabaseError(m) => "数据库错误: "@ + m,
        ErrorView::CryptoError(m) => "加密/解密错误: "@ + m,
        ErrorView::SerializationError(m) => "数据序列化错误: "@ + m,
        ErrorView::IoError(m) => "IO 错误: "@ + m,
        ErrorView::ConfigError(m) => "配置错误: "@ + m,
        ErrorView::ValidationError(m) => "输入验证错误: "@ + m,
        ErrorView::UnknownPullMode(m) => "输入验证错误: 未知的 pull_mode: "@ + m,
        ErrorView::Unknown(m) => "未知错误: "@ + m,
    }
}

impl DurianError {
    /// The message shown to the user for this error.
    pub fn to_string(&self) -> (s: String)
        ensures
            s@ == error_text(self@),
    {
        match self {
            DurianError::StateNotInitialized => String::from_str("应用状态未初始化，请先登录"),
            DurianError::StateLockError => String::from_str("状态锁定失败"),
            DurianError::NetworkError(m) => String::from_str("网络请求失败: ").concat(m.as_str()),
            DurianError::ApiError { code, message } => {
                let number = i64_to_text(*code as i64);
                String::from_str("API 错误 [").concat(number.as_str()).concat("]: ").concat(
                    message.as_str(),
                )
            },
            DurianError::DatabaseError(m) => String::from_str("数据库错误: ").concat(m.as_str()),
            DurianError::CryptoError(m) => String::from_str("加密/解密错误: ").concat(m.as_str()),
            DurianError::SerializationError(m) => String::from_str("数据序列化错误: ").concat(
                m.as_str(),
            ),
            DurianError::IoError(m) => String::from_str("IO 错误: ").concat(m.as_str()),
            DurianError::ConfigError(m) => String::from_str("配置错误: ").concat(m.as_str()),
            DurianError::ValidationError(m) => String::from_str("输入验证错误: ").concat(
                m.as_str(),
            ),
            DurianError::UnknownPullMode(m) => String::from_str(
                "输入验证错误: 未知的 pull_mode: ",
            ).concat(m.as_str()),
            DurianError::Unknown(m) => String::from_str("未知错误: ").concat(m.as_str()),
        }
    }

    /// The error for a request that did not get through: a timeout, a refused connection,
    /// or whatever else the transport reports as `text`.
    pub fn from_transport(timed_out: bool, refused: bool, text: &str) -> (e: DurianError)
        ensures
            e@ == ErrorView::NetworkError(
                if timed_out {
                    "请求超时"@
                } else if refused {
                    "连接失败，请检查网络"@
                } else {
                    text@
                },
            ),
    {
        if timed_out {
            DurianError::NetworkError(String::from_str("请求超时"))
        } else if refused {
            DurianError::NetworkError(String::from_str("连接失败，请检查网络"))
        } else {
            DurianError::NetworkError(String::from_str(text))
        }
    }

    /// A transport failure carrying `msg`.
    pub fn network(msg: &str) -> (e: DurianError)
        ensures
            e@ == ErrorView::NetworkError(msg@),
    {
        DurianError::NetworkError(String::from_str(msg))
    }

    /// A server-reported failure with its code and message.
    pub fn api(code: i32, message: &str) -> (e: DurianError)
        ensures
            e@ == (ErrorView::ApiError { code: code as int, message: message@ }),
    {
        DurianError::ApiError { code, message: String::from_str(message) }
    }

    /// A record-store failure carrying `msg`.
    pub fn database(msg: &str) -> (e: DurianError)
        ensures
            e@ == ErrorView::DatabaseError(msg@),
    {
        DurianError::DatabaseError(String::from_str(msg))
    }

    /// A cipher or key-derivation failure carrying `msg`.
    pub fn crypto(msg: &str) -> (e: DurianError)
        ensures
            e@ == ErrorView::CryptoError(msg@),
    {
        DurianError::CryptoError(String::from_str(msg))
    }

    /// A rejected caller input, described by `msg`.
    pub fn validation(msg: &str) -> (e: DurianError)
        ensures
            e@ == ErrorView::ValidationError(msg@),
    {
        DurianError::ValidationError(String::from_str(msg))
    }

    /// An unusable environment, described by `msg`.
    pub fn config(msg: &str) -> (e: DurianError)
        ensures
            e@ == ErrorView::ConfigError(msg@),
    {
        DurianError::ConfigError(String::from_str(msg))
    }
}

impl From<DurianError> for String {
    fn from(err: DurianError) -> (s: String)
        ensures
            s@ == error_text(err@),
    {
        err.to_string()
    }
}

impl vstd::std_specs::convert::FromSpecImpl<DurianError> for String {
    open spec fn obeys_from_spec() -> bool {
        false
    }

    open spec fn from_spec(v: DurianError) -> String {
        arbitrary()
    }
}

} // verus!
