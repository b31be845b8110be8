use durian::error::DurianError;
use durian::text::{i64_to_text, str_eq, usize_to_text};

#[test]
fn test_error_display() {
    let err = DurianError::StateNotInitialized;
    assert!(err.to_string().contains("未初始化"));

    let err = DurianError::api(401, "未授权");
    assert!(err.to_string().contains("401"));
    assert!(err.to_string().contains("未授权"));
}

#[test]
fn test_error_conversion() {
    let err = DurianError::network("连接超时");
    let s: String = err.into();
    assert!(s.contains("连接超时"));
}

#[test]
fn every_variant_has_its_message() {
    assert_eq!(DurianError::StateNotInitialized.to_string(), "应用状态未初始化，请先登录");
    assert_eq!(DurianError::StateLockError.to_string(), "状态锁定失败");
    assert_eq!(DurianError::network("x").to_string(), "网络请求失败: x");
    assert_eq!(DurianError::api(-7, "no").to_string(), "API 错误 [-7]: no");
    assert_eq!(DurianError::api(401, "未授权").to_string(), "API 错误 [401]: 未授权");
    assert_eq!(DurianError::database("x").to_string(), "数据库错误: x");
    assert_eq!(DurianError::crypto("x").to_string(), "加密/解密错误: x");
    assert_eq!(DurianError::SerializationError("x".to_string()).to_string(), "数据序列化错误: x");
    assert_eq!(DurianError::IoError("x".to_string()).to_string(), "IO 错误: x");
    assert_eq!(DurianError::config("x").to_string(), "配置错误: x");
    assert_eq!(DurianError::validation("x").to_string(), "输入验证错误: x");
    assert_eq!(
        DurianError::UnknownPullMode("PULL_SOME".to_string()).to_string(),
        "输入验证错误: 未知的 pull_mode: PULL_SOME"
    );
    assert_eq!(DurianError::Unknown("x".to_string()).to_string(), "未知错误: x");
}

#[test]
fn transport_failures_are_classified() {
    assert_eq!(DurianError::from_transport(true, false, "t").to_string(), "网络请求失败: 请求超时");
    assert_eq!(DurianError::from_transport(true, true, "t").to_string(), "网络请求失败: 请求超时");
    assert_eq!(
        DurianError::from_transport(false, true, "t").to_string(),
        "网络请求失败: 连接失败，请检查网络"
    );
    assert_eq!(DurianError::from_transport(false, false, "t").to_string(), "网络请求失败: t");
}

#[test]
fn integers_are_rendered_in_decimal() {
    assert_eq!(i64_to_text(0), "0");
    assert_eq!(i64_to_text(7), "7");
    assert_eq!(i64_to_text(10), "10");
    assert_eq!(i64_to_text(-1), "-1");
    assert_eq!(i64_to_text(1234567890), "1234567890");
    assert_eq!(i64_to_text(i64::MAX), "9223372036854775807");
    assert_eq!(i64_to_text(i64::MIN), "-9223372036854775808");
    assert_eq!(usize_to_text(0), "0");
    assert_eq!(usize_to_text(6), "6");
    assert_eq!(usize_to_text(1000), "1000");
}

#[test]
fn string_slices_are_compared_by_content() {
    assert!(str_eq("", ""));
    assert!(str_eq("abc", "abc"));
    assert!(!str_eq("abc", "abd"));
    assert!(!str_eq("abc", "ab"));
}
