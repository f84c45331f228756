use oracle_cloud_mcp::args::{ArgValue, ToolArgs};
use oracle_cloud_mcp::text::{push_decimal, text_eq};

#[test]
fn text_equality() {
    assert!(text_eq("", ""));
    assert!(text_eq("région", "région"));
    assert!(!text_eq("abc", "abd"));
    assert!(!text_eq("abc", "ab"));
}

#[test]
fn decimal_notation() {
    for (n, text) in [(0u64, "0"), (7, "7"), (10, "10"), (50, "50"), (100, "100"), (u64::MAX, "18446744073709551615")] {
        let mut out = String::from("limit=");
        push_decimal(&mut out, n);
        assert_eq!(out, format!("limit={text}"));
    }
}

#[test]
fn read_after_write() {
    let mut a = ToolArgs::new();
    assert_eq!(a.get("k"), None);
    a.insert("k".to_string(), ArgValue::Str("v".to_string()));
    assert_eq!(a.get("k"), Some(&ArgValue::Str("v".to_string())));
    a.insert("j".to_string(), ArgValue::UInt(4));
    a.insert("k".to_string(), ArgValue::UInt(9));
    assert_eq!(a.get("k"), Some(&ArgValue::UInt(9)));
    assert_eq!(a.get("j"), Some(&ArgValue::UInt(4)));
    assert_eq!(a.u64_arg("k"), Some(9));
    assert_eq!(a.str_arg("k"), None);
    assert_eq!(a.text_or("k", "dflt"), "dflt");
    assert_eq!(a.limit_or(50), 50);
    a.insert("limit".to_string(), ArgValue::UInt(12));
    assert_eq!(a.limit_or(50), 12);
}
