use agentx::text::{append_present, join, join3, prefix};

#[test]
fn append_present_skips_missing_parts() {
    let mut acc = String::from(">");
    append_present(&mut acc, &vec![Some(String::from("ab")), None, Some(String::from("c"))]);
    assert_eq!(acc, ">abc");
    append_present(&mut acc, &vec![]);
    assert_eq!(acc, ">abc");
}

#[test]
fn joins_and_prefixes() {
    assert_eq!(join("a", "bc"), "abc");
    assert_eq!(join3("a", "b", "c"), "abc");
    assert_eq!(prefix("0123456789", 8), "01234567");
    assert_eq!(prefix("012", 8), "012");
    assert_eq!(prefix("", 8), "");
}
