use container_rs::text::{contains_str, decimal_string, replace_chars, sort_lex, str_eq, str_lt};

#[test]
fn decimal_strings() {
    assert_eq!(decimal_string(0), "0");
    assert_eq!(decimal_string(9), "9");
    assert_eq!(decimal_string(10), "10");
    assert_eq!(decimal_string(1234), "1234");
    assert_eq!(decimal_string(u64::MAX), "18446744073709551615");
}

#[test]
fn code_point_order() {
    assert!(str_lt("a", "b"));
    assert!(str_lt("", "a"));
    assert!(str_lt("ab", "abc"));
    assert!(!str_lt("abc", "ab"));
    assert!(!str_lt("a", "a"));
    assert!(str_lt("Z", "a"));
    assert!(str_lt("z", "é"));
}

#[test]
fn sorting() {
    let v = vec!["b".to_string(), "a".to_string(), "c".to_string(), "a".to_string()];
    assert_eq!(sort_lex(v), vec!["a", "a", "b", "c"]);
    assert!(sort_lex(vec![]).is_empty());
    let mut names: Vec<String> = (0..15).rev().map(|i| format!("{:02}-x", i)).collect();
    let sorted = sort_lex(names.clone());
    names.sort();
    assert_eq!(sorted, names);
}

#[test]
fn equality() {
    assert!(str_eq("docker", "docker"));
    assert!(!str_eq("docker", "docke"));
    assert!(!str_eq("docker", "Docker"));
    assert!(str_eq("", ""));
}

#[test]
fn substring_search() {
    assert!(contains_str("busybox.tar", ".tar"));
    assert!(contains_str(".tar", ".tar"));
    assert!(!contains_str("busybox", ".tar"));
    assert!(!contains_str(".ta", ".tar"));
    assert!(contains_str("x", ""));
}

#[test]
fn char_replacement() {
    assert_eq!(replace_chars("a/b/c", '/', '_'), "a_b_c");
    assert_eq!(replace_chars("", '/', '_'), "");
    assert_eq!(replace_chars("abc", '/', '_'), "abc");
}
