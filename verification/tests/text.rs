use postman::text::{decimal_from_i64, decimal_from_u64, split_on_space};

#[test]
fn decimal_of_unsigned_numbers() {
    assert_eq!(decimal_from_u64(0), "0");
    assert_eq!(decimal_from_u64(7), "7");
    assert_eq!(decimal_from_u64(10), "10");
    assert_eq!(decimal_from_u64(200), "200");
    assert_eq!(decimal_from_u64(1234567890), "1234567890");
    assert_eq!(decimal_from_u64(u64::MAX), u64::MAX.to_string());
}

#[test]
fn decimal_of_signed_numbers() {
    assert_eq!(decimal_from_i64(0), "0");
    assert_eq!(decimal_from_i64(42), "42");
    assert_eq!(decimal_from_i64(-1), "-1");
    assert_eq!(decimal_from_i64(-305), "-305");
    assert_eq!(decimal_from_i64(i64::MIN), i64::MIN.to_string());
    assert_eq!(decimal_from_i64(i64::MAX), i64::MAX.to_string());
}

#[test]
fn decimal_matches_to_string() {
    for n in [1u64, 9, 99, 100, 101, 65535, 4294967296, 999999999999] {
        assert_eq!(decimal_from_u64(n), n.to_string());
        let s: i64 = n as i64;
        assert_eq!(decimal_from_i64(-s), (-s).to_string());
    }
}

#[test]
fn split_at_spaces() {
    assert_eq!(split_on_space("openid profile"), vec!["openid", "profile"]);
    assert_eq!(split_on_space("single"), vec!["single"]);
    assert_eq!(split_on_space(""), vec![""]);
    assert_eq!(split_on_space(" "), vec!["", ""]);
    assert_eq!(split_on_space("a  b "), vec!["a", "", "b", ""]);
    assert_eq!(split_on_space("é ü"), vec!["é", "ü"]);
}

#[test]
fn split_matches_str_split() {
    for s in ["x y z", "  lead", "trail  ", "tab\tis not a space", "ä b c"] {
        let expected: Vec<String> = s.split(' ').map(|p| p.to_string()).collect();
        assert_eq!(split_on_space(s), expected);
    }
}

#[test]
fn split_then_join_gives_back_text() {
    let s = "read:user  write:repo admin";
    assert_eq!(split_on_space(s).join(" "), s);
}
