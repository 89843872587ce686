use gateway::error::ErrorKind;
use gateway::name::{str_eq, AccountName, ProjectName};

#[test]
fn accepts_simple_names() {
    for n in ["matrix", "a", "blue", "x1", "a-b", "0matrix9", "a-2-c"] {
        let p = ProjectName::parse(n).unwrap();
        assert!(p.is_valid());
        assert_eq!(p.as_str(), n);
    }
}

#[test]
fn accepts_sixty_three_chars_but_not_more() {
    let ok = "a".repeat(63);
    assert!(ProjectName::parse(&ok).is_ok());
    let long = "a".repeat(64);
    let e = ProjectName::parse(&long).unwrap_err();
    assert_eq!(e.kind(), ErrorKind::InvalidProjectName);
}

#[test]
fn rejects_uppercase_and_trailing_hyphens() {
    // an invalid name is refused at the boundary with a client error
    for n in ["MATRIX--", "Matrix", "-a", "a-", "-", "", "a_b", "a.b", "a b"] {
        let e = ProjectName::parse(n).unwrap_err();
        assert_eq!(e.kind(), ErrorKind::InvalidProjectName);
        assert_eq!(e.kind().status(), 400);
    }
}

#[test]
fn account_names_must_not_be_empty() {
    let a = AccountName::parse("trinity").unwrap();
    assert_eq!(a.as_str(), "trinity");
    let e = AccountName::parse("").unwrap_err();
    assert_eq!(e.kind(), ErrorKind::InvalidAccountName);
    assert_eq!(e.kind().status(), 400);
}

#[test]
fn string_equality_is_exact() {
    assert!(str_eq("app.customer.com", "app.customer.com"));
    assert!(!str_eq("app.customer.com", "app.customer.co"));
    assert!(!str_eq("a", "b"));
    assert!(str_eq("", ""));
}

#[test]
fn name_equality_follows_text() {
    let a = ProjectName::parse("matrix").unwrap();
    let b = ProjectName::parse("matrix").unwrap();
    let c = ProjectName::parse("blue").unwrap();
    assert!(a.eq_name(&b));
    assert!(!a.eq_name(&c));
}
