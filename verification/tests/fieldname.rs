use pgp_expiration::fieldname::clean_fieldname;

#[test]
fn test_clean_fieldname() {
    assert_eq!(
        clean_fieldname("foo.bar@example.com"),
        "foo_bar_example_com"
    );
}

#[test]
fn clean_fieldname_keeps_letters_digits_and_underscores() {
    assert_eq!(clean_fieldname("Az_09"), "Az_09");
    assert_eq!(clean_fieldname("_"), "_");
    assert_eq!(clean_fieldname("x"), "x");
}

#[test]
fn clean_fieldname_of_nothing_is_nothing() {
    assert_eq!(clean_fieldname(""), "");
}

#[test]
fn clean_fieldname_puts_an_underscore_before_a_leading_digit() {
    assert_eq!(clean_fieldname("1abc"), "_1abc");
    assert_eq!(clean_fieldname("9"), "_9");
    assert_eq!(clean_fieldname("007@example.org"), "_007_example_org");
}

#[test]
fn clean_fieldname_replaces_a_leading_symbol_without_a_second_underscore() {
    assert_eq!(clean_fieldname(".abc"), "_abc");
    assert_eq!(clean_fieldname("@"), "_");
    assert_eq!(clean_fieldname("-1"), "_1");
}

#[test]
fn clean_fieldname_replaces_each_character_outside_ascii_by_one_underscore() {
    assert_eq!(clean_fieldname("jos\u{e9}@b\u{fc}cher.example"), "jos__b_cher_example");
    assert_eq!(clean_fieldname("a b\tc"), "a_b_c");
    assert_eq!(clean_fieldname("\u{1f600}"), "_");
}

#[test]
fn clean_fieldname_yields_only_field_characters() {
    let inputs = ["", "0", "a+b@c.d", "\u{0}\u{7f}", "A-Z", "~!#$%^&*()", "z9_", "\u{e9}t\u{e9}"];
    for input in inputs {
        let name = clean_fieldname(input);
        assert!(name.chars().all(|c| c.is_ascii_alphanumeric() || c == '_'));
        if let Some(first) = name.chars().next() {
            assert!(first.is_ascii_alphabetic() || first == '_');
        }
        assert_eq!(name.is_empty(), input.is_empty());
    }
}
