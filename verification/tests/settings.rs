use pgp_expiration::settings::{dirty_config, get_state_filename, parse_identities};

#[test]
fn identities_are_the_parts_between_single_spaces() {
    assert_eq!(
        parse_identities("a@example.org b@example.org"),
        vec!["a@example.org".to_string(), "b@example.org".to_string()]
    );
    assert_eq!(parse_identities("one"), vec!["one".to_string()]);
    assert_eq!(
        parse_identities("x y z"),
        vec!["x".to_string(), "y".to_string(), "z".to_string()]
    );
}

#[test]
fn identities_split_as_the_standard_library_splits() {
    let lists =
        ["", " ", "  ", "a", " a", "a ", "a  b", " a b ", "a\tb c", "a b a", "\u{e9} \u{e8}"];
    for list in lists {
        let expected: Vec<String> = list.split(' ').map(|part| part.to_owned()).collect();
        assert_eq!(parse_identities(list), expected);
    }
}

#[test]
fn an_empty_list_names_one_empty_identity() {
    assert_eq!(parse_identities(""), vec![String::new()]);
}

#[test]
fn identities_that_repeat_are_kept() {
    assert_eq!(
        parse_identities("a@example.org a@example.org"),
        vec!["a@example.org".to_string(), "a@example.org".to_string()]
    );
}

#[test]
fn the_state_file_lies_below_the_state_directory() {
    assert_eq!(
        get_state_filename("/var/lib/munin/plugin-state"),
        "/var/lib/munin/plugin-state/pgp_expiration"
    );
    assert_eq!(get_state_filename(""), "/pgp_expiration");
    assert_eq!(get_state_filename("state/"), "state//pgp_expiration");
    assert_eq!(get_state_filename("."), "./pgp_expiration");
}

#[test]
fn dirty_config_is_announced_by_the_flag_1() {
    assert!(dirty_config("1"));
    for flag in ["", "0", "11", " 1", "1 ", "true", "yes", "01"] {
        assert!(!dirty_config(flag));
    }
}
