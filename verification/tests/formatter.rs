use pgp_expiration::formatter::{
    config, config_records, fetch, render_config, render_values, value_records, ConfigRecord,
    ValueRecord, SENTINEL,
};
use pgp_expiration::outcome::{ExpirationOutcome, ExpirationResult, Snapshot};

fn outcome(identity: &str, result: ExpirationResult) -> ExpirationOutcome {
    ExpirationOutcome { identity: identity.to_string(), result }
}

fn failed(message: &str) -> ExpirationResult {
    ExpirationResult::Failed(message.to_string())
}

fn mixed() -> Snapshot {
    Snapshot {
        outcomes: vec![
            outcome("foo.bar@example.com", ExpirationResult::Days(42)),
            outcome("never@example.com", ExpirationResult::NoExpiration),
            outcome("gone@example.org", failed("Error: no key")),
            outcome("1st@example.org", ExpirationResult::Days(-3)),
        ],
    }
}

const HEADER: &str = "graph_title OpenPGP key expiration\ngraph_vlabel days to expiration\n";

#[test]
fn the_sentinel_is_minus_999() {
    assert_eq!(SENTINEL, -999);
}

#[test]
fn fetch_renders_a_failed_outcome_as_the_sentinel() {
    let snapshot = Snapshot { outcomes: vec![outcome("gone@example.org", failed("any cause"))] };
    assert_eq!(fetch(&snapshot), "gone_example_org.value -999\n");
}

#[test]
fn fetch_renders_nothing_for_an_outcome_without_expiration() {
    let snapshot =
        Snapshot { outcomes: vec![outcome("never@example.com", ExpirationResult::NoExpiration)] };
    assert_eq!(fetch(&snapshot), "");
    assert_eq!(value_records(&snapshot), Vec::new());
}

#[test]
fn fetch_renders_the_day_count_negative_ones_too() {
    for days in [0_i64, 1, 14, 365, -1, -30, -999, -1000, i64::MAX, i64::MIN] {
        let snapshot =
            Snapshot { outcomes: vec![outcome("a@example.org", ExpirationResult::Days(days))] };
        assert_eq!(fetch(&snapshot), format!("a_example_org.value {}\n", days));
    }
}

#[test]
fn fetch_of_a_mixed_snapshot() {
    assert_eq!(
        fetch(&mixed()),
        "foo_bar_example_com.value 42\n\
         gone_example_org.value -999\n\
         _1st_example_org.value -3\n"
    );
    assert_eq!(fetch(&Snapshot { outcomes: Vec::new() }), "");
}

#[test]
fn value_records_of_a_mixed_snapshot() {
    assert_eq!(
        value_records(&mixed()),
        vec![
            ValueRecord { field: "foo_bar_example_com".to_string(), value: 42 },
            ValueRecord { field: "gone_example_org".to_string(), value: -999 },
            ValueRecord { field: "_1st_example_org".to_string(), value: -3 },
        ]
    );
    assert_eq!(render_values(&value_records(&mixed())), fetch(&mixed()));
    assert_eq!(render_values(&Vec::new()), "");
}

#[test]
fn config_leaves_out_an_outcome_without_expiration() {
    let snapshot =
        Snapshot { outcomes: vec![outcome("never@example.com", ExpirationResult::NoExpiration)] };
    assert_eq!(config(&snapshot), HEADER);
    assert_eq!(config_records(&snapshot), Vec::new());
    assert_eq!(config(&Snapshot { outcomes: Vec::new() }), HEADER);
}

#[test]
fn config_has_one_record_for_a_day_count_and_one_for_a_failure() {
    let days = Snapshot { outcomes: vec![outcome("a@example.org", ExpirationResult::Days(-5))] };
    assert_eq!(
        config_records(&days),
        vec![ConfigRecord {
            field: "a_example_org".to_string(),
            label: "a@example.org".to_string(),
            extinfo: None,
        }]
    );
    assert_eq!(
        config(&days),
        format!(
            "{}a_example_org.label a@example.org\n\
             a_example_org.warning 14:\n\
             a_example_org.critical 7:\n",
            HEADER
        )
    );
    let gone = Snapshot { outcomes: vec![outcome("a@example.org", failed("Error: no key"))] };
    assert_eq!(
        config_records(&gone),
        vec![ConfigRecord {
            field: "a_example_org".to_string(),
            label: "a@example.org".to_string(),
            extinfo: Some("Error: no key".to_string()),
        }]
    );
    assert_eq!(
        config(&gone),
        format!(
            "{}a_example_org.label a@example.org\n\
             a_example_org.extinfo Error: no key\n",
            HEADER
        )
    );
}

#[test]
fn config_of_a_mixed_snapshot() {
    assert_eq!(
        config(&mixed()),
        format!(
            "{}foo_bar_example_com.label foo.bar@example.com\n\
             foo_bar_example_com.warning 14:\n\
             foo_bar_example_com.critical 7:\n\
             gone_example_org.label gone@example.org\n\
             gone_example_org.extinfo Error: no key\n\
             _1st_example_org.label 1st@example.org\n\
             _1st_example_org.warning 14:\n\
             _1st_example_org.critical 7:\n",
            HEADER
        )
    );
    assert_eq!(config_records(&mixed()).len(), 3);
    assert_eq!(format!("{}{}", HEADER, render_config(&config_records(&mixed()))), config(&mixed()));
    assert_eq!(render_config(&Vec::new()), "");
}

#[test]
fn both_listings_report_the_same_identities() {
    let snapshot = mixed();
    let values = value_records(&snapshot);
    let configuration = config_records(&snapshot);
    assert_eq!(values.len(), configuration.len());
    for (value, described) in values.iter().zip(configuration.iter()) {
        assert_eq!(value.field, described.field);
    }
}

#[test]
fn a_line_starts_with_the_field_name_of_the_identity() {
    let snapshot = Snapshot {
        outcomes: vec![
            outcome("foo.bar@example.com", ExpirationResult::Days(5)),
            outcome("1abc@x.org", ExpirationResult::Days(5)),
            outcome("_x@y.org", failed("down")),
        ],
    };
    assert_eq!(
        fetch(&snapshot),
        "foo_bar_example_com.value 5\n_1abc_x_org.value 5\n_x_y_org.value -999\n"
    );
    assert_eq!(
        config(&snapshot),
        format!(
            "{}foo_bar_example_com.label foo.bar@example.com\n\
             foo_bar_example_com.warning 14:\n\
             foo_bar_example_com.critical 7:\n\
             _1abc_x_org.label 1abc@x.org\n\
             _1abc_x_org.warning 14:\n\
             _1abc_x_org.critical 7:\n\
             _x_y_org.label _x@y.org\n\
             _x_y_org.extinfo down\n",
            HEADER
        )
    );
}

#[test]
fn a_failed_identity_is_configured_without_thresholds() {
    let snapshot = Snapshot {
        outcomes: vec![
            outcome("a@example.org", failed("Error: first")),
            outcome("b@example.org", failed("")),
        ],
    };
    let text = config(&snapshot);
    assert_eq!(
        text,
        format!(
            "{}a_example_org.label a@example.org\n\
             a_example_org.extinfo Error: first\n\
             b_example_org.label b@example.org\n\
             b_example_org.extinfo \n",
            HEADER
        )
    );
    assert!(!text.contains(".warning"));
    assert!(!text.contains(".critical"));
    assert_eq!(
        render_config(&vec![ConfigRecord {
            field: "f".to_string(),
            label: "l".to_string(),
            extinfo: Some("m".to_string()),
        }]),
        "f.label l\nf.extinfo m\n"
    );
    assert_eq!(
        render_config(&vec![ConfigRecord {
            field: "f".to_string(),
            label: "l".to_string(),
            extinfo: None,
        }]),
        "f.label l\nf.warning 14:\nf.critical 7:\n"
    );
    assert_eq!(
        render_values(&vec![ValueRecord { field: "f".to_string(), value: -7 }]),
        "f.value -7\n"
    );
}
