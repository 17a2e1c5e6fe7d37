use consul_diff::error::SourceReadError;
use consul_diff::property::ConsulProperties;
use consul_diff::remote::{
    consul_address, load_consul_properties, strip_prefix, RemoteEntry, RemoteValue,
};

fn entry(key: &str, value: &str) -> RemoteEntry {
    RemoteEntry { key: key.to_string(), value: RemoteValue::Text(value.to_string()) }
}

#[test]
fn consul_address_fixes_scheme_and_port() {
    assert_eq!(consul_address("localhost"), "http://localhost:8500");
    assert_eq!(consul_address("10.0.0.7"), "http://10.0.0.7:8500");
    assert_eq!(consul_address(""), "http://:8500");
}

#[test]
fn strip_prefix_removes_the_leading_namespace() {
    assert_eq!(strip_prefix("app/db/host", "app"), "db/host");
    assert_eq!(strip_prefix("team/app/k", "team/app"), "k");
    assert_eq!(strip_prefix("app/", "app"), "");
}

#[test]
fn strip_prefix_leaves_other_keys_whole() {
    assert_eq!(strip_prefix("other/db/host", "app"), "other/db/host");
    assert_eq!(strip_prefix("app", "app"), "app");
    assert_eq!(strip_prefix("application/x", "app"), "application/x");
    assert_eq!(strip_prefix("", "app"), "");
}

#[test]
fn strip_prefix_touches_only_the_front_of_the_key() {
    assert_eq!(strip_prefix("x/app/y", "app"), "x/app/y");
    assert_eq!(strip_prefix("app/app/x", "app"), "app/x");
    assert_eq!(strip_prefix("app/x/app/y", "app"), "x/app/y");
}

#[test]
fn strip_prefix_counts_characters_not_bytes() {
    assert_eq!(strip_prefix("clé/值/x", "clé"), "值/x");
    assert_eq!(strip_prefix("clé/值/x", "cle"), "clé/值/x");
}

#[test]
fn entries_become_properties_relative_to_the_prefix() {
    let entries = vec![entry("app/db/host", "x"), entry("app/db/port", "5432")];
    let loaded = load_consul_properties(&entries, "app").unwrap();
    assert_eq!(
        loaded,
        vec![
            ConsulProperties::new("db/host", "x"),
            ConsulProperties::new("db/port", "5432"),
        ]
    );
}

#[test]
fn no_entries_give_an_empty_snapshot() {
    assert_eq!(load_consul_properties(&vec![], "app").unwrap(), vec![]);
}

#[test]
fn entry_without_a_value_fails_the_load() {
    let entries = vec![
        entry("app/a", "1"),
        RemoteEntry { key: "app/dir/".to_string(), value: RemoteValue::Absent },
        entry("app/b", "2"),
    ];
    assert_eq!(
        load_consul_properties(&entries, "app"),
        Err(SourceReadError::MissingValue("app/dir/".to_string()))
    );
}

#[test]
fn entry_that_is_not_text_fails_the_load() {
    let entries = vec![
        entry("app/a", "1"),
        RemoteEntry { key: "app/blob".to_string(), value: RemoteValue::Undecodable },
    ];
    assert_eq!(
        load_consul_properties(&entries, "app"),
        Err(SourceReadError::NotText("app/blob".to_string()))
    );
}

#[test]
fn first_unreadable_entry_decides_the_failure() {
    let entries = vec![
        RemoteEntry { key: "app/blob".to_string(), value: RemoteValue::Undecodable },
        RemoteEntry { key: "app/none".to_string(), value: RemoteValue::Absent },
    ];
    assert_eq!(
        load_consul_properties(&entries, "app"),
        Err(SourceReadError::NotText("app/blob".to_string()))
    );
}

#[test]
fn empty_text_is_a_value() {
    let entries = vec![entry("app/empty", "")];
    assert_eq!(
        load_consul_properties(&entries, "app").unwrap(),
        vec![ConsulProperties::new("empty", "")]
    );
}
