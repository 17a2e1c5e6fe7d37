use consul_diff::diff::difference_between_properties;
use consul_diff::property::ConsulProperties;
use consul_diff::remote::{load_consul_properties, RemoteEntry, RemoteValue};
use consul_diff::report::{render_line, report, Report};
use consul_diff::yaml::load_yml_properties;

fn prop(key: &str, value: &str) -> ConsulProperties {
    ConsulProperties::new(key, value)
}

#[test]
fn render_line_joins_key_and_value_with_an_equals_sign() {
    assert_eq!(render_line(&prop("db/port", "5432")), "db/port=5432");
    assert_eq!(render_line(&prop("", "")), "=");
    assert_eq!(render_line(&prop("k", "a=b")), "k=a=b");
    assert_eq!(render_line(&prop("k", "two\nlines")), "k=two\nlines");
}

#[test]
fn empty_difference_reports_no_differences_and_writes_nothing() {
    let expected = Report { console: vec!["No differences found.".to_string()], file: None };
    assert_eq!(report(&vec![], true), expected);
    assert_eq!(report(&vec![], false), expected);
}

#[test]
fn difference_with_output_file_is_printed_and_persisted() {
    let difference = vec![prop("db/port", "5432"), prop("a/c[0]", "true")];
    let decided = report(&difference, true);
    assert_eq!(
        decided.console,
        vec!["db/port=5432".to_string(), "a/c[0]=true".to_string()]
    );
    assert_eq!(decided.file, Some("db/port=5432\na/c[0]=true\n".to_string()));
}

#[test]
fn difference_without_output_file_is_printed_with_a_note() {
    let difference = vec![prop("db/port", "5432")];
    let decided = report(&difference, false);
    assert_eq!(
        decided.console,
        vec!["db/port=5432".to_string(), "No output file provided.".to_string()]
    );
    assert_eq!(decided.file, None);
}

#[test]
fn store_and_document_are_reconciled_end_to_end() {
    let entries = vec![
        RemoteEntry { key: "app/db/host".to_string(), value: RemoteValue::Text("x".to_string()) },
        RemoteEntry {
            key: "app/db/port".to_string(),
            value: RemoteValue::Text("5432".to_string()),
        },
    ];
    let remote = load_consul_properties(&entries, "app").unwrap();
    let document = load_yml_properties("db:\n  host: x\n").unwrap();
    let difference = difference_between_properties(remote, document);
    let decided = report(&difference, true);
    assert_eq!(decided.console, vec!["db/port=5432".to_string()]);
    assert_eq!(decided.file, Some("db/port=5432\n".to_string()));
}

#[test]
fn matching_store_and_document_leave_nothing_to_write() {
    let entries = vec![RemoteEntry {
        key: "app/db/port".to_string(),
        value: RemoteValue::Text("5432".to_string()),
    }];
    let remote = load_consul_properties(&entries, "app").unwrap();
    let document = load_yml_properties("db:\n  port: 5432\n  extra: 1\n").unwrap();
    let difference = difference_between_properties(remote, document);
    let decided = report(&difference, true);
    assert_eq!(decided.console, vec!["No differences found.".to_string()]);
    assert_eq!(decided.file, None);
}
