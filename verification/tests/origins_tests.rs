//! Allowed-origin list parsing.

use catalog_core::origins::split_origins;

#[test]
fn splits_and_trims_origin_entries() {
    assert_eq!(
        split_origins("http://a.example, http://b.example ,http://c.example"),
        vec![
            "http://a.example".to_string(),
            "http://b.example".to_string(),
            "http://c.example".to_string(),
        ]
    );
}

#[test]
fn drops_empty_entries() {
    assert_eq!(
        split_origins(",http://a.example,, , http://b.example,"),
        vec!["http://a.example".to_string(), "http://b.example".to_string()]
    );
}

#[test]
fn empty_or_blank_value_yields_no_entries() {
    assert_eq!(split_origins(""), Vec::<String>::new());
    assert_eq!(split_origins("   "), Vec::<String>::new());
    assert_eq!(split_origins(",,,"), Vec::<String>::new());
}

#[test]
fn single_entry_without_separator() {
    assert_eq!(
        split_origins("\thttp://only.example\n"),
        vec!["http://only.example".to_string()]
    );
}

#[test]
fn inner_whitespace_is_kept() {
    assert_eq!(split_origins(" a b , c "), vec!["a b".to_string(), "c".to_string()]);
}
