use scale_info::type_id::{check_identifier, split_module_path};
use scale_info::{Namespace, NamespaceError};

fn segments_of(r: Result<Namespace, NamespaceError>) -> Result<Vec<&'static str>, NamespaceError> {
    r.map(|ns| ns.segments().clone())
}

#[test]
fn namespace_ok() {
    assert_eq!(segments_of(Namespace::new(vec!["hello"])), Ok(vec!["hello"]));
    assert_eq!(
        segments_of(Namespace::new(vec!["Hello", "World"])),
        Ok(vec!["Hello", "World"])
    );
    assert_eq!(segments_of(Namespace::new(vec!["_"])), Ok(vec!["_"]));
}

#[test]
fn namespace_err() {
    assert_eq!(Namespace::new(vec![]), Err(NamespaceError::MissingSegments));
    assert_eq!(
        Namespace::new(vec![""]),
        Err(NamespaceError::InvalidIdentifier { segment: 0 })
    );
    assert_eq!(
        Namespace::new(vec!["1"]),
        Err(NamespaceError::InvalidIdentifier { segment: 0 })
    );
    assert_eq!(
        Namespace::new(vec!["Hello", ", World!"]),
        Err(NamespaceError::InvalidIdentifier { segment: 1 })
    );
}

#[test]
fn namespace_from_module_path() {
    assert_eq!(
        segments_of(Namespace::from_module_path("hello::world")),
        Ok(vec!["hello", "world"])
    );
    assert_eq!(
        Namespace::from_module_path("::world"),
        Err(NamespaceError::InvalidIdentifier { segment: 0 })
    );
}

#[test]
fn namespace_validation_examples() {
    assert_eq!(Namespace::new(vec![]), Err(NamespaceError::MissingSegments));
    assert_eq!(
        Namespace::new(vec!["1abc"]),
        Err(NamespaceError::InvalidIdentifier { segment: 0 })
    );
    assert_eq!(segments_of(Namespace::new(vec!["ok", "_2"])), Ok(vec!["ok", "_2"]));
    assert!(Namespace::prelude().segments().is_empty());
}

#[test]
fn namespace_reports_first_bad_segment() {
    assert_eq!(
        Namespace::new(vec!["a", "b c", "9"]),
        Err(NamespaceError::InvalidIdentifier { segment: 1 })
    );
}

#[test]
fn identifier_rules() {
    assert!(check_identifier("abc_9"));
    assert!(check_identifier("_"));
    assert!(check_identifier("Z"));
    assert!(!check_identifier(""));
    assert!(!check_identifier("9a"));
    assert!(!check_identifier("a-b"));
    assert!(!check_identifier("\u{e9}"));
}

#[test]
fn module_path_splitting() {
    assert_eq!(split_module_path("a::b::c"), vec!["a", "b", "c"]);
    assert_eq!(split_module_path("single"), vec!["single"]);
    assert_eq!(split_module_path(""), vec![""]);
    assert_eq!(split_module_path("a:::b"), vec!["a", ":b"]);
    assert_eq!(split_module_path("a::"), vec!["a", ""]);
    assert_eq!(
        Namespace::from_module_path("a::"),
        Err(NamespaceError::InvalidIdentifier { segment: 1 })
    );
}
