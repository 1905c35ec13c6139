use std::path::PathBuf;

use opbookmarks::cli::{exit_code, export_path, ExportPath, DEFAULT_EXPORT_DIRECTORY};
use opbookmarks::op::{AccountDetails, Error};

#[test]
fn given_export_path_is_used() {
    assert_eq!(
        export_path(Some(PathBuf::from("/tmp/bookmarks"))),
        ExportPath::Given(PathBuf::from("/tmp/bookmarks"))
    );
    assert_eq!(export_path(Some(String::new())), ExportPath::Given(String::new()));
}

#[test]
fn default_export_path_is_below_home() {
    assert_eq!(
        export_path::<PathBuf>(None),
        ExportPath::UnderHome(".config/op/bookmarks".to_string())
    );
    assert_eq!(DEFAULT_EXPORT_DIRECTORY, ".config/op/bookmarks");
}

#[test]
fn exit_code_is_one_without_accounts() {
    assert_eq!(exit_code(&Err(Error::OPCLI("[ERROR] not signed in".to_string()))), 1);
    assert_eq!(exit_code(&Err(Error::Deserialize("EOF while parsing".to_string()))), 1);
}

#[test]
fn exit_code_is_zero_with_accounts() {
    assert_eq!(exit_code(&Ok(Vec::new())), 0);
    assert_eq!(
        exit_code(&Ok(vec![AccountDetails {
            id: "A1".to_string(),
            name: "Family".to_string(),
            domain: "example".to_string(),
            account_type: "FAMILY".to_string(),
            state: "ACTIVE".to_string(),
            created_at: "2020-01-01T00:00:00Z".to_string(),
        }])),
        0
    );
}
