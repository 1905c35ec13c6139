use opbookmarks::op::{
    answer, find_accounts, installed, load_all_accounts, missing_accounts, status, version,
    AccountAnswer, AccountDetails, AccountOverview, CommandOutput, Error, LoadedAccounts,
    OPStatus, ToolVersion,
};

fn overview(user_uuid: &str, email: &str) -> AccountOverview {
    AccountOverview {
        email: email.to_string(),
        url: "my.1password.com".to_string(),
        user_uuid: user_uuid.to_string(),
    }
}

fn details(id: &str) -> AccountDetails {
    AccountDetails {
        id: id.to_string(),
        name: format!("Account {}", id),
        domain: "example".to_string(),
        account_type: "FAMILY".to_string(),
        state: "ACTIVE".to_string(),
        created_at: "2020-01-01T00:00:00Z".to_string(),
    }
}

fn output(stdout: &[u8], stderr: &[u8]) -> CommandOutput {
    CommandOutput { stdout: stdout.to_vec(), stderr: stderr.to_vec() }
}

fn ids(uuids: &[&str]) -> Vec<String> {
    uuids.iter().map(|uuid| uuid.to_string()).collect()
}

fn release(major: u64, minor: u64, patch: u64) -> ToolVersion {
    ToolVersion { major, minor, patch, pre: String::new(), build: String::new() }
}

#[test]
fn quiet_run_answers_with_its_output() {
    assert_eq!(answer(output(b"[{\"id\":\"V1\"}]", b"")), Ok(b"[{\"id\":\"V1\"}]".to_vec()));
    assert_eq!(answer(output(b"", b"")), Ok(Vec::new()));
}

#[test]
fn run_that_wrote_errors_is_a_failure() {
    assert_eq!(
        answer(output(b"", b"[ERROR] 2022/06/01 account is not signed in\n")),
        Err(Error::OPCLI("[ERROR] 2022/06/01 account is not signed in\n".to_string()))
    );
}

#[test]
fn errors_win_over_output() {
    assert_eq!(answer(output(b"[]", b"!")), Err(Error::OPCLI("!".to_string())));
}

#[test]
fn errors_that_are_no_text_are_still_a_failure() {
    assert_eq!(
        answer(output(b"[]", &[b'a', 0xff, b'b'])),
        Err(Error::OPCLI("a\u{fffd}b".to_string()))
    );
    assert_eq!(
        answer(output(b"", "caf\u{e9}".as_bytes())),
        Err(Error::OPCLI("caf\u{e9}".to_string()))
    );
}

#[test]
fn version_is_the_output_without_the_line_end() {
    assert_eq!(version(Some(output(b"2.7.1\n", b""))), Some("2.7.1".to_string()));
    assert_eq!(version(Some(output(b"2.7.1", b""))), Some("2.7.".to_string()));
    assert_eq!(version(Some(output(b"\n", b""))), Some(String::new()));
}

#[test]
fn version_of_empty_output_is_empty() {
    assert_eq!(version(Some(output(b"", b""))), Some(String::new()));
}

#[test]
fn version_that_is_no_text_is_read_with_replacements() {
    assert_eq!(version(Some(output(&[b'2', 0xc3, b'\n'], b""))), Some("2\u{fffd}".to_string()));
}

#[test]
fn version_is_none_after_errors() {
    assert_eq!(version(Some(output(b"2.7.1\n", b"warning"))), None);
}

#[test]
fn version_is_none_without_a_run() {
    assert_eq!(version(None), None);
}

#[test]
fn status_with_a_version_number_is_installed() {
    assert_eq!(status(Some("2.7.1".to_string())), OPStatus::Installed(release(2, 7, 1)));
    assert_eq!(status(Some("0.0.0".to_string())), OPStatus::Installed(release(0, 0, 0)));
    assert_eq!(
        status(Some("18446744073709551615.0.1".to_string())),
        OPStatus::Installed(release(u64::MAX, 0, 1))
    );
}

#[test]
fn status_keeps_the_tags_of_the_version() {
    assert_eq!(
        status(Some("2.8.0-beta.2+build.05".to_string())),
        OPStatus::Installed(ToolVersion {
            major: 2,
            minor: 8,
            patch: 0,
            pre: "beta.2".to_string(),
            build: "build.05".to_string(),
        })
    );
    assert_eq!(
        status(Some("1.0.0+20220601".to_string())),
        OPStatus::Installed(ToolVersion {
            major: 1,
            minor: 0,
            patch: 0,
            pre: String::new(),
            build: "20220601".to_string(),
        })
    );
}

#[test]
fn status_without_a_version_number_is_not_installed() {
    assert_eq!(status(Some(String::new())), OPStatus::NotInstalled);
    assert_eq!(status(Some("2.7".to_string())), OPStatus::NotInstalled);
    assert_eq!(status(Some("2.7.1\n".to_string())), OPStatus::NotInstalled);
    assert_eq!(status(Some("v2.7.1".to_string())), OPStatus::NotInstalled);
    assert_eq!(status(Some("2.7.01".to_string())), OPStatus::NotInstalled);
    assert_eq!(status(Some("2.7.1-".to_string())), OPStatus::NotInstalled);
    assert_eq!(status(Some("2.8.0-beta.02".to_string())), OPStatus::NotInstalled);
    assert_eq!(status(Some("18446744073709551616.0.0".to_string())), OPStatus::NotInstalled);
    assert_eq!(status(Some("command not found".to_string())), OPStatus::NotInstalled);
}

#[test]
fn status_without_version_text_is_not_installed() {
    assert_eq!(status(None), OPStatus::NotInstalled);
}

#[test]
fn status_of_the_tools_output() {
    assert_eq!(
        status(version(Some(output(b"2.4.1\n", b"")))),
        OPStatus::Installed(release(2, 4, 1))
    );
    assert_eq!(status(version(Some(output(b"2.4.1", b"")))), OPStatus::NotInstalled);
    assert_eq!(status(version(Some(output(b"2.4.1\n", b"x")))), OPStatus::NotInstalled);
    assert_eq!(status(version(None)), OPStatus::NotInstalled);
}

#[test]
fn installed_goes_by_the_parsed_version() {
    assert_eq!(installed(Some(release(8, 0, 0))), OPStatus::Installed(release(8, 0, 0)));
    assert_eq!(installed(None), OPStatus::NotInstalled);
}

#[test]
fn no_ids_asked_gives_all_accounts() {
    let listed = vec![overview("U1", "a@example.com"), overview("U2", "b@example.com")];
    assert_eq!(find_accounts(Ok(listed.clone()), &Vec::new()), Ok(listed));
    assert_eq!(find_accounts(Ok(Vec::new()), &Vec::new()), Ok(Vec::new()));
}

#[test]
fn ids_asked_give_their_accounts_in_the_order_asked() {
    let listed = vec![
        overview("U1", "a@example.com"),
        overview("U2", "b@example.com"),
        overview("U3", "c@example.com"),
    ];
    assert_eq!(
        find_accounts(Ok(listed), &ids(&["U3", "U1"])),
        Ok(vec![overview("U3", "c@example.com"), overview("U1", "a@example.com")])
    );
}

#[test]
fn id_that_is_not_listed_is_passed_over() {
    let listed = vec![overview("U1", "a@example.com"), overview("U2", "b@example.com")];
    assert_eq!(
        find_accounts(Ok(listed.clone()), &ids(&["U9", "U2"])),
        Ok(vec![overview("U2", "b@example.com")])
    );
    assert_eq!(find_accounts(Ok(listed.clone()), &ids(&["U9"])), Ok(Vec::new()));
    assert_eq!(find_accounts(Ok(listed), &ids(&["u1"])), Ok(Vec::new()));
    assert_eq!(find_accounts(Ok(Vec::new()), &ids(&["U1"])), Ok(Vec::new()));
}

#[test]
fn id_asked_twice_gives_its_account_twice() {
    let listed = vec![overview("U1", "a@example.com")];
    assert_eq!(
        find_accounts(Ok(listed), &ids(&["U1", "U1"])),
        Ok(vec![overview("U1", "a@example.com"), overview("U1", "a@example.com")])
    );
}

#[test]
fn first_listed_account_with_the_id_is_taken() {
    let listed = vec![
        overview("U2", "x@example.com"),
        overview("U1", "first@example.com"),
        overview("U1", "second@example.com"),
    ];
    assert_eq!(
        find_accounts(Ok(listed), &ids(&["U1"])),
        Ok(vec![overview("U1", "first@example.com")])
    );
}

#[test]
fn failed_listing_is_handed_on() {
    let transport = Error::OPCLI("[ERROR] account is not signed in".to_string());
    assert_eq!(find_accounts(Err(transport.clone()), &Vec::new()), Err(transport.clone()));
    assert_eq!(find_accounts(Err(transport.clone()), &ids(&["U1"])), Err(transport));
    let malformed = Error::Deserialize("expected value at line 1 column 1".to_string());
    assert_eq!(find_accounts(Err(malformed.clone()), &ids(&["U1"])), Err(malformed));
}

#[test]
fn listing_with_error_text_fails_the_search() {
    let listing = answer(output(b"[]", b"[ERROR] not signed in")).map(|_| Vec::new());
    assert_eq!(
        find_accounts(listing, &Vec::new()),
        Err(Error::OPCLI("[ERROR] not signed in".to_string()))
    );
}

#[test]
fn ids_that_are_not_listed_are_missing() {
    let listed = vec![overview("U1", "a@example.com"), overview("U2", "b@example.com")];
    assert_eq!(missing_accounts(&listed, &ids(&["U9", "U2", "u1", "U9"])), ids(&["U9", "u1", "U9"]));
    assert_eq!(missing_accounts(&listed, &ids(&["U2", "U1"])), Vec::<String>::new());
    assert_eq!(missing_accounts(&listed, &Vec::new()), Vec::<String>::new());
    assert_eq!(missing_accounts(&Vec::new(), &ids(&["U1"])), ids(&["U1"]));
}

fn had(user_uuid: &str, id: &str) -> AccountAnswer {
    AccountAnswer { user_uuid: user_uuid.to_string(), details: Ok(details(id)) }
}

fn failed(user_uuid: &str, error: Error) -> AccountAnswer {
    AccountAnswer { user_uuid: user_uuid.to_string(), details: Err(error) }
}

fn failure_for(user_uuid: &str) -> Error {
    Error::OPCLI(format!("Failed to load details for account {}", user_uuid))
}

#[test]
fn details_of_all_accounts_come_in_order() {
    assert_eq!(
        load_all_accounts(Ok(vec![had("U1", "A1"), had("U2", "A2")])),
        LoadedAccounts { accounts: Ok(vec![details("A1"), details("A2")]), failures: vec![] }
    );
}

#[test]
fn no_accounts_listed_is_no_failure() {
    assert_eq!(
        load_all_accounts(Ok(Vec::new())),
        LoadedAccounts { accounts: Ok(Vec::new()), failures: vec![] }
    );
}

#[test]
fn one_failed_account_is_left_out_and_the_others_stay() {
    let answers = vec![
        had("U1", "A1"),
        failed("U2", Error::Deserialize("missing field `id`".to_string())),
        had("U3", "A3"),
    ];
    assert_eq!(
        load_all_accounts(Ok(answers)),
        LoadedAccounts {
            accounts: Ok(vec![details("A1"), details("A3")]),
            failures: vec![failure_for("U2")],
        }
    );
}

#[test]
fn each_failed_account_is_reported_with_its_user_id() {
    let answers = vec![
        failed("U1", Error::OPCLI("not signed in".to_string())),
        had("U2", "A2"),
        failed("U3", Error::Deserialize("EOF while parsing".to_string())),
        failed("U1", Error::OPCLI("timeout".to_string())),
    ];
    assert_eq!(
        load_all_accounts(Ok(answers)),
        LoadedAccounts {
            accounts: Ok(vec![details("A2")]),
            failures: vec![failure_for("U1"), failure_for("U3"), failure_for("U1")],
        }
    );
}

#[test]
fn failure_of_the_only_account_fails_the_whole() {
    let answers = vec![failed("BXRGOJ2Z5JB4RMA7FUYUURELUE", Error::OPCLI("timeout".to_string()))];
    assert_eq!(
        load_all_accounts(Ok(answers)),
        LoadedAccounts {
            accounts: Err(failure_for("BXRGOJ2Z5JB4RMA7FUYUURELUE")),
            failures: vec![failure_for("BXRGOJ2Z5JB4RMA7FUYUURELUE")],
        }
    );
}

#[test]
fn failure_of_every_account_fails_the_whole_with_the_first() {
    let answers = vec![
        failed("U1", Error::OPCLI("timeout".to_string())),
        failed("U2", Error::Deserialize("missing field `id`".to_string())),
    ];
    assert_eq!(
        load_all_accounts(Ok(answers)),
        LoadedAccounts {
            accounts: Err(failure_for("U1")),
            failures: vec![failure_for("U1"), failure_for("U2")],
        }
    );
}

#[test]
fn failed_listing_fails_the_loading_as_it_is() {
    let transport = Error::OPCLI("[ERROR] account is not signed in".to_string());
    assert_eq!(
        load_all_accounts(Err(transport.clone())),
        LoadedAccounts { accounts: Err(transport), failures: vec![] }
    );
    let malformed = Error::Deserialize("expected value at line 1 column 1".to_string());
    assert_eq!(
        load_all_accounts(Err(malformed.clone())),
        LoadedAccounts { accounts: Err(malformed), failures: vec![] }
    );
}

#[test]
fn copy_of_a_failure_is_equal() {
    let transport = Error::OPCLI("x".to_string());
    assert_eq!(transport.clone(), transport);
    let malformed = Error::Deserialize("y".to_string());
    assert_eq!(malformed.clone(), malformed);
    assert_ne!(Error::OPCLI("x".to_string()), Error::Deserialize("x".to_string()));
}
