use opbookmarks::monitor::{
    is_journal_path, react, Action, Signal, WatchEvent, DEBOUNCE_SECONDS, JOURNAL_FILE_NAME,
};

const DATA: &str = "/Users/me/Library/Group Containers/2BUA8C4S2C.com.1password/Library/Application Support/1Password/Data";

fn journal() -> String {
    format!("{}/1password.sqlite-journal", DATA)
}

fn on(event: WatchEvent) -> Action {
    react(&Signal::Event(event))
}

#[test]
fn journal_file_name_is_the_stores() {
    assert_eq!(JOURNAL_FILE_NAME, "1password.sqlite-journal");
    assert_eq!(DEBOUNCE_SECONDS, 5);
}

#[test]
fn removal_of_the_journal_starts_an_export() {
    assert_eq!(on(WatchEvent::NoticeRemove(journal())), Action::Export);
}

#[test]
fn each_removal_of_the_journal_starts_one_export() {
    let signals = vec![
        Signal::Event(WatchEvent::NoticeWrite(journal())),
        Signal::Event(WatchEvent::NoticeRemove(journal())),
        Signal::Event(WatchEvent::Write(format!("{}/1password.sqlite", DATA))),
        Signal::Event(WatchEvent::NoticeRemove(journal())),
        Signal::Event(WatchEvent::Remove(journal())),
        Signal::Event(WatchEvent::NoticeRemove(format!("{}/1password.sqlite-wal", DATA))),
    ];
    let exports = signals.iter().filter(|signal| react(signal) == Action::Export).count();
    assert_eq!(exports, 2);
    assert!(signals.iter().all(|signal| react(signal) != Action::Stop));
}

#[test]
fn removal_of_another_file_is_ignored() {
    assert_eq!(on(WatchEvent::NoticeRemove(format!("{}/1password.sqlite", DATA))), Action::Ignore);
    assert_eq!(on(WatchEvent::NoticeRemove(format!("{}/other.txt", DATA))), Action::Ignore);
    assert_eq!(on(WatchEvent::NoticeRemove(String::new())), Action::Ignore);
    assert_eq!(on(WatchEvent::NoticeRemove(DATA.to_string())), Action::Ignore);
}

#[test]
fn write_to_the_journal_is_ignored() {
    assert_eq!(on(WatchEvent::NoticeWrite(journal())), Action::Ignore);
    assert_eq!(on(WatchEvent::Write(journal())), Action::Ignore);
}

#[test]
fn other_events_on_the_journal_are_ignored() {
    assert_eq!(on(WatchEvent::Create(journal())), Action::Ignore);
    assert_eq!(on(WatchEvent::Chmod(journal())), Action::Ignore);
    assert_eq!(on(WatchEvent::Remove(journal())), Action::Ignore);
    assert_eq!(on(WatchEvent::Rename(journal(), journal())), Action::Ignore);
    assert_eq!(on(WatchEvent::Rescan), Action::Ignore);
    assert_eq!(on(WatchEvent::Error("overflow".to_string(), Some(journal()))), Action::Ignore);
    assert_eq!(on(WatchEvent::Error("overflow".to_string(), None)), Action::Ignore);
}

#[test]
fn closed_channel_ends_the_monitor() {
    assert_eq!(react(&Signal::Disconnected), Action::Stop);
}

#[test]
fn bare_journal_name_is_a_journal_path() {
    assert!(is_journal_path("1password.sqlite-journal"));
    assert!(is_journal_path("/1password.sqlite-journal"));
    assert!(is_journal_path("Data/1password.sqlite-journal"));
    assert!(is_journal_path("./1password.sqlite-journal"));
}

#[test]
fn longer_file_name_is_no_journal_path() {
    assert!(!is_journal_path("x1password.sqlite-journal"));
    assert!(!is_journal_path("Data/old-1password.sqlite-journal"));
    assert!(!is_journal_path("Data/1password.sqlite-journal.bak"));
    assert!(!is_journal_path("Data/1password.sqlite-journal/"));
    assert!(!is_journal_path("Data/1password.sqlite-journal/lock"));
    assert!(!is_journal_path("Data\\1password.sqlite-journal"));
}

#[test]
fn short_and_empty_paths_are_no_journal_paths() {
    assert!(!is_journal_path(""));
    assert!(!is_journal_path("/"));
    assert!(!is_journal_path("journal"));
    assert!(!is_journal_path("password.sqlite-journal"));
    assert!(!is_journal_path("1Password.sqlite-journal"));
}

#[test]
fn path_with_wide_characters_is_measured_in_characters() {
    assert!(is_journal_path("/Users/zoë/Données/1password.sqlite-journal"));
    assert!(!is_journal_path("/Users/zoë/Données/1password.sqlite-journał"));
    assert!(!is_journal_path("é1password.sqlite-journal"));
    assert!(!is_journal_path("ééééééééééééééééééééééé"));
    assert!(!is_journal_path("éééééééééééééééééééééééé"));
}
