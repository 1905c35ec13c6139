//! The change monitor: which signals from the watched directory start an export.

use vstd::prelude::*;
use vstd::string::StrSliceExecFns;

verus! {

/// The name of the store's journal file. The store removes it when it has
/// merged a transaction into its data file.
pub const JOURNAL_FILE_NAME: &'static str = "1password.sqlite-journal";

/// The time in seconds over which the watcher gathers the changes to a path
/// before it reports them.
pub const DEBOUNCE_SECONDS: u64 = 5;

/// A change in the watched directory. Paths are text, their components
/// separated by `/`.
#[derive(Debug, PartialEq, Eq)]
pub enum WatchEvent {
    /// A first write to the path was noticed.
    NoticeWrite(String),
    /// A removal or renaming of the path was noticed.
    NoticeRemove(String),
    /// The path was created.
    Create(String),
    /// The path was written to.
    Write(String),
    /// The attributes of the path were changed.
    Chmod(String),
    /// The path was removed.
    Remove(String),
    /// The first path was renamed to the second.
    Rename(String, String),
    /// The watched directories have to be scanned again.
    Rescan,
    /// The watcher reported an error, possibly about a path.
    Error(String, Option<String>),
}

/// What the notification channel delivered.
#[derive(Debug, PartialEq, Eq)]
pub enum Signal {
    /// A change in the watched directory.
    Event(WatchEvent),
    /// The channel was closed: no further event will come.
    Disconnected,
}

/// What the monitor does on a signal.
#[derive(Debug, PartialEq, Eq, Clone, Copy)]
pub enum Action {
    /// Run one export, then wait for the next signal.
    Export,
    /// Do nothing, and wait for the next signal.
    Ignore,
    /// End the monitor.
    Stop,
}

/// The path names the file: it is the file's name, or it ends in `/` and the
/// file's name.
pub open spec fn names_file(path: Seq<char>, name: Seq<char>) -> bool {
    &&& name.len() <= path.len()
    &&& path.subrange(path.len() - name.len(), path.len() as int) == name
    &&& (path.len() == name.len() || path[path.len() - name.len() - 1] == '/')
}

/// The path of the file of the given name in the given directory.
pub open spec fn in_directory(directory: Seq<char>, name: Seq<char>) -> Seq<char> {
    directory + seq!['/'] + name
}

/// The store has committed a transaction: the removal of its journal file
/// was noticed.
pub open spec fn is_commit(event: WatchEvent) -> bool {
    match event {
        WatchEvent::NoticeRemove(path) => names_file(path@, JOURNAL_FILE_NAME@),
        _ => false,
    }
}

/// What the monitor does on a signal: an export on a commit of the store,
/// nothing on any other event, and the end when the channel is closed.
pub open spec fn reaction(signal: Signal) -> Action {
    match signal {
        Signal::Event(event) => if is_commit(event) {
            Action::Export
        } else {
            Action::Ignore
        },
        Signal::Disconnected => Action::Stop,
    }
}

/// The number of exports that a signal starts.
pub open spec fn exports_started(signal: Signal) -> nat {
    if reaction(signal) == Action::Export {
        1
    } else {
        0
    }
}

/// A path names a file exactly when it is the file's name or some directory
/// followed by `/` and the file's name.
pub proof fn lemma_names_file(path: Seq<char>, name: Seq<char>)
    ensures
        names_file(path, name) <==> (path == name || exists|directory: Seq<char>|
            path == in_directory(directory, name)),
{
    if names_file(path, name) {
        if path.len() == name.len() {
            assert(path =~= name);
        } else {
            let directory = path.subrange(0, path.len() - name.len() - 1);
            assert(path =~= in_directory(directory, name));
        }
    }
    if path == name {
        assert(path.subrange(0, path.len() as int) =~= path);
    }
    if exists|directory: Seq<char>| path == in_directory(directory, name) {
        let directory = choose|directory: Seq<char>| path == in_directory(directory, name);
        assert(path.len() == directory.len() + 1 + name.len());
        assert(path.subrange(path.len() - name.len(), path.len() as int) =~= name);
        assert(path[path.len() - name.len() - 1] == '/');
    }
}

/// A signal starts one export where it is the notice that the journal file
/// was removed, and none where it is anything else.
pub proof fn lemma_export_only_on_commit(signal: Signal)
    ensures
        exports_started(signal) == 1 <==> (signal matches Signal::Event(WatchEvent::NoticeRemove(path))
            && names_file(path@, JOURNAL_FILE_NAME@)),
        exports_started(signal) == 0 <==> !(signal matches Signal::Event(WatchEvent::NoticeRemove(path))
            && names_file(path@, JOURNAL_FILE_NAME@)),
{
}

/// Whether the path names the store's journal file.
pub fn is_journal_path(path: &str) -> (yes: bool)
    ensures
        yes == names_file(path@, JOURNAL_FILE_NAME@),
{
    let name_len: usize = JOURNAL_FILE_NAME.unicode_len();
    let path_len: usize = path.unicode_len();
    if path_len < name_len {
        return false;
    }
    let start: usize = path_len - name_len;
    let tail = path.substring_char(start, path_len);
    if tail.to_owned() != JOURNAL_FILE_NAME.to_owned() {
        return false;
    }
    start == 0 || path.get_char(start - 1) == '/'
}

/// Decides what the monitor does on a signal. Each signal is decided on its
/// own: nothing is kept from one signal to the next, so commits that follow
/// each other closely each start an export, one after the other.
pub fn react(signal: &Signal) -> (action: Action)
    ensures
        action == reaction(*signal),
        action == Action::Export <==> (*signal matches Signal::Event(event) && is_commit(event)),
        action == Action::Stop <==> *signal is Disconnected,
{
    match signal {
        Signal::Event(WatchEvent::NoticeRemove(path)) => {
            if is_journal_path(path.as_str()) {
                Action::Export
            } else {
                Action::Ignore
            }
        },
        Signal::Event(_) => Action::Ignore,
        Signal::Disconnected => Action::Stop,
    }
}

} // verus!
