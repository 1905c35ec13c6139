//! What the command line decides: where the export goes and how the program ends.

use vstd::prelude::*;

use crate::op::{AccountDetails, Error};

verus! {

/// The export directory that is used where none is given, below the user's
/// home directory.
pub const DEFAULT_EXPORT_DIRECTORY: &'static str = ".config/op/bookmarks";

/// Where the metadata files go.
#[derive(Debug, PartialEq, Eq)]
pub enum ExportPath<P> {
    /// To the given directory.
    Given(P),
    /// To the directory with the given path below the user's home directory.
    UnderHome(String),
}

/// Where the metadata files go: to the directory given on the command line,
/// and to the default directory below the user's home directory where none
/// is given.
pub fn export_path<P>(cli_path: Option<P>) -> (path: ExportPath<P>)
    ensures
        match cli_path {
            Some(given) => path == ExportPath::Given(given),
            None => path matches ExportPath::UnderHome(relative) && relative@
                == DEFAULT_EXPORT_DIRECTORY@,
        },
{
    match cli_path {
        Some(given) => ExportPath::Given(given),
        None => ExportPath::UnderHome(DEFAULT_EXPORT_DIRECTORY.to_owned()),
    }
}

/// The exit code of an export: 1 where no account could be had, since then
/// there is nothing to export, and 0 otherwise, whatever else failed. No
/// account can be had where the listing of the accounts failed, or where the
/// query for the details of every account listed failed; one account that
/// fails among others does not end the export.
pub fn exit_code(accounts: &Result<Vec<AccountDetails>, Error>) -> (code: i32)
    ensures
        code == if accounts is Err {
            1i32
        } else {
            0i32
        },
{
    match accounts {
        Ok(_) => 0,
        Err(_) => 1,
    }
}

} // verus!
