//! The queries to the store's command line tool, as the tool's arguments.

use vstd::prelude::*;

use crate::model::texts;

verus! {

/// The name of the store's command line tool.
pub const TOOL: &'static str = "op";

/// A query to the store's command line tool.
#[derive(Debug, PartialEq, Eq)]
pub enum Query {
    /// The tool's version.
    Version,
    /// The listing of the accounts.
    AccountList,
    /// The details of the account of a user.
    AccountGet { user_id: String },
    /// The listing of the vaults of an account.
    VaultList { account_id: String },
    /// The details of each vault of a listing, which the tool reads from its
    /// input stream.
    VaultGetListed { account_id: String },
    /// The details of one vault.
    VaultGet { account_id: String, vault_id: String },
    /// The listing of the items of a vault, to be handed on to
    /// [`Query::ItemGetListed`].
    ItemList { account_id: String, vault_id: String },
    /// The details of each item of a listing, which the tool reads from its
    /// input stream.
    ItemGetListed { account_id: String, vault_id: String },
    /// The listing of the items of a vault.
    ItemFind { account_id: String, vault_id: String },
    /// The details of one item.
    ItemGet { account_id: String, vault_id: String, item_id: String },
}

/// The arguments that put a query to the tool, in the order in which the tool
/// gets them. All but the query for the version ask for JSON and let the tool
/// use its own cache.
pub open spec fn arguments_of(query: Query) -> Seq<Seq<char>> {
    match query {
        Query::Version => seq!["--version"@],
        Query::AccountList => seq!["--cache"@, "--format"@, "json"@, "account"@, "list"@],
        Query::AccountGet { user_id } => seq![
            "--cache"@,
            "--account"@,
            user_id@,
            "--format"@,
            "json"@,
            "account"@,
            "get"@,
        ],
        Query::VaultList { account_id } => seq![
            "--cache"@,
            "--format"@,
            "json"@,
            "--account"@,
            account_id@,
            "vault"@,
            "list"@,
        ],
        Query::VaultGetListed { account_id } => seq![
            "--cache"@,
            "--format"@,
            "json"@,
            "--account"@,
            account_id@,
            "vault"@,
            "get"@,
            "-"@,
        ],
        Query::VaultGet { account_id, vault_id } => seq![
            "--cache"@,
            "--format"@,
            "json"@,
            "--account"@,
            account_id@,
            "vault"@,
            "get"@,
            vault_id@,
        ],
        Query::ItemList { account_id, vault_id } => seq![
            "--cache"@,
            "--format"@,
            "json"@,
            "--account"@,
            account_id@,
            "--vault"@,
            vault_id@,
            "item"@,
            "list"@,
        ],
        Query::ItemGetListed { account_id, vault_id } => seq![
            "--cache"@,
            "--account"@,
            account_id@,
            "--vault"@,
            vault_id@,
            "item"@,
            "get"@,
            "--format"@,
            "json"@,
            "-"@,
        ],
        Query::ItemFind { account_id, vault_id } => seq![
            "--cache"@,
            "--format"@,
            "json"@,
            "--account"@,
            account_id@,
            "item"@,
            "list"@,
            "--vault"@,
            vault_id@,
        ],
        Query::ItemGet { account_id, vault_id, item_id } => seq![
            "--cache"@,
            "--account"@,
            account_id@,
            "--vault"@,
            vault_id@,
            "--format"@,
            "json"@,
            "item"@,
            "get"@,
            item_id@,
        ],
    }
}

/// Whether the tool reads a listing from its input stream for this query.
pub open spec fn reads_listing_of(query: Query) -> bool {
    query is VaultGetListed || query is ItemGetListed
}

impl Query {
    /// The arguments that put the query to the tool.
    pub fn arguments(&self) -> (arguments: Vec<String>)
        ensures
            texts(arguments@) == arguments_of(*self),
    {
        let arguments = match self {
            Query::Version => vec!["--version".to_owned()],
            Query::AccountList => vec![
                "--cache".to_owned(),
                "--format".to_owned(),
                "json".to_owned(),
                "account".to_owned(),
                "list".to_owned(),
            ],
            Query::AccountGet { user_id } => vec![
                "--cache".to_owned(),
                "--account".to_owned(),
                user_id.clone(),
                "--format".to_owned(),
                "json".to_owned(),
                "account".to_owned(),
                "get".to_owned(),
            ],
            Query::VaultList { account_id } => vec![
                "--cache".to_owned(),
                "--format".to_owned(),
                "json".to_owned(),
                "--account".to_owned(),
                account_id.clone(),
                "vault".to_owned(),
                "list".to_owned(),
            ],
            Query::VaultGetListed { account_id } => vec![
                "--cache".to_owned(),
                "--format".to_owned(),
                "json".to_owned(),
                "--account".to_owned(),
                account_id.clone(),
                "vault".to_owned(),
                "get".to_owned(),
                "-".to_owned(),
            ],
            Query::VaultGet { account_id, vault_id } => vec![
                "--cache".to_owned(),
                "--format".to_owned(),
                "json".to_owned(),
                "--account".to_owned(),
                account_id.clone(),
                "vault".to_owned(),
                "get".to_owned(),
                vault_id.clone(),
            ],
            Query::ItemList { account_id, vault_id } => vec![
                "--cache".to_owned(),
                "--format".to_owned(),
                "json".to_owned(),
                "--account".to_owned(),
                account_id.clone(),
                "--vault".to_owned(),
                vault_id.clone(),
                "item".to_owned(),
                "list".to_owned(),
            ],
            Query::ItemGetListed { account_id, vault_id } => vec![
                "--cache".to_owned(),
                "--account".to_owned(),
                account_id.clone(),
                "--vault".to_owned(),
                vault_id.clone(),
                "item".to_owned(),
                "get".to_owned(),
                "--format".to_owned(),
                "json".to_owned(),
                "-".to_owned(),
            ],
            Query::ItemFind { account_id, vault_id } => vec![
                "--cache".to_owned(),
                "--format".to_owned(),
                "json".to_owned(),
                "--account".to_owned(),
                account_id.clone(),
                "item".to_owned(),
                "list".to_owned(),
                "--vault".to_owned(),
                vault_id.clone(),
            ],
            Query::ItemGet { account_id, vault_id, item_id } => vec![
                "--cache".to_owned(),
                "--account".to_owned(),
                account_id.clone(),
                "--vault".to_owned(),
                vault_id.clone(),
                "--format".to_owned(),
                "json".to_owned(),
                "item".to_owned(),
                "get".to_owned(),
                item_id.clone(),
            ],
        };
        assert(texts(arguments@) =~= arguments_of(*self));
        arguments
    }

    /// Whether the tool reads a listing from its input stream for this query.
    pub fn reads_listing(&self) -> (reads: bool)
        ensures
            reads == reads_listing_of(*self),
    {
        match self {
            Query::VaultGetListed { .. } => true,
            Query::ItemGetListed { .. } => true,
            _ => false,
        }
    }
}

} // verus!
