//! The mathematical model of the store's data.
//!
//! Every executable type of this crate has a view into one of these types:
//! text is a sequence of characters, a list is a sequence, a revision is a
//! natural number. Contracts are stated over these values.

use vstd::prelude::*;

verus! {

/// The texts of a list of strings.
pub open spec fn texts(strings: Seq<String>) -> Seq<Seq<char>> {
    strings.map_values(|s: String| s@)
}

/// The models of a list of records.
pub open spec fn views<T: View>(records: Seq<T>) -> Seq<T::V> {
    records.map_values(|r: T| r@)
}

/// One line of the store's account listing.
pub struct AccountListing {
    pub email: Seq<char>,
    pub url: Seq<char>,
    pub user_uuid: Seq<char>,
}

/// An account. Its identity is `id`.
pub struct Account {
    pub id: Seq<char>,
    pub name: Seq<char>,
    pub domain: Seq<char>,
    pub account_type: Seq<char>,
    pub state: Seq<char>,
    pub created_at: Seq<char>,
}

/// A reference to a vault, as an item carries it.
pub struct VaultRef {
    pub id: Seq<char>,
    pub name: Option<Seq<char>>,
}

/// A vault. Within an account its identity is `id`; `content_version` is the
/// content revision, which the store raises whenever an item of the vault changes.
pub struct Vault {
    pub id: Seq<char>,
    pub name: Seq<char>,
    pub attribute_version: nat,
    pub content_version: nat,
    pub vault_type: Seq<char>,
    pub created_at: Seq<char>,
    pub updated_at: Seq<char>,
}

/// One line of a vault's item listing.
pub struct ItemListing {
    pub id: Seq<char>,
    pub title: Seq<char>,
    pub version: nat,
    pub vault: VaultRef,
    pub category: Seq<char>,
    pub last_edited_by: Seq<char>,
    pub created_at: Seq<char>,
    pub updated_at: Seq<char>,
}

/// A web address of an item.
pub struct Url {
    pub primary: Option<bool>,
    pub href: Seq<char>,
}

/// An item. Within a vault its identity is `id`.
pub struct Item {
    pub id: Seq<char>,
    pub title: Seq<char>,
    pub tags: Option<Seq<Seq<char>>>,
    pub version: nat,
    pub vault: VaultRef,
    pub category: Seq<char>,
    pub last_edited_by: Seq<char>,
    pub created_at: Seq<char>,
    pub updated_at: Seq<char>,
    pub urls: Option<Seq<Url>>,
}

/// Why a query to the store gave no answer.
pub enum Failure {
    /// The store's command line tool reported an error; the text is what it said.
    Transport(Seq<char>),
    /// The tool answered, but not in the expected shape; the text says where.
    Malformed(Seq<char>),
}

/// What the query for the details of one account gave: the user id asked for,
/// and the account or why there is none.
pub struct AnsweredAccount {
    pub user_uuid: Seq<char>,
    pub details: Result<Account, Failure>,
}

/// What came of loading the accounts to export: the accounts or why there is
/// none, and the failures to report.
pub struct Loaded {
    pub accounts: Result<Seq<Account>, Failure>,
    pub failures: Seq<Failure>,
}

/// A version number of the store's command line tool: three numbers, the
/// pre-release tag and the build tag, each tag empty where the version has none.
pub struct Version {
    pub major: nat,
    pub minor: nat,
    pub patch: nat,
    pub pre: Seq<char>,
    pub build: Seq<char>,
}

/// Whether the store's command line tool is there, and in which version.
pub enum Status {
    NotInstalled,
    Installed(Version),
}

/// The metadata of one item, as the legacy bookmark format holds it.
pub struct Metadata {
    pub uuid: Seq<char>,
    pub profile_uuid: Seq<char>,
    pub vault_uuid: Seq<char>,
    pub category_uuid: Seq<char>,
    pub item_title: Seq<char>,
    pub item_description: Seq<char>,
    pub website_urls: Seq<Seq<char>>,
    pub account_name: Seq<char>,
    pub vault_name: Seq<char>,
    pub category_plural_name: Seq<char>,
    pub category_singular_name: Seq<char>,
    pub modified_at: nat,
    pub created_at: nat,
}

/// A metadata file to write: the directory below the export directory, the
/// file's name in it, and what the file holds.
pub struct FileToWrite {
    pub directory: Seq<char>,
    pub file_name: Seq<char>,
    pub metadata: Metadata,
}

/// What is remembered of one account: its id and the vaults last seen in it.
pub type Remembered = (Seq<char>, Seq<Vault>);

/// The cache record: for each account id the vaults last seen in that account.
pub type Record = Map<Seq<char>, Seq<Vault>>;

/// The record that a list of entries stands for. Where an account id occurs
/// twice, the later entry counts.
pub open spec fn record_of(entries: Seq<Remembered>) -> Record
    decreases entries.len(),
{
    if entries.len() == 0 {
        Map::empty()
    } else {
        record_of(entries.drop_last()).insert(entries.last().0, entries.last().1)
    }
}

/// The content revision of the first vault of the list with the given id, and
/// 0 where the list has no such vault.
pub open spec fn listed_revision(vaults: Seq<Vault>, vault_id: Seq<char>) -> nat
    decreases vaults.len(),
{
    if vaults.len() == 0 {
        0
    } else if vaults[0].id == vault_id {
        vaults[0].content_version
    } else {
        listed_revision(vaults.skip(1), vault_id)
    }
}

/// The content revision that the record remembers for a vault of an account,
/// and 0 where it knows nothing of the account or of the vault.
pub open spec fn revision_of(record: Record, account_id: Seq<char>, vault_id: Seq<char>) -> nat {
    if record.contains_key(account_id) {
        listed_revision(record[account_id], vault_id)
    } else {
        0
    }
}

/// The list holds a vault with the given id.
pub open spec fn lists_vault(vaults: Seq<Vault>, vault_id: Seq<char>) -> bool {
    exists|i: int| 0 <= i < vaults.len() && (#[trigger] vaults[i]).id == vault_id
}

/// No vault id occurs twice in the list.
pub open spec fn distinct_vaults(vaults: Seq<Vault>) -> bool {
    forall|i: int, j: int|
        0 <= i < j < vaults.len() ==> (#[trigger] vaults[i]).id != (#[trigger] vaults[j]).id
}

/// The record remembers the given vault of the given account.
pub open spec fn remembers(record: Record, account_id: Seq<char>, vault_id: Seq<char>) -> bool {
    record.contains_key(account_id) && lists_vault(record[account_id], vault_id)
}

/// A vault is dirty when the store's content revision of it is greater than
/// the one that the record remembers. The items of a dirty vault are fetched
/// and written again; those of a clean vault are left alone.
pub open spec fn is_dirty(cached: Record, account_id: Seq<char>, vault: Vault) -> bool {
    vault.content_version > revision_of(cached, account_id, vault.id)
}

/// What an export does with one vault.
pub struct PlannedVault {
    pub vault: Vault,
    /// Whether the vault's items are fetched. Where this is false, no query
    /// for items is made and the vault's list of items to write is empty.
    pub dirty: bool,
}

/// What an export does with one account.
pub struct PlannedAccount {
    pub account: Account,
    pub vaults: Seq<PlannedVault>,
}

/// What an export does: the accounts to go through, each with its vaults, and
/// the record to remember afterwards.
pub struct Plan {
    pub accounts: Seq<PlannedAccount>,
    pub record: Record,
}

/// The vaults of one account in a plan: each vault of the account, in the
/// store's order, dirty or clean by the record of the last export.
pub open spec fn planned_vaults(cached: Record, account_id: Seq<char>, vaults: Seq<Vault>) -> Seq<
    PlannedVault,
> {
    Seq::new(
        vaults.len(),
        |i: int| PlannedVault { vault: vaults[i], dirty: is_dirty(cached, account_id, vaults[i]) },
    )
}

/// Some account of the list has the given id.
pub open spec fn has_account(accounts: Seq<Account>, account_id: Seq<char>) -> bool {
    exists|i: int| 0 <= i < accounts.len() && (#[trigger] accounts[i]).id == account_id
}

/// The accounts of a plan: of the given accounts, in their order, those whose
/// vaults are known, each with its vaults. An account whose vaults could not
/// be had is left out. An account is its id: where an id stands more than
/// once among the given accounts, the first of them is planned and the
/// others are passed over.
pub open spec fn planned_accounts(accounts: Seq<Account>, current: Record, cached: Record) -> Seq<
    PlannedAccount,
>
    decreases accounts.len(),
{
    if accounts.len() == 0 {
        Seq::empty()
    } else {
        let front = planned_accounts(accounts.drop_last(), current, cached);
        let account = accounts.last();
        if current.contains_key(account.id) && !has_account(accounts.drop_last(), account.id) {
            front.push(
                PlannedAccount {
                    account,
                    vaults: planned_vaults(cached, account.id, current[account.id]),
                },
            )
        } else {
            front
        }
    }
}

/// Some account of the plan has the given id.
pub open spec fn plans_account(planned: Seq<PlannedAccount>, account_id: Seq<char>) -> bool {
    exists|a: int| 0 <= a < planned.len() && (#[trigger] planned[a]).account.id == account_id
}

/// The accounts without those of the given id, in their order.
pub open spec fn other_accounts(accounts: Seq<Account>, account_id: Seq<char>) -> Seq<Account> {
    accounts.filter(|account: Account| account.id != account_id)
}

/// The plan of an export, from the accounts to export, the vaults that the
/// store now lists for each account, and the record of the last export. The
/// record to remember afterwards is what the store now lists.
pub open spec fn export_plan(accounts: Seq<Account>, current: Record, cached: Record) -> Plan {
    Plan { accounts: planned_accounts(accounts, current, cached), record: current }
}

} // verus!
