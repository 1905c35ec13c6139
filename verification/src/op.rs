//! The store client: the records that the store's command line tool hands out,
//! and what its answers mean.

use vstd::prelude::*;
use vstd::string::StringExecFns;

use crate::model::{
    texts, views, Account, AccountListing, AnsweredAccount, Failure, Item, ItemListing, Loaded,
    Status, Url, Vault, VaultRef, Version,
};

verus! {

/// One line of the store's account listing.
#[derive(Debug, PartialEq, Eq, Hash)]
pub struct AccountOverview {
    pub email: String,
    pub url: String,
    pub user_uuid: String,
}

impl View for AccountOverview {
    type V = AccountListing;

    open spec fn view(&self) -> AccountListing {
        AccountListing { email: self.email@, url: self.url@, user_uuid: self.user_uuid@ }
    }
}

impl Clone for AccountOverview {
    fn clone(&self) -> (copy: Self)
        ensures
            copy@ == self@,
    {
        AccountOverview {
            email: self.email.clone(),
            url: self.url.clone(),
            user_uuid: self.user_uuid.clone(),
        }
    }
}

/// An account of the store. Its identity is `id`.
#[derive(Debug, PartialEq, Eq, Hash)]
pub struct AccountDetails {
    pub id: String,
    pub name: String,
    pub domain: String,
    pub account_type: String,
    pub state: String,
    pub created_at: String,
}

impl View for AccountDetails {
    type V = Account;

    open spec fn view(&self) -> Account {
        Account {
            id: self.id@,
            name: self.name@,
            domain: self.domain@,
            account_type: self.account_type@,
            state: self.state@,
            created_at: self.created_at@,
        }
    }
}

impl Clone for AccountDetails {
    fn clone(&self) -> (copy: Self)
        ensures
            copy@ == self@,
    {
        AccountDetails {
            id: self.id.clone(),
            name: self.name.clone(),
            domain: self.domain.clone(),
            account_type: self.account_type.clone(),
            state: self.state.clone(),
            created_at: self.created_at.clone(),
        }
    }
}

/// A reference to a vault, as an item carries it.
#[derive(Debug, PartialEq, Eq, Hash)]
pub struct VaultOverview {
    pub id: String,
    pub name: Option<String>,
}

impl View for VaultOverview {
    type V = VaultRef;

    open spec fn view(&self) -> VaultRef {
        VaultRef {
            id: self.id@,
            name: match self.name {
                Some(name) => Some(name@),
                None => None,
            },
        }
    }
}

impl Clone for VaultOverview {
    fn clone(&self) -> (copy: Self)
        ensures
            copy@ == self@,
    {
        VaultOverview {
            id: self.id.clone(),
            name: match &self.name {
                Some(name) => Some(name.clone()),
                None => None,
            },
        }
    }
}

/// A vault of an account. Within the account its identity is `id`.
#[derive(Debug, PartialEq, Eq, Hash)]
pub struct VaultDetails {
    pub id: String,
    pub name: String,
    pub attribute_version: usize,
    /// The content revision: the store raises it whenever an item of the vault
    /// changes.
    pub content_version: usize,
    pub vault_type: String,
    pub created_at: String,
    pub updated_at: String,
}

impl View for VaultDetails {
    type V = Vault;

    open spec fn view(&self) -> Vault {
        Vault {
            id: self.id@,
            name: self.name@,
            attribute_version: self.attribute_version as nat,
            content_version: self.content_version as nat,
            vault_type: self.vault_type@,
            created_at: self.created_at@,
            updated_at: self.updated_at@,
        }
    }
}

impl Clone for VaultDetails {
    fn clone(&self) -> (copy: Self)
        ensures
            copy@ == self@,
    {
        VaultDetails {
            id: self.id.clone(),
            name: self.name.clone(),
            attribute_version: self.attribute_version,
            content_version: self.content_version,
            vault_type: self.vault_type.clone(),
            created_at: self.created_at.clone(),
            updated_at: self.updated_at.clone(),
        }
    }
}

/// One line of a vault's item listing.
#[derive(Debug, PartialEq, Eq, Hash)]
pub struct ItemOverview {
    pub id: String,
    pub title: String,
    pub version: usize,
    pub vault: VaultOverview,
    pub category: String,
    pub last_edited_by: String,
    pub created_at: String,
    pub updated_at: String,
}

impl View for ItemOverview {
    type V = ItemListing;

    open spec fn view(&self) -> ItemListing {
        ItemListing {
            id: self.id@,
            title: self.title@,
            version: self.version as nat,
            vault: self.vault@,
            category: self.category@,
            last_edited_by: self.last_edited_by@,
            created_at: self.created_at@,
            updated_at: self.updated_at@,
        }
    }
}

/// A web address of an item.
#[derive(Debug, PartialEq, Eq, Hash)]
pub struct OPURL {
    pub primary: Option<bool>,
    pub href: String,
}

impl View for OPURL {
    type V = Url;

    open spec fn view(&self) -> Url {
        Url { primary: self.primary, href: self.href@ }
    }
}

/// An item of a vault. Within the vault its identity is `id`.
#[derive(Debug, PartialEq, Eq, Hash)]
pub struct ItemDetails {
    pub id: String,
    pub title: String,
    pub tags: Option<Vec<String>>,
    pub version: usize,
    pub vault: VaultOverview,
    pub category: String,
    pub last_edited_by: String,
    pub created_at: String,
    pub updated_at: String,
    pub urls: Option<Vec<OPURL>>,
}

impl View for ItemDetails {
    type V = Item;

    open spec fn view(&self) -> Item {
        Item {
            id: self.id@,
            title: self.title@,
            tags: match self.tags {
                Some(tags) => Some(texts(tags@)),
                None => None,
            },
            version: self.version as nat,
            vault: self.vault@,
            category: self.category@,
            last_edited_by: self.last_edited_by@,
            created_at: self.created_at@,
            updated_at: self.updated_at@,
            urls: match self.urls {
                Some(urls) => Some(views(urls@)),
                None => None,
            },
        }
    }
}

/// Why a query to the store gave no answer.
#[derive(Debug, PartialEq, Eq)]
pub enum Error {
    /// The command line tool wrote to its error stream; this is what it wrote.
    OPCLI(String),
    /// The tool's answer could not be read as the expected record.
    Deserialize(String),
}

impl View for Error {
    type V = Failure;

    open spec fn view(&self) -> Failure {
        match self {
            Error::OPCLI(message) => Failure::Transport(message@),
            Error::Deserialize(message) => Failure::Malformed(message@),
        }
    }
}

impl Clone for Error {
    fn clone(&self) -> (copy: Self)
        ensures
            copy@ == self@,
    {
        match self {
            Error::OPCLI(message) => Error::OPCLI(message.clone()),
            Error::Deserialize(message) => Error::Deserialize(message.clone()),
        }
    }
}

/// The first account of the listing with the given user id, if there is one.
pub open spec fn first_with_uuid(listed: Seq<AccountListing>, user_uuid: Seq<char>) -> Option<
    AccountListing,
>
    decreases listed.len(),
{
    if listed.len() == 0 {
        None
    } else if listed[0].user_uuid == user_uuid {
        Some(listed[0])
    } else {
        first_with_uuid(listed.skip(1), user_uuid)
    }
}

/// For each of the user ids, in their order, the first account of the listing
/// with that id. An id that the listing does not hold gives nothing.
pub open spec fn selected_accounts(listed: Seq<AccountListing>, user_uuids: Seq<Seq<char>>) -> Seq<
    AccountListing,
>
    decreases user_uuids.len(),
{
    if user_uuids.len() == 0 {
        Seq::empty()
    } else {
        let front = selected_accounts(listed, user_uuids.drop_last());
        match first_with_uuid(listed, user_uuids.last()) {
            Some(account) => front.push(account),
            None => front,
        }
    }
}

/// The accounts to export: the whole listing where no user id is asked for,
/// and else the accounts asked for.
pub open spec fn accounts_to_export(listed: Seq<AccountListing>, user_uuids: Seq<Seq<char>>) -> Seq<
    AccountListing,
> {
    if user_uuids.len() == 0 {
        listed
    } else {
        selected_accounts(listed, user_uuids)
    }
}

/// The place of the first account of the listing with the given user id.
fn find_account(listed: &Vec<AccountOverview>, user_uuid: &String) -> (found: Option<usize>)
    ensures
        match found {
            Some(i) => i < listed@.len() && first_with_uuid(views(listed@), user_uuid@) == Some(
                listed@[i as int]@,
            ),
            None => first_with_uuid(views(listed@), user_uuid@) is None,
        },
{
    let ghost all = views(listed@);
    let mut i: usize = 0;
    assert(all.skip(0) =~= all);
    while i < listed.len()
        invariant
            i <= listed@.len(),
            all == views(listed@),
            first_with_uuid(all, user_uuid@) == first_with_uuid(all.skip(i as int), user_uuid@),
        decreases listed@.len() - i,
    {
        assert(all.skip(i as int)[0] == listed@[i as int]@);
        assert(all.skip(i as int).skip(1) =~= all.skip(i + 1));
        if listed[i].user_uuid == *user_uuid {
            return Some(i);
        }
        i += 1;
    }
    None
}

/// The accounts to export, or the failure of the listing, which is handed on
/// as it is.
pub open spec fn found_accounts(
    listing: Result<Seq<AccountListing>, Failure>,
    user_uuids: Seq<Seq<char>>,
) -> Result<Seq<AccountListing>, Failure> {
    match listing {
        Ok(listed) => Ok(accounts_to_export(listed, user_uuids)),
        Err(failure) => Err(failure),
    }
}

/// The view of a listing of accounts, or of the failure to have one.
pub open spec fn accounts_view(listing: Result<Vec<AccountOverview>, Error>) -> Result<
    Seq<AccountListing>,
    Failure,
> {
    match listing {
        Ok(listed) => Ok(views(listed@)),
        Err(error) => Err(error@),
    }
}

/// The accounts to export, from what the store's listing of accounts gave
/// and the user ids asked for. A listing that failed is handed on as the
/// failure that it is. Else, where no id is asked for, the accounts to export
/// are all the accounts of the listing; where ids are asked for, they are,
/// for each id in the order asked, the first account of the listing with
/// that id, and an id that the listing does not hold is passed over.
pub fn find_accounts(
    listing: Result<Vec<AccountOverview>, Error>,
    account_user_uuids: &Vec<String>,
) -> (found: Result<Vec<AccountOverview>, Error>)
    ensures
        accounts_view(found) == found_accounts(accounts_view(listing), texts(account_user_uuids@)),
{
    let listed = match listing {
        Ok(listed) => listed,
        Err(error) => {
            return Err(error);
        },
    };
    if account_user_uuids.len() == 0 {
        return Ok(listed);
    }
    let ghost asked = texts(account_user_uuids@);
    let mut found: Vec<AccountOverview> = Vec::new();
    let mut i: usize = 0;
    assert(asked.take(0) =~= Seq::<Seq<char>>::empty());
    assert(views(found@) =~= Seq::<AccountListing>::empty());
    while i < account_user_uuids.len()
        invariant
            i <= account_user_uuids@.len(),
            asked == texts(account_user_uuids@),
            views(found@) == selected_accounts(views(listed@), asked.take(i as int)),
        decreases account_user_uuids@.len() - i,
    {
        assert(asked.take(i + 1).drop_last() =~= asked.take(i as int));
        assert(asked.take(i + 1).last() == account_user_uuids@[i as int]@);
        match find_account(&listed, &account_user_uuids[i]) {
            Some(at) => {
                let ghost before = views(found@);
                let account = listed[at].clone();
                found.push(account);
                assert(views(found@) =~= before.push(account@));
            },
            None => {},
        }
        i += 1;
    }
    assert(asked.take(i as int) =~= asked);
    Ok(found)
}

/// Of the user ids asked for, in their order, those that the listing does not
/// hold.
pub open spec fn unlisted_ids(listed: Seq<AccountListing>, user_uuids: Seq<Seq<char>>) -> Seq<
    Seq<char>,
>
    decreases user_uuids.len(),
{
    if user_uuids.len() == 0 {
        Seq::empty()
    } else {
        let front = unlisted_ids(listed, user_uuids.drop_last());
        if first_with_uuid(listed, user_uuids.last()) is None {
            front.push(user_uuids.last())
        } else {
            front
        }
    }
}

/// The user ids asked for that the store's listing of accounts does not hold,
/// in the order asked: the ids that [`find_accounts`] passes over.
pub fn missing_accounts(listed: &Vec<AccountOverview>, account_user_uuids: &Vec<String>) -> (missing:
    Vec<String>)
    ensures
        texts(missing@) == unlisted_ids(views(listed@), texts(account_user_uuids@)),
{
    let ghost asked = texts(account_user_uuids@);
    let mut missing: Vec<String> = Vec::new();
    let mut i: usize = 0;
    assert(asked.take(0) =~= Seq::<Seq<char>>::empty());
    assert(texts(missing@) =~= Seq::<Seq<char>>::empty());
    while i < account_user_uuids.len()
        invariant
            i <= account_user_uuids@.len(),
            asked == texts(account_user_uuids@),
            texts(missing@) == unlisted_ids(views(listed@), asked.take(i as int)),
        decreases account_user_uuids@.len() - i,
    {
        assert(asked.take(i + 1).drop_last() =~= asked.take(i as int));
        assert(asked.take(i + 1).last() == account_user_uuids@[i as int]@);
        if find_account(listed, &account_user_uuids[i]).is_none() {
            let ghost before = texts(missing@);
            let user_uuid = account_user_uuids[i].clone();
            missing.push(user_uuid);
            assert(texts(missing@) =~= before.push(user_uuid@));
        }
        i += 1;
    }
    assert(asked.take(i as int) =~= asked);
    missing
}

/// What the query for the details of one account gave.
#[derive(Debug, PartialEq, Eq)]
pub struct AccountAnswer {
    /// The user id that was asked for.
    pub user_uuid: String,
    /// The account's details, or why there are none.
    pub details: Result<AccountDetails, Error>,
}

impl View for AccountAnswer {
    type V = AnsweredAccount;

    open spec fn view(&self) -> AnsweredAccount {
        AnsweredAccount {
            user_uuid: self.user_uuid@,
            details: match self.details {
                Ok(details) => Ok(details@),
                Err(error) => Err(error@),
            },
        }
    }
}

/// What the failure to load an account's details is reported with; the user
/// id follows.
pub const DETAILS_FAILURE: &'static str = "Failed to load details for account ";

/// What came of loading the accounts to export.
#[derive(Debug, PartialEq, Eq)]
pub struct LoadedAccounts {
    /// The accounts to export, or why there is none.
    pub accounts: Result<Vec<AccountDetails>, Error>,
    /// The failures to report, one for each query for an account's details
    /// that failed, in the order of the queries. Each names the user id that
    /// was asked for.
    pub failures: Vec<Error>,
}

impl View for LoadedAccounts {
    type V = Loaded;

    open spec fn view(&self) -> Loaded {
        Loaded {
            accounts: match self.accounts {
                Ok(details) => Ok(views(details@)),
                Err(error) => Err(error@),
            },
            failures: views(self.failures@),
        }
    }
}

/// The failure that the failed query for the details of a user's account is
/// reported with.
pub open spec fn details_failure(user_uuid: Seq<char>) -> Failure {
    Failure::Transport(DETAILS_FAILURE@ + user_uuid)
}

/// The details that the queries gave, in the order of the queries. A query
/// that failed gives nothing and takes nothing from the others.
pub open spec fn details_had(answers: Seq<AnsweredAccount>) -> Seq<Account>
    decreases answers.len(),
{
    if answers.len() == 0 {
        Seq::empty()
    } else {
        let front = details_had(answers.drop_last());
        match answers.last().details {
            Ok(details) => front.push(details),
            Err(_) => front,
        }
    }
}

/// The failures of the queries that failed, in the order of the queries.
pub open spec fn details_failed(answers: Seq<AnsweredAccount>) -> Seq<Failure>
    decreases answers.len(),
{
    if answers.len() == 0 {
        Seq::empty()
    } else {
        let front = details_failed(answers.drop_last());
        match answers.last().details {
            Ok(_) => front,
            Err(_) => front.push(details_failure(answers.last().user_uuid)),
        }
    }
}

/// What comes of loading the accounts to export, from what the listing of
/// the accounts and then the query for each account's details gave.
///
/// A listing that failed is the failure of the whole. Else each query that
/// failed is a failure to report, and the accounts to export are those whose
/// query did not fail, in the order of the queries. Only where queries were
/// made and every one of them failed is there no account to export: the
/// whole then fails with the first of the failures.
pub open spec fn loaded_accounts(listing: Result<Seq<AnsweredAccount>, Failure>) -> Loaded {
    match listing {
        Ok(answers) => Loaded {
            accounts: if details_had(answers).len() == 0 && details_failed(answers).len() > 0 {
                Err(details_failed(answers)[0])
            } else {
                Ok(details_had(answers))
            },
            failures: details_failed(answers),
        },
        Err(failure) => Loaded { accounts: Err(failure), failures: Seq::empty() },
    }
}

/// The view of what the listing of the accounts and the queries for their
/// details gave.
pub open spec fn listing_view(listing: Result<Vec<AccountAnswer>, Error>) -> Result<
    Seq<AnsweredAccount>,
    Failure,
> {
    match listing {
        Ok(answers) => Ok(views(answers@)),
        Err(error) => Err(error@),
    }
}

/// Every query either gives its account or is reported as a failure, and
/// none is counted twice. No account is had exactly where every query failed.
pub proof fn lemma_every_answer_counts(answers: Seq<AnsweredAccount>)
    ensures
        details_had(answers).len() + details_failed(answers).len() == answers.len(),
        details_had(answers).len() == 0 <==> forall|k: int|
            0 <= k < answers.len() ==> (#[trigger] answers[k]).details is Err,
    decreases answers.len(),
{
    if answers.len() > 0 {
        let front = answers.drop_last();
        lemma_every_answer_counts(front);
        if details_had(answers).len() == 0 {
            assert forall|k: int| 0 <= k < answers.len() implies (#[trigger] answers[k]).details
                is Err by {
                if k < front.len() {
                    assert(front[k].details is Err);
                }
            }
        }
        if forall|k: int| 0 <= k < answers.len() ==> (#[trigger] answers[k]).details is Err {
            assert(answers[answers.len() - 1].details is Err);
            assert forall|k: int| 0 <= k < front.len() implies (#[trigger] front[k]).details
                is Err by {
                assert(answers[k].details is Err);
            }
        }
    }
}

/// The account of a query that did not fail is among the accounts had,
/// whatever became of the other queries: one account's failure is not
/// another's.
pub proof fn lemma_had_account_stays(answers: Seq<AnsweredAccount>, k: int)
    requires
        0 <= k < answers.len(),
        answers[k].details is Ok,
    ensures
        details_had(answers).contains(answers[k].details->Ok_0),
        loaded_accounts(Ok(answers)).accounts == Ok::<Seq<Account>, Failure>(details_had(answers)),
    decreases answers.len(),
{
    let front = answers.drop_last();
    if k < answers.len() - 1 {
        lemma_had_account_stays(front, k);
        let at = choose|at: int|
            0 <= at < details_had(front).len() && details_had(front)[at] == front[k].details->Ok_0;
        assert(details_had(answers)[at] == answers[k].details->Ok_0);
    } else {
        assert(details_had(answers)[details_had(answers).len() - 1] == answers[k].details->Ok_0);
    }
}

/// A query that failed is among the failures to report, under the user id
/// that was asked for.
pub proof fn lemma_failed_account_is_reported(answers: Seq<AnsweredAccount>, k: int)
    requires
        0 <= k < answers.len(),
        answers[k].details is Err,
    ensures
        details_failed(answers).contains(details_failure(answers[k].user_uuid)),
        loaded_accounts(Ok(answers)).failures == details_failed(answers),
    decreases answers.len(),
{
    let front = answers.drop_last();
    if k < answers.len() - 1 {
        lemma_failed_account_is_reported(front, k);
        let at = choose|at: int|
            0 <= at < details_failed(front).len() && details_failed(front)[at] == details_failure(
                front[k].user_uuid,
            );
        assert(details_failed(answers)[at] == details_failure(answers[k].user_uuid));
    } else {
        assert(details_failed(answers)[details_failed(answers).len() - 1] == details_failure(
            answers[k].user_uuid,
        ));
    }
}

/// The failure that the failed query for the details of a user's account is
/// reported with.
fn report_failure(user_uuid: &String) -> (failure: Error)
    ensures
        failure@ == details_failure(user_uuid@),
{
    Error::OPCLI(DETAILS_FAILURE.to_owned().concat(user_uuid.as_str()))
}

/// Loads the accounts to export, from what the listing of the accounts and
/// then the query for each account's details gave.
///
/// An account whose query failed is left out and its failure handed back to
/// be reported; the other accounts are exported all the same. The whole
/// fails only where no account can be had: where the listing failed, or
/// where every query that was made failed.
pub fn load_all_accounts(listing: Result<Vec<AccountAnswer>, Error>) -> (loaded: LoadedAccounts)
    ensures
        loaded@ == loaded_accounts(listing_view(listing)),
        listing matches Ok(answers) ==> (loaded.accounts is Err <==> answers@.len() > 0
            && forall|k: int| 0 <= k < answers@.len() ==> (#[trigger] answers@[k]).details is Err),
        listing matches Ok(answers) ==> loaded.failures@.len() + (match loaded.accounts {
            Ok(details) => details@.len(),
            Err(_) => 0,
        }) == answers@.len(),
{
    let answers = match listing {
        Ok(answers) => answers,
        Err(error) => {
            let failures: Vec<Error> = Vec::new();
            assert(views(failures@) =~= Seq::<Failure>::empty());
            return LoadedAccounts { accounts: Err(error), failures };
        },
    };
    let ghost all = views(answers@);
    let mut details: Vec<AccountDetails> = Vec::new();
    let mut failures: Vec<Error> = Vec::new();
    assert(all.take(0) =~= Seq::<AnsweredAccount>::empty());
    assert(views(details@) =~= Seq::<Account>::empty());
    assert(views(failures@) =~= Seq::<Failure>::empty());
    for answer in it: answers
        invariant
            all == views(it.seq()),
            views(details@) == details_had(all.take(it.index())),
            views(failures@) == details_failed(all.take(it.index())),
    {
        assert(all.take(it.index() + 1).drop_last() =~= all.take(it.index()));
        assert(all.take(it.index() + 1).last() == answer@);
        match answer.details {
            Ok(account) => {
                let ghost before = views(details@);
                details.push(account);
                assert(views(details@) =~= before.push(account@));
            },
            Err(_) => {
                let ghost before = views(failures@);
                let failure = report_failure(&answer.user_uuid);
                failures.push(failure);
                assert(views(failures@) =~= before.push(failure@));
            },
        }
    }
    assert(all.take(all.len() as int) =~= all);
    proof {
        let given = listing->Ok_0@;
        lemma_every_answer_counts(all);
        assert forall|k: int| 0 <= k < given.len() implies ((#[trigger] given[k]).details is Err
            <==> all[k].details is Err) by {}
    }
    if details.len() == 0 && failures.len() > 0 {
        let first = failures[0].clone();
        LoadedAccounts { accounts: Err(first), failures }
    } else {
        LoadedAccounts { accounts: Ok(details), failures }
    }
}

/// A version number of the store's command line tool.
#[derive(Debug, PartialEq, Eq, Hash)]
pub struct ToolVersion {
    pub major: u64,
    pub minor: u64,
    pub patch: u64,
    /// The pre-release tag, empty where the version has none.
    pub pre: String,
    /// The build tag, empty where the version has none.
    pub build: String,
}

impl View for ToolVersion {
    type V = Version;

    open spec fn view(&self) -> Version {
        Version {
            major: self.major as nat,
            minor: self.minor as nat,
            patch: self.patch as nat,
            pre: self.pre@,
            build: self.build@,
        }
    }
}

impl Clone for ToolVersion {
    fn clone(&self) -> (copy: Self)
        ensures
            copy@ == self@,
    {
        ToolVersion {
            major: self.major,
            minor: self.minor,
            patch: self.patch,
            pre: self.pre.clone(),
            build: self.build.clone(),
        }
    }
}

/// Whether the store's command line tool is there, and in which version.
#[derive(Debug, PartialEq)]
pub enum OPStatus {
    NotInstalled,
    Installed(ToolVersion),
}

impl View for OPStatus {
    type V = Status;

    open spec fn view(&self) -> Status {
        match self {
            OPStatus::NotInstalled => Status::NotInstalled,
            OPStatus::Installed(version) => Status::Installed(version@),
        }
    }
}

/// What a run of the store's command line tool wrote.
#[derive(Debug, PartialEq, Eq)]
pub struct CommandOutput {
    /// What it wrote to its output stream.
    pub stdout: Vec<u8>,
    /// What it wrote to its error stream.
    pub stderr: Vec<u8>,
}

/// The text that `String::from_utf8_lossy` makes of the given bytes.
pub uninterp spec fn utf8_lossy(bytes: Seq<u8>) -> Seq<char>;

/// Reads bytes as text with `String::from_utf8_lossy`, which puts U+FFFD in
/// the place of what is not UTF-8. The contract gives the text a name and
/// claims that it depends on the bytes alone.
#[verifier::external_body]
fn lossy_text(bytes: &Vec<u8>) -> (text: String)
    ensures
        text@ == utf8_lossy(bytes@),
{
    String::from_utf8_lossy(bytes).into_owned()
}

/// The version that `semver::Version::parse` reads from the given text, and
/// `None` where it reads none.
pub uninterp spec fn semver_parse(text: Seq<char>) -> Option<Version>;

/// The view of a version, where there is one.
pub open spec fn version_view(version: Option<ToolVersion>) -> Option<Version> {
    match version {
        Some(version) => Some(version@),
        None => None,
    }
}

/// Reads a version number with `semver::Version::parse` and hands out its five
/// parts, or `None` where the text is no version number. The contract gives
/// the outcome a name and claims that it depends on the text alone.
#[verifier::external_body]
fn parse_version(text: &str) -> (parsed: Option<ToolVersion>)
    ensures
        version_view(parsed) == semver_parse(text@),
{
    match semver::Version::parse(text) {
        Ok(version) => Some(
            ToolVersion {
                major: version.major,
                minor: version.minor,
                patch: version.patch,
                pre: version.pre.as_str().to_string(),
                build: version.build.as_str().to_string(),
            },
        ),
        Err(_) => None,
    }
}

/// What a run of the tool answered: what it wrote to its output stream where
/// it wrote nothing to its error stream, and else a failure that carries what
/// it wrote there, read as text.
pub open spec fn answer_of(output: CommandOutput) -> Result<Seq<u8>, Failure> {
    if output.stderr@.len() > 0 {
        Err(Failure::Transport(utf8_lossy(output.stderr@)))
    } else {
        Ok(output.stdout@)
    }
}

/// The view of an answer.
pub open spec fn answer_view(answer: Result<Vec<u8>, Error>) -> Result<Seq<u8>, Failure> {
    match answer {
        Ok(bytes) => Ok(bytes@),
        Err(error) => Err(error@),
    }
}

/// What a run of the tool answered. Anything on the error stream makes the
/// run a failure, whatever is on the output stream.
pub fn answer(output: CommandOutput) -> (answer: Result<Vec<u8>, Error>)
    ensures
        answer_view(answer) == answer_of(output),
{
    if output.stderr.len() > 0 {
        Err(Error::OPCLI(lossy_text(&output.stderr)))
    } else {
        Ok(output.stdout)
    }
}

/// The bytes without the last of them; no bytes stay no bytes.
pub open spec fn without_last(bytes: Seq<u8>) -> Seq<u8> {
    if bytes.len() > 0 {
        bytes.drop_last()
    } else {
        bytes
    }
}

/// The version text that a run of the tool with `--version` gave, if the tool
/// could be run at all: none where it wrote to its error stream, and else
/// what it wrote to its output stream without the last byte, the line's end,
/// read as text.
pub open spec fn version_of(output: Option<CommandOutput>) -> Option<Seq<char>> {
    match output {
        Some(output) => if output.stderr@.len() > 0 {
            None
        } else {
            Some(utf8_lossy(without_last(output.stdout@)))
        },
        None => None,
    }
}

/// The text of a string, where there is one.
pub open spec fn text_view(text: Option<String>) -> Option<Seq<char>> {
    match text {
        Some(text) => Some(text@),
        None => None,
    }
}

/// The version text that a run of the tool with `--version` gave; `output` is
/// `None` where the tool could not be run.
pub fn version(output: Option<CommandOutput>) -> (text: Option<String>)
    ensures
        text_view(text) == version_of(output),
{
    match output {
        Some(output) => {
            if output.stderr.len() > 0 {
                None
            } else {
                let mut line = output.stdout;
                line.pop();
                assert(line@ =~= without_last(output.stdout@));
                Some(lossy_text(&line))
            }
        },
        None => None,
    }
}

/// The status that a reading of the version text gives.
pub open spec fn status_of(parsed: Option<Version>) -> Status {
    match parsed {
        Some(version) => Status::Installed(version),
        None => Status::NotInstalled,
    }
}

/// The status of the tool, given the version number read from what it
/// printed: installed in that version, or not installed where no version
/// number could be read.
pub fn installed(parsed: Option<ToolVersion>) -> (status: OPStatus)
    ensures
        status@ == status_of(version_view(parsed)),
{
    match parsed {
        Some(version) => OPStatus::Installed(version),
        None => OPStatus::NotInstalled,
    }
}

/// The status of the tool, given the version text that it printed, if any.
/// The tool counts as installed where the text is a version number.
pub fn status(version: Option<String>) -> (status: OPStatus)
    ensures
        status@ == match version {
            Some(text) => status_of(semver_parse(text@)),
            None => Status::NotInstalled,
        },
{
    match version {
        Some(text) => installed(parse_version(text.as_str())),
        None => OPStatus::NotInstalled,
    }
}

} // verus!
