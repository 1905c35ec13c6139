//! The export planner: which vaults an export has to fetch anew.

use vstd::prelude::*;

use crate::cache::{BookmarkCache, VaultsByAccount};
use crate::model::{
    distinct_vaults, export_plan, has_account, listed_revision, lists_vault, other_accounts,
    planned_accounts, planned_vaults, plans_account, remembers, revision_of, views, Account, Plan,
    PlannedAccount, PlannedVault, Record, Vault,
};
use crate::op::{AccountDetails, Error, VaultDetails};

verus! {

/// What an export does with one vault.
#[derive(Debug, PartialEq, Eq)]
pub struct VaultPlan {
    pub vault: VaultDetails,
    /// Whether the vault's items are fetched. Where this is false, no query
    /// for items is made and the vault's list of items to write is empty.
    pub dirty: bool,
}

impl View for VaultPlan {
    type V = PlannedVault;

    open spec fn view(&self) -> PlannedVault {
        PlannedVault { vault: self.vault@, dirty: self.dirty }
    }
}

/// What an export does with one account.
#[derive(Debug, PartialEq, Eq)]
pub struct AccountPlan {
    pub account: AccountDetails,
    pub vaults: Vec<VaultPlan>,
}

impl View for AccountPlan {
    type V = PlannedAccount;

    open spec fn view(&self) -> PlannedAccount {
        PlannedAccount { account: self.account@, vaults: views(self.vaults@) }
    }
}

/// What an export does: the accounts to go through, each with its vaults, and
/// the cache to save afterwards.
#[derive(Debug)]
pub struct ExportPlan {
    pub accounts: Vec<AccountPlan>,
    pub cache: BookmarkCache,
}

impl View for ExportPlan {
    type V = Plan;

    open spec fn view(&self) -> Plan {
        Plan { accounts: views(self.accounts@), record: self.cache@ }
    }
}

/// Takes in what the query for the vaults of an account gave. Vaults that
/// were had are put under the account, in place of what was there for it.
/// A failure changes nothing and is handed back to be reported: the account
/// is then missing from `vaults_by_account` unless it was there before, and
/// the other accounts are not touched by it.
pub fn record_vaults(
    vaults_by_account: &mut VaultsByAccount,
    account_id: String,
    fetched: Result<Vec<VaultDetails>, Error>,
) -> (failure: Option<Error>)
    ensures
        match fetched {
            Ok(vaults) => failure is None && final(vaults_by_account)@ == old(
                vaults_by_account,
            )@.insert(account_id@, views(vaults@)),
            Err(error) => failure == Some(error) && final(vaults_by_account)@ == old(
                vaults_by_account,
            )@,
        },
{
    match fetched {
        Ok(vaults) => {
            vaults_by_account.insert(account_id, vaults);
            None
        },
        Err(error) => Some(error),
    }
}

/// The vaults of one account in a plan: each vault of the account, in the
/// store's order, dirty or clean by the cache.
fn plan_vaults(account_id: &String, vaults: &Vec<VaultDetails>, cache: &BookmarkCache) -> (planned:
    Vec<VaultPlan>)
    ensures
        views(planned@) == planned_vaults(cache@, account_id@, views(vaults@)),
{
    let mut planned: Vec<VaultPlan> = Vec::new();
    let mut i: usize = 0;
    while i < vaults.len()
        invariant
            i <= vaults@.len(),
            views(planned@) == planned_vaults(cache@, account_id@, views(vaults@)).take(i as int),
        decreases vaults@.len() - i,
    {
        let vault = vaults[i].clone();
        let dirty = vault.content_version > cache.vault_content_version(account_id, &vault.id);
        let ghost before = views(planned@);
        let entry = VaultPlan { vault, dirty };
        planned.push(entry);
        assert(views(planned@) =~= before.push(entry@));
        assert(views(planned@) =~= planned_vaults(cache@, account_id@, views(vaults@)).take(
            i + 1,
        ));
        i += 1;
    }
    assert(planned_vaults(cache@, account_id@, views(vaults@)).take(i as int)
        =~= planned_vaults(cache@, account_id@, views(vaults@)));
    planned
}

/// Whether the id of the account at the given place stands among the accounts
/// before it.
fn listed_before(accounts: &Vec<AccountDetails>, at: usize) -> (before: bool)
    requires
        at < accounts@.len(),
    ensures
        before == has_account(views(accounts@).take(at as int), accounts@[at as int].id@),
{
    let ghost front = views(accounts@).take(at as int);
    let mut i: usize = 0;
    while i < at
        invariant
            i <= at < accounts@.len(),
            front == views(accounts@).take(at as int),
            forall|j: int| 0 <= j < i ==> (#[trigger] front[j]).id != accounts@[at as int].id@,
        decreases at - i,
    {
        if accounts[i].id == accounts[at].id {
            assert(front[i as int].id == accounts@[at as int].id@);
            return true;
        }
        i += 1;
    }
    false
}

/// Plans an export.
///
/// `accounts` are the accounts to export, `vaults_by_account` holds the vaults
/// that the store now lists for each account whose vaults could be had, and
/// `cache` is what the last export saw.
///
/// The plan goes through the accounts in their order, each account once: an
/// account is its id, and one whose id stood among the accounts before it is
/// passed over. An account of which `vaults_by_account` knows nothing is left
/// out. Each vault of the others is dirty where the store's content revision
/// of it is greater than the cached one, and clean otherwise. The cache to
/// save afterwards holds what the store now lists, so each vault with its
/// current revision.
///
/// The plan depends on the three arguments and on nothing else, and the
/// arguments are left as they were.
pub fn plan(
    accounts: &Vec<AccountDetails>,
    vaults_by_account: &VaultsByAccount,
    cache: &BookmarkCache,
) -> (planned: ExportPlan)
    ensures
        planned@ == export_plan(views(accounts@), vaults_by_account@, cache@),
{
    let ghost all = views(accounts@);
    let mut planned: Vec<AccountPlan> = Vec::new();
    let mut i: usize = 0;
    assert(all.take(0) =~= Seq::<Account>::empty());
    while i < accounts.len()
        invariant
            i <= accounts@.len(),
            all == views(accounts@),
            views(planned@) == planned_accounts(all.take(i as int), vaults_by_account@, cache@),
        decreases accounts@.len() - i,
    {
        assert(all.take(i + 1).drop_last() =~= all.take(i as int));
        assert(all.take(i + 1).last() == accounts@[i as int]@);
        if !listed_before(accounts, i) {
            match vaults_by_account.get(&accounts[i].id) {
                Some(vaults) => {
                    let ghost before = views(planned@);
                    let entry = AccountPlan {
                        account: accounts[i].clone(),
                        vaults: plan_vaults(&accounts[i].id, vaults, cache),
                    };
                    planned.push(entry);
                    assert(views(planned@) =~= before.push(entry@));
                },
                None => {},
            }
        }
        i += 1;
    }
    assert(all.take(i as int) =~= all);
    ExportPlan {
        accounts: planned,
        cache: BookmarkCache { vaults_by_account_id: vaults_by_account.clone() },
    }
}

/// A list that holds no vault with the given id gives revision 0 for it.
pub proof fn lemma_unlisted_revision(vaults: Seq<Vault>, vault_id: Seq<char>)
    requires
        !lists_vault(vaults, vault_id),
    ensures
        listed_revision(vaults, vault_id) == 0,
    decreases vaults.len(),
{
    if vaults.len() > 0 {
        assert(vaults[0].id != vault_id);
        assert forall|i: int| 0 <= i < vaults.skip(1).len() implies (#[trigger] vaults.skip(
            1,
        )[i]).id != vault_id by {
            assert(vaults[i + 1].id != vault_id);
        }
        lemma_unlisted_revision(vaults.skip(1), vault_id);
    }
}

/// Each account of a plan is one of the accounts to export, the store's vaults
/// of it are known, and its vaults in the plan are those, each dirty or clean by
/// the record of the last export.
pub proof fn lemma_planned_account(
    accounts: Seq<Account>,
    current: Record,
    cached: Record,
    a: int,
)
    requires
        0 <= a < planned_accounts(accounts, current, cached).len(),
    ensures
        accounts.contains(planned_accounts(accounts, current, cached)[a].account),
        current.contains_key(planned_accounts(accounts, current, cached)[a].account.id),
        planned_accounts(accounts, current, cached)[a].vaults == planned_vaults(
            cached,
            planned_accounts(accounts, current, cached)[a].account.id,
            current[planned_accounts(accounts, current, cached)[a].account.id],
        ),
    decreases accounts.len(),
{
    let front = planned_accounts(accounts.drop_last(), current, cached);
    if a < front.len() {
        lemma_planned_account(accounts.drop_last(), current, cached, a);
        let i = choose|i: int|
            0 <= i < accounts.drop_last().len() && accounts.drop_last()[i] == front[a].account;
        assert(accounts[i] == front[a].account);
    } else {
        assert(accounts[accounts.len() - 1] == accounts.last());
    }
}

/// An account is in the plan exactly when it is one of the accounts to export
/// and the store's vaults of it are known. An account is its id.
pub proof fn lemma_planned_accounts_are_the_known(
    accounts: Seq<Account>,
    current: Record,
    cached: Record,
    account_id: Seq<char>,
)
    ensures
        plans_account(planned_accounts(accounts, current, cached), account_id) <==> (has_account(
            accounts,
            account_id,
        ) && current.contains_key(account_id)),
    decreases accounts.len(),
{
    let planned = planned_accounts(accounts, current, cached);
    if accounts.len() > 0 {
        let earlier = accounts.drop_last();
        let front = planned_accounts(earlier, current, cached);
        lemma_planned_accounts_are_the_known(earlier, current, cached, account_id);
        if plans_account(planned, account_id) {
            let a = choose|a: int|
                0 <= a < planned.len() && (#[trigger] planned[a]).account.id == account_id;
            lemma_planned_account(accounts, current, cached, a);
            if a < front.len() {
                assert(front[a].account.id == account_id);
                let i = choose|i: int|
                    0 <= i < earlier.len() && (#[trigger] earlier[i]).id == account_id;
                assert(accounts[i].id == account_id);
            } else {
                assert(accounts[accounts.len() - 1].id == account_id);
            }
        }
        if has_account(accounts, account_id) && current.contains_key(account_id) {
            if has_account(earlier, account_id) {
                let a = choose|a: int|
                    0 <= a < front.len() && (#[trigger] front[a]).account.id == account_id;
                assert(planned[a].account.id == account_id);
            } else {
                let i = choose|i: int|
                    0 <= i < accounts.len() && (#[trigger] accounts[i]).id == account_id;
                if i < accounts.len() - 1 {
                    assert(earlier[i].id == account_id);
                }
                assert(planned[planned.len() - 1].account.id == account_id);
            }
        }
    }
}

/// No account id stands twice in a plan: each account is gone through once.
pub proof fn lemma_planned_once(
    accounts: Seq<Account>,
    current: Record,
    cached: Record,
    a: int,
    b: int,
)
    requires
        0 <= a < b < planned_accounts(accounts, current, cached).len(),
    ensures
        planned_accounts(accounts, current, cached)[a].account.id != planned_accounts(
            accounts,
            current,
            cached,
        )[b].account.id,
    decreases accounts.len(),
{
    let earlier = accounts.drop_last();
    let front = planned_accounts(earlier, current, cached);
    if b < front.len() {
        lemma_planned_once(earlier, current, cached, a, b);
    } else {
        assert(plans_account(front, front[a].account.id));
        lemma_planned_accounts_are_the_known(earlier, current, cached, front[a].account.id);
    }
}

/// In a plan a vault is dirty exactly where its content revision is greater
/// than the one that the record of the last export remembers for it.
pub proof fn lemma_dirty_is_newer(
    accounts: Seq<Account>,
    current: Record,
    cached: Record,
    a: int,
    v: int,
)
    requires
        0 <= a < export_plan(accounts, current, cached).accounts.len(),
        0 <= v < export_plan(accounts, current, cached).accounts[a].vaults.len(),
    ensures
        ({
            let account = export_plan(accounts, current, cached).accounts[a];
            let planned = account.vaults[v];
            &&& current.contains_key(account.account.id)
            &&& v < current[account.account.id].len()
            &&& planned.vault == current[account.account.id][v]
            &&& planned.dirty <==> planned.vault.content_version > revision_of(
                cached,
                account.account.id,
                planned.vault.id,
            )
        }),
{
    lemma_planned_account(accounts, current, cached, a);
}

/// A vault whose content revision is the cached one is clean: its items are
/// not fetched and nothing is written for it.
pub proof fn lemma_unchanged_vault_is_clean(
    accounts: Seq<Account>,
    current: Record,
    cached: Record,
    a: int,
    v: int,
)
    requires
        0 <= a < export_plan(accounts, current, cached).accounts.len(),
        0 <= v < export_plan(accounts, current, cached).accounts[a].vaults.len(),
        ({
            let account = export_plan(accounts, current, cached).accounts[a];
            account.vaults[v].vault.content_version == revision_of(
                cached,
                account.account.id,
                account.vaults[v].vault.id,
            )
        }),
    ensures
        !export_plan(accounts, current, cached).accounts[a].vaults[v].dirty,
{
    lemma_dirty_is_newer(accounts, current, cached, a, v);
}

/// A vault that the cache does not remember is dirty, whatever its content
/// revision, as long as that is at least 1.
pub proof fn lemma_uncached_vault_is_dirty(
    accounts: Seq<Account>,
    current: Record,
    cached: Record,
    a: int,
    v: int,
)
    requires
        0 <= a < export_plan(accounts, current, cached).accounts.len(),
        0 <= v < export_plan(accounts, current, cached).accounts[a].vaults.len(),
        ({
            let account = export_plan(accounts, current, cached).accounts[a];
            &&& !remembers(cached, account.account.id, account.vaults[v].vault.id)
            &&& account.vaults[v].vault.content_version >= 1
        }),
    ensures
        export_plan(accounts, current, cached).accounts[a].vaults[v].dirty,
{
    lemma_dirty_is_newer(accounts, current, cached, a, v);
    let account = export_plan(accounts, current, cached).accounts[a];
    if cached.contains_key(account.account.id) {
        lemma_unlisted_revision(cached[account.account.id], account.vaults[v].vault.id);
    }
}

/// In a list without a repeated vault id, the revision listed for a vault's id
/// is that vault's.
pub proof fn lemma_listed_revision_of_member(vaults: Seq<Vault>, v: int)
    requires
        distinct_vaults(vaults),
        0 <= v < vaults.len(),
    ensures
        listed_revision(vaults, vaults[v].id) == vaults[v].content_version,
    decreases vaults.len(),
{
    if v > 0 {
        let rest = vaults.skip(1);
        assert(vaults[0].id != vaults[v].id);
        assert forall|i: int, j: int| 0 <= i < j < rest.len() implies (#[trigger] rest[i]).id != (
        #[trigger] rest[j]).id by {
            assert(vaults[i + 1].id != vaults[j + 1].id);
        }
        assert(rest[v - 1] == vaults[v]);
        lemma_listed_revision_of_member(rest, v - 1);
    }
}

/// An export that follows another, with the store unchanged and the cache
/// that the first one saved, finds every vault clean, as long as the store
/// lists no vault id twice in an account.
pub proof fn lemma_nothing_dirty_after_export(
    accounts: Seq<Account>,
    current: Record,
    cached: Record,
    a: int,
    v: int,
)
    requires
        forall|account_id: Seq<char>|
            current.contains_key(account_id) ==> distinct_vaults(#[trigger] current[account_id]),
        0 <= a < export_plan(
            accounts,
            current,
            export_plan(accounts, current, cached).record,
        ).accounts.len(),
        0 <= v < export_plan(
            accounts,
            current,
            export_plan(accounts, current, cached).record,
        ).accounts[a].vaults.len(),
    ensures
        !export_plan(
            accounts,
            current,
            export_plan(accounts, current, cached).record,
        ).accounts[a].vaults[v].dirty,
{
    let again = export_plan(accounts, current, current);
    lemma_dirty_is_newer(accounts, current, current, a, v);
    lemma_listed_revision_of_member(current[again.accounts[a].account.id], v);
}

/// The plan is a function of the accounts, the store's vaults and the cache:
/// the same three give the same plan.
pub proof fn lemma_plan_is_a_function(
    accounts: Seq<Account>,
    current: Record,
    cached: Record,
    accounts_again: Seq<Account>,
    current_again: Record,
    cached_again: Record,
)
    requires
        accounts == accounts_again,
        current == current_again,
        cached == cached_again,
    ensures
        export_plan(accounts, current, cached) == export_plan(
            accounts_again,
            current_again,
            cached_again,
        ),
{
}

/// An account whose vaults could not be had is in no place of the plan, and
/// the cache to save knows nothing of it. The other accounts are planned as
/// if it had not been asked for.
pub proof fn lemma_failed_account_is_left_out(
    accounts: Seq<Account>,
    current: Record,
    cached: Record,
    account_id: Seq<char>,
)
    requires
        !current.contains_key(account_id),
    ensures
        !export_plan(accounts, current, cached).record.contains_key(account_id),
        forall|a: int|
            0 <= a < export_plan(accounts, current, cached).accounts.len() ==> (
            #[trigger] export_plan(accounts, current, cached).accounts[a]).account.id
                != account_id,
        export_plan(accounts, current, cached).accounts == planned_accounts(
            other_accounts(accounts, account_id),
            current,
            cached,
        ),
{
    assert forall|a: int|
        0 <= a < export_plan(accounts, current, cached).accounts.len() implies (
    #[trigger] export_plan(accounts, current, cached).accounts[a]).account.id != account_id by {
        lemma_planned_account(accounts, current, cached, a);
    }
    lemma_planned_without(accounts, current, cached, account_id);
}

/// Leaving out the accounts of one id keeps the accounts of every other id.
proof fn lemma_other_accounts(accounts: Seq<Account>, account_id: Seq<char>, other: Seq<char>)
    requires
        other != account_id,
    ensures
        has_account(other_accounts(accounts, account_id), other) <==> has_account(accounts, other),
    decreases accounts.len(),
{
    reveal(Seq::filter);
    if accounts.len() > 0 {
        let earlier = accounts.drop_last();
        let kept = other_accounts(accounts, account_id);
        let kept_earlier = other_accounts(earlier, account_id);
        lemma_other_accounts(earlier, account_id, other);
        if has_account(kept, other) {
            let i = choose|i: int| 0 <= i < kept.len() && (#[trigger] kept[i]).id == other;
            if i < kept_earlier.len() {
                assert(kept_earlier[i].id == other);
                let j = choose|j: int| 0 <= j < earlier.len() && (#[trigger] earlier[j]).id == other;
                assert(accounts[j].id == other);
            } else {
                assert(accounts[accounts.len() - 1].id == other);
            }
        }
        if has_account(accounts, other) {
            let j = choose|j: int| 0 <= j < accounts.len() && (#[trigger] accounts[j]).id == other;
            if j < accounts.len() - 1 {
                assert(earlier[j].id == other);
                let i = choose|i: int|
                    0 <= i < kept_earlier.len() && (#[trigger] kept_earlier[i]).id == other;
                assert(kept[i].id == other);
            } else {
                assert(kept[kept.len() - 1].id == other);
            }
        }
    }
}

/// Leaving out the accounts with an id of which the store's vaults are not
/// known does not change the accounts of the plan.
proof fn lemma_planned_without(
    accounts: Seq<Account>,
    current: Record,
    cached: Record,
    account_id: Seq<char>,
)
    requires
        !current.contains_key(account_id),
    ensures
        planned_accounts(accounts, current, cached) == planned_accounts(
            other_accounts(accounts, account_id),
            current,
            cached,
        ),
    decreases accounts.len(),
{
    reveal(Seq::filter);
    if accounts.len() > 0 {
        let earlier = accounts.drop_last();
        lemma_planned_without(earlier, current, cached, account_id);
        let kept = other_accounts(accounts, account_id);
        if accounts.last().id != account_id {
            assert(kept.drop_last() =~= other_accounts(earlier, account_id));
            assert(kept.last() == accounts.last());
            lemma_other_accounts(earlier, account_id, accounts.last().id);
        }
    }
}

} // verus!
