//! The version cache: what the last export saw in each account.

use vstd::prelude::*;

use crate::model::{listed_revision, record_of, revision_of, views, Record, Remembered, Vault};
use crate::op::VaultDetails;

verus! {

/// The name of the cache file in the export directory.
pub const CACHE_FILE_NAME: &'static str = "cache.json";

/// One account of the cache: its id and the vaults last seen in it.
#[derive(Debug, PartialEq, Eq)]
pub struct CacheEntry {
    pub account_id: String,
    pub vaults: Vec<VaultDetails>,
}

impl View for CacheEntry {
    type V = Remembered;

    open spec fn view(&self) -> Remembered {
        (self.account_id@, views(self.vaults@))
    }
}

impl Clone for CacheEntry {
    fn clone(&self) -> (copy: Self)
        ensures
            copy@ == self@,
    {
        let vaults = self.vaults.clone();
        assert(views(vaults@) =~= views(self.vaults@));
        CacheEntry { account_id: self.account_id.clone(), vaults }
    }
}

/// What came of reading the cache file.
#[derive(Debug, PartialEq, Eq)]
pub enum CacheFile {
    /// The file is not there, or could not be read.
    Unreadable,
    /// The file was read, but it does not hold a cache record.
    Malformed,
    /// The file holds these entries, in the order in which it lists them.
    Parsed(Vec<CacheEntry>),
}

/// The record that a reading of the cache file gives: the one that its
/// entries stand for, and the empty one where the file gave none.
pub open spec fn loaded_record(file: CacheFile) -> Record {
    match file {
        CacheFile::Parsed(entries) => record_of(views(entries@)),
        _ => Map::empty(),
    }
}

/// The entries are a faithful listing of the record: one entry for each of
/// its accounts, with that account's vaults.
pub open spec fn lists(entries: Seq<Remembered>, record: Record) -> bool {
    distinct_accounts(entries) && record_of(entries) == record
}

/// No account id occurs in two entries.
pub open spec fn distinct_accounts(entries: Seq<Remembered>) -> bool {
    forall|i: int, j: int|
        0 <= i < j < entries.len() ==> (#[trigger] entries[i]).0 != (#[trigger] entries[j]).0
}

/// Some entry is about the given account.
pub open spec fn mentions(entries: Seq<Remembered>, account_id: Seq<char>) -> bool {
    exists|i: int| 0 <= i < entries.len() && (#[trigger] entries[i]).0 == account_id
}

/// The record knows exactly the accounts that the entries mention.
pub proof fn lemma_record_accounts(entries: Seq<Remembered>, account_id: Seq<char>)
    ensures
        record_of(entries).contains_key(account_id) <==> mentions(entries, account_id),
    decreases entries.len(),
{
    if entries.len() > 0 {
        let front = entries.drop_last();
        lemma_record_accounts(front, account_id);
        if mentions(front, account_id) {
            let i = choose|i: int| 0 <= i < front.len() && (#[trigger] front[i]).0 == account_id;
            assert(entries[i].0 == account_id);
        }
        if mentions(entries, account_id) && entries.last().0 != account_id {
            let i = choose|i: int|
                0 <= i < entries.len() && (#[trigger] entries[i]).0 == account_id;
            assert(front[i].0 == account_id);
        }
        if entries.last().0 == account_id {
            assert(entries[entries.len() - 1].0 == account_id);
        }
    }
}

/// Where no account id occurs twice, the record holds for each entry's account
/// that entry's vaults.
pub proof fn lemma_record_entry(entries: Seq<Remembered>, i: int)
    requires
        distinct_accounts(entries),
        0 <= i < entries.len(),
    ensures
        record_of(entries).contains_key(entries[i].0),
        record_of(entries)[entries[i].0] == entries[i].1,
    decreases entries.len(),
{
    let front = entries.drop_last();
    if i < entries.len() - 1 {
        assert(distinct_accounts(front)) by {
            assert forall|a: int, b: int| 0 <= a < b < front.len() implies (#[trigger] front[a]).0
                != (#[trigger] front[b]).0 by {
                assert(entries[a].0 != entries[b].0);
            }
        }
        lemma_record_entry(front, i);
        assert(front[i] == entries[i]);
        assert(entries[i].0 != entries[entries.len() - 1].0);
    }
}

/// Where no account id occurs twice, putting other vaults in the place of an
/// entry's vaults changes the record at that entry's account and nowhere else.
pub proof fn lemma_record_replace(entries: Seq<Remembered>, i: int, vaults: Seq<Vault>)
    requires
        distinct_accounts(entries),
        0 <= i < entries.len(),
    ensures
        distinct_accounts(entries.update(i, (entries[i].0, vaults))),
        record_of(entries.update(i, (entries[i].0, vaults))) == record_of(entries).insert(
            entries[i].0,
            vaults,
        ),
{
    let account_id = entries[i].0;
    let after = entries.update(i, (account_id, vaults));
    assert(distinct_accounts(after)) by {
        assert forall|a: int, b: int| 0 <= a < b < after.len() implies (#[trigger] after[a]).0 != (
        #[trigger] after[b]).0 by {
            assert(entries[a].0 != entries[b].0);
        }
    }
    let expected = record_of(entries).insert(account_id, vaults);
    assert forall|q: Seq<char>| record_of(after).contains_key(q) <==> expected.contains_key(
        q,
    ) by {
        lemma_record_accounts(after, q);
        lemma_record_accounts(entries, q);
        if mentions(after, q) {
            let j = choose|j: int| 0 <= j < after.len() && (#[trigger] after[j]).0 == q;
            assert(entries[j].0 == q);
        }
        if mentions(entries, q) {
            let j = choose|j: int| 0 <= j < entries.len() && (#[trigger] entries[j]).0 == q;
            assert(after[j].0 == q);
        }
        if q == account_id {
            assert(after[i].0 == q);
        }
    }
    assert forall|q: Seq<char>| record_of(after).contains_key(q) implies record_of(after)[q]
        == expected[q] by {
        lemma_record_accounts(after, q);
        let j = choose|j: int| 0 <= j < after.len() && (#[trigger] after[j]).0 == q;
        lemma_record_entry(after, j);
        if j != i {
            lemma_record_entry(entries, j);
            assert(entries[j].0 != entries[i].0);
        }
    }
    assert(record_of(after) =~= expected);
}

/// The vaults of each account, by account id. It holds at most one entry for an
/// account.
#[derive(Debug)]
pub struct VaultsByAccount {
    entries: Vec<CacheEntry>,
}

impl View for VaultsByAccount {
    type V = Record;

    closed spec fn view(&self) -> Record {
        record_of(views(self.entries@))
    }
}

impl VaultsByAccount {
    #[verifier::type_invariant]
    spec fn one_entry_for_an_account(self) -> bool {
        distinct_accounts(views(self.entries@))
    }

    /// The empty mapping: no account is known.
    pub fn new() -> (empty: Self)
        ensures
            empty@ == Map::<Seq<char>, Seq<Vault>>::empty(),
    {
        VaultsByAccount { entries: Vec::new() }
    }

    /// Puts the given vaults under the given account, in place of what was
    /// there for it before. The other accounts stay as they were.
    pub fn insert(&mut self, account_id: String, vaults: Vec<VaultDetails>)
        ensures
            final(self)@ == old(self)@.insert(account_id@, views(vaults@)),
    {
        proof {
            use_type_invariant(&*self);
        }
        let ghost before = views(self.entries@);
        let found = self.position(&account_id);
        let entry = CacheEntry { account_id, vaults };
        let mut entries: Vec<CacheEntry> = Vec::new();
        core::mem::swap(&mut self.entries, &mut entries);
        match found {
            Some(i) => {
                entries.set(i, entry);
                proof {
                    lemma_record_replace(before, i as int, entry@.1);
                    assert(views(entries@) =~= before.update(i as int, entry@));
                }
            },
            None => {
                entries.push(entry);
                proof {
                    let after = views(entries@);
                    assert(after =~= before.push(entry@));
                    assert(after.drop_last() =~= before);
                    assert forall|a: int, b: int| 0 <= a < b < after.len() implies (
                    #[trigger] after[a]).0 != (#[trigger] after[b]).0 by {
                        assert(before[a].0 == after[a].0);
                        if b < before.len() {
                            assert(before[b].0 == after[b].0);
                        }
                    }
                }
            },
        }
        self.entries = entries;
    }

    /// The place of the entry for the given account, if there is one.
    fn position(&self, account_id: &String) -> (found: Option<usize>)
        ensures
            match found {
                Some(i) => i < self.entries@.len() && self.entries@[i as int].account_id@
                    == account_id@,
                None => !mentions(views(self.entries@), account_id@),
            },
    {
        let mut i: usize = 0;
        while i < self.entries.len()
            invariant
                i <= self.entries@.len(),
                forall|j: int| 0 <= j < i ==> self.entries@[j].account_id@ != account_id@,
            decreases self.entries@.len() - i,
        {
            if self.entries[i].account_id == *account_id {
                return Some(i);
            }
            i += 1;
        }
        None
    }

    /// The vaults of the given account, where the account is known.
    pub fn get(&self, account_id: &String) -> (found: Option<&Vec<VaultDetails>>)
        ensures
            match found {
                Some(vaults) => self@.contains_key(account_id@) && views(vaults@)
                    == self@[account_id@],
                None => !self@.contains_key(account_id@),
            },
    {
        proof {
            use_type_invariant(self);
            lemma_record_accounts(views(self.entries@), account_id@);
        }
        match self.position(account_id) {
            Some(i) => {
                proof {
                    lemma_record_entry(views(self.entries@), i as int);
                }
                Some(&self.entries[i].vaults)
            },
            None => None,
        }
    }

    /// The entries, one for each known account, each with a copy of that
    /// account's vaults.
    pub fn to_entries(&self) -> (entries: Vec<CacheEntry>)
        ensures
            lists(views(entries@), self@),
    {
        proof {
            use_type_invariant(self);
        }
        let mut entries: Vec<CacheEntry> = Vec::new();
        let mut i: usize = 0;
        while i < self.entries.len()
            invariant
                i <= self.entries@.len(),
                views(entries@) == views(self.entries@).take(i as int),
            decreases self.entries@.len() - i,
        {
            let ghost before = views(entries@);
            let entry = self.entries[i].clone();
            entries.push(entry);
            assert(views(entries@) =~= before.push(entry@));
            assert(views(entries@) =~= views(self.entries@).take(i + 1));
            i += 1;
        }
        assert(views(self.entries@).take(i as int) =~= views(self.entries@));
        entries
    }

    /// The mapping that a list of entries stands for. Where an account id
    /// occurs twice, the later entry counts.
    pub fn from_entries(entries: Vec<CacheEntry>) -> (mapping: Self)
        ensures
            mapping@ == record_of(views(entries@)),
    {
        let mut mapping = VaultsByAccount::new();
        let ghost all = views(entries@);
        assert(all.take(0) =~= Seq::<Remembered>::empty());
        for entry in it: entries
            invariant
                all == views(it.seq()),
                mapping@ == record_of(all.take(it.index())),
        {
            assert(all.take(it.index() + 1).drop_last() =~= all.take(it.index()));
            mapping.insert(entry.account_id, entry.vaults);
        }
        assert(all.take(all.len() as int) =~= all);
        mapping
    }
}

impl Clone for VaultsByAccount {
    fn clone(&self) -> (copy: Self)
        ensures
            copy@ == self@,
    {
        VaultsByAccount::from_entries(self.to_entries())
    }
}

/// The version cache: for each account id the vaults that the last export saw
/// in that account.
#[derive(Debug)]
pub struct BookmarkCache {
    pub vaults_by_account_id: VaultsByAccount,
}

impl View for BookmarkCache {
    type V = Record;

    open spec fn view(&self) -> Record {
        self.vaults_by_account_id@
    }
}

impl BookmarkCache {
    /// The content revision that the cache remembers for a vault of an account,
    /// and 0 where it knows nothing of the account or of the vault.
    pub fn vault_content_version(&self, account_id: &String, vault_id: &String) -> (revision: usize)
        ensures
            revision == revision_of(self@, account_id@, vault_id@),
    {
        match self.vaults_by_account_id.get(account_id) {
            Some(vaults) => cached_revision(vaults, vault_id),
            None => 0,
        }
    }
}

impl Default for BookmarkCache {
    fn default() -> (cache: Self)
        ensures
            cache@ == Map::<Seq<char>, Seq<Vault>>::empty(),
    {
        BookmarkCache { vaults_by_account_id: VaultsByAccount::new() }
    }
}

/// The content revision of the first vault of the list with the given id, and
/// 0 where the list has no such vault.
pub fn cached_revision(vaults: &Vec<VaultDetails>, vault_id: &String) -> (revision: usize)
    ensures
        revision == listed_revision(views(vaults@), vault_id@),
{
    let ghost all = views(vaults@);
    let mut i: usize = 0;
    assert(all.skip(0) =~= all);
    while i < vaults.len()
        invariant
            i <= vaults@.len(),
            all == views(vaults@),
            listed_revision(all, vault_id@) == listed_revision(all.skip(i as int), vault_id@),
        decreases vaults@.len() - i,
    {
        assert(all.skip(i as int)[0] == vaults@[i as int]@);
        assert(all.skip(i as int).skip(1) =~= all.skip(i + 1));
        if vaults[i].id == *vault_id {
            return vaults[i].content_version;
        }
        i += 1;
    }
    0
}

/// The cache to start an export from, given what came of reading the cache
/// file. A file that is missing or corrupt gives the empty cache, so that
/// everything is exported anew; this never fails.
pub fn load_cache(file: CacheFile) -> (cache: BookmarkCache)
    ensures
        cache@ == loaded_record(file),
        !(file is Parsed) ==> cache@ == Map::<Seq<char>, Seq<Vault>>::empty(),
{
    match file {
        CacheFile::Parsed(entries) => BookmarkCache {
            vaults_by_account_id: VaultsByAccount::from_entries(entries),
        },
        _ => BookmarkCache::default(),
    }
}

/// The entries to write to the cache file: one for each account of the cache,
/// with the vaults remembered for it.
pub fn save_cache(cache: &BookmarkCache) -> (entries: Vec<CacheEntry>)
    ensures
        lists(views(entries@), cache@),
{
    cache.vaults_by_account_id.to_entries()
}

/// A cache that is saved and loaded again is the cache that was saved.
pub proof fn lemma_saved_cache_loads_back(cache: BookmarkCache, saved: Vec<CacheEntry>)
    requires
        lists(views(saved@), cache@),
    ensures
        loaded_record(CacheFile::Parsed(saved)) == cache@,
{
}

} // verus!
