//! The metadata files of the legacy bookmark format, one for each item.

use vstd::prelude::*;
use vstd::string::StringExecFns;

use crate::model::{texts, views, FileToWrite, Item, Metadata, Url, Vault};
use crate::op::{AccountDetails, ItemDetails, VaultDetails};

verus! {

/// The metadata of one item, as the legacy format holds it.
#[derive(Debug, PartialEq, Eq, Hash)]
pub struct OP7ItemMetaData {
    pub uuid: String,
    pub profile_uuid: String,
    pub vault_uuid: String,
    pub category_uuid: String,
    pub item_title: String,
    pub item_description: String,
    pub website_urls: Vec<String>,
    pub account_name: String,
    pub vault_name: String,
    pub category_plural_name: String,
    pub category_singular_name: String,
    pub modified_at: usize,
    pub created_at: usize,
}

impl View for OP7ItemMetaData {
    type V = Metadata;

    open spec fn view(&self) -> Metadata {
        Metadata {
            uuid: self.uuid@,
            profile_uuid: self.profile_uuid@,
            vault_uuid: self.vault_uuid@,
            category_uuid: self.category_uuid@,
            item_title: self.item_title@,
            item_description: self.item_description@,
            website_urls: texts(self.website_urls@),
            account_name: self.account_name@,
            vault_name: self.vault_name@,
            category_plural_name: self.category_plural_name@,
            category_singular_name: self.category_singular_name@,
            modified_at: self.modified_at as nat,
            created_at: self.created_at as nat,
        }
    }
}

impl Clone for OP7ItemMetaData {
    fn clone(&self) -> (copy: Self)
        ensures
            copy@ == self@,
    {
        let website_urls = self.website_urls.clone();
        assert(texts(website_urls@) =~= texts(self.website_urls@));
        OP7ItemMetaData {
            uuid: self.uuid.clone(),
            profile_uuid: self.profile_uuid.clone(),
            vault_uuid: self.vault_uuid.clone(),
            category_uuid: self.category_uuid.clone(),
            item_title: self.item_title.clone(),
            item_description: self.item_description.clone(),
            website_urls,
            account_name: self.account_name.clone(),
            vault_name: self.vault_name.clone(),
            category_plural_name: self.category_plural_name.clone(),
            category_singular_name: self.category_singular_name.clone(),
            modified_at: self.modified_at,
            created_at: self.created_at,
        }
    }
}

/// The category id that every metadata file carries.
pub const CATEGORY_UUID: &'static str = "001";

/// What an item's description begins with; the vault's name follows.
pub const DESCRIPTION_PREFIX: &'static str = "Login from ";

/// What the name of a metadata file ends with.
pub const FILE_EXTENSION: &'static str = ".onepassword-item-metadata";

/// What stands between the vault's id and the item's id in the name of a
/// metadata file.
pub const NAME_SEPARATOR: &'static str = "_";

/// A metadata file to write: the directory below the export directory, the
/// file's name in it, and what the file holds.
#[derive(Debug, PartialEq, Eq, Hash)]
pub struct MetadataFile {
    pub directory: String,
    pub file_name: String,
    pub metadata: OP7ItemMetaData,
}

impl View for MetadataFile {
    type V = FileToWrite;

    open spec fn view(&self) -> FileToWrite {
        FileToWrite {
            directory: self.directory@,
            file_name: self.file_name@,
            metadata: self.metadata@,
        }
    }
}

/// The name of the metadata file of an item of a vault: the vault's id, the
/// separator, the item's id and the extension.
pub open spec fn file_name_of(vault_id: Seq<char>, item_id: Seq<char>) -> Seq<char> {
    vault_id + NAME_SEPARATOR@ + item_id + FILE_EXTENSION@
}

/// The metadata file of an item of a vault of an account. It lies in the
/// directory named by the account's id.
pub open spec fn file_of(item: Item, vault: Vault, account_id: Seq<char>) -> FileToWrite {
    FileToWrite {
        directory: account_id,
        file_name: file_name_of(vault.id, item.id),
        metadata: metadata_of(item, vault, account_id),
    }
}

/// The metadata files of the items of a vault of an account: one for each
/// item, in the items' order.
pub open spec fn files_of(items: Seq<Item>, vault: Vault, account_id: Seq<char>) -> Seq<
    FileToWrite,
> {
    Seq::new(items.len(), |i: int| file_of(items[i], vault, account_id))
}

/// The web addresses of an item, in the item's order; none where the item has
/// no list of them.
pub open spec fn website_urls(item: Item) -> Seq<Seq<char>> {
    match item.urls {
        Some(urls) => urls.map_values(|url: Url| url.href),
        None => Seq::empty(),
    }
}

/// The metadata of an item of a vault of an account. The category id is the
/// same for every item, whatever its category. The times of change and of
/// creation are not filled in: they are 0. The account's name is empty.
pub open spec fn metadata_of(item: Item, vault: Vault, account_id: Seq<char>) -> Metadata {
    Metadata {
        uuid: item.id,
        profile_uuid: account_id,
        vault_uuid: vault.id,
        category_uuid: CATEGORY_UUID@,
        item_title: item.title,
        item_description: DESCRIPTION_PREFIX@ + vault.name,
        website_urls: website_urls(item),
        account_name: Seq::empty(),
        vault_name: vault.name,
        category_plural_name: item.category,
        category_singular_name: item.category,
        modified_at: 0,
        created_at: 0,
    }
}

/// The web addresses of an item.
fn item_urls(item: &ItemDetails) -> (hrefs: Vec<String>)
    ensures
        texts(hrefs@) == website_urls(item@),
{
    let mut hrefs: Vec<String> = Vec::new();
    match &item.urls {
        Some(urls) => {
            let ghost all = views(urls@).map_values(|url: Url| url.href);
            let mut i: usize = 0;
            while i < urls.len()
                invariant
                    i <= urls@.len(),
                    all == views(urls@).map_values(|url: Url| url.href),
                    texts(hrefs@) == all.take(i as int),
                decreases urls@.len() - i,
            {
                let ghost before = texts(hrefs@);
                let href = urls[i].href.clone();
                hrefs.push(href);
                assert(texts(hrefs@) =~= before.push(href@));
                assert(texts(hrefs@) =~= all.take(i + 1));
                i += 1;
            }
            assert(all.take(i as int) =~= all);
        },
        None => {
            assert(texts(hrefs@) =~= Seq::<Seq<char>>::empty());
        },
    }
    hrefs
}

/// The metadata of an item of a vault of an account.
pub fn create_op7_metadata(item: &ItemDetails, vault: &VaultDetails, account_id: &String) -> (metadata:
    OP7ItemMetaData)
    ensures
        metadata@ == metadata_of(item@, vault@, account_id@),
{
    let website_urls = item_urls(item);
    OP7ItemMetaData {
        uuid: item.id.clone(),
        item_description: DESCRIPTION_PREFIX.to_owned().concat(vault.name.as_str()),
        item_title: item.title.clone(),
        vault_name: vault.name.clone(),
        vault_uuid: vault.id.clone(),
        category_plural_name: item.category.clone(),
        profile_uuid: account_id.clone(),
        website_urls,
        category_singular_name: item.category.clone(),
        category_uuid: CATEGORY_UUID.to_owned(),
        account_name: String::new(),
        modified_at: 0,
        created_at: 0,
    }
}

/// The name of the metadata file of an item of a vault.
pub fn metadata_file_name(vault_id: &String, item_id: &String) -> (name: String)
    ensures
        name@ == file_name_of(vault_id@, item_id@),
{
    vault_id.clone().concat(NAME_SEPARATOR).concat(item_id.as_str()).concat(FILE_EXTENSION)
}

/// The metadata files to write for the items of a vault of an account: one
/// for each item, in the items' order, in the directory named by the
/// account's id. For no items there is nothing to write.
pub fn write_items(items: &Vec<ItemDetails>, vault: &VaultDetails, account: &AccountDetails) -> (files:
    Vec<MetadataFile>)
    ensures
        views(files@) == files_of(views(items@), vault@, account.id@),
{
    let mut files: Vec<MetadataFile> = Vec::new();
    let mut i: usize = 0;
    while i < items.len()
        invariant
            i <= items@.len(),
            views(files@) == files_of(views(items@), vault@, account.id@).take(i as int),
        decreases items@.len() - i,
    {
        let ghost before = views(files@);
        let file = MetadataFile {
            directory: account.id.clone(),
            file_name: metadata_file_name(&vault.id, &items[i].id),
            metadata: create_op7_metadata(&items[i], vault, &account.id),
        };
        files.push(file);
        assert(views(files@) =~= before.push(file@));
        assert(views(files@) =~= files_of(views(items@), vault@, account.id@).take(i + 1));
        i += 1;
    }
    assert(files_of(views(items@), vault@, account.id@).take(i as int) =~= files_of(
        views(items@),
        vault@,
        account.id@,
    ));
    files
}

} // verus!
