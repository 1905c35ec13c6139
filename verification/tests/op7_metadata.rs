use opbookmarks::op::{AccountDetails, ItemDetails, VaultDetails, VaultOverview, OPURL};
use opbookmarks::op7_metadata::{
    create_op7_metadata, metadata_file_name, write_items, MetadataFile, OP7ItemMetaData,
};

fn account(id: &str) -> AccountDetails {
    AccountDetails {
        id: id.to_string(),
        name: "Family".to_string(),
        domain: "example".to_string(),
        account_type: "FAMILY".to_string(),
        state: "ACTIVE".to_string(),
        created_at: "2020-01-01T00:00:00Z".to_string(),
    }
}

fn vault(id: &str, name: &str) -> VaultDetails {
    VaultDetails {
        id: id.to_string(),
        name: name.to_string(),
        attribute_version: 1,
        content_version: 7,
        vault_type: "USER_CREATED".to_string(),
        created_at: "2022-01-01T00:00:00Z".to_string(),
        updated_at: "2022-06-01T00:00:00Z".to_string(),
    }
}

fn item(id: &str, title: &str, urls: Option<Vec<OPURL>>) -> ItemDetails {
    ItemDetails {
        id: id.to_string(),
        title: title.to_string(),
        tags: Some(vec!["work".to_string()]),
        version: 4,
        vault: VaultOverview { id: "V1".to_string(), name: Some("Private".to_string()) },
        category: "LOGIN".to_string(),
        last_edited_by: "someone".to_string(),
        created_at: "2022-01-01T00:00:00Z".to_string(),
        updated_at: "2022-06-01T00:00:00Z".to_string(),
        urls,
    }
}

fn url(href: &str, primary: Option<bool>) -> OPURL {
    OPURL { primary, href: href.to_string() }
}

fn expected(id: &str, title: &str, urls: Vec<&str>) -> OP7ItemMetaData {
    OP7ItemMetaData {
        uuid: id.to_string(),
        profile_uuid: "A1".to_string(),
        vault_uuid: "V1".to_string(),
        category_uuid: "001".to_string(),
        item_title: title.to_string(),
        item_description: "Login from Private".to_string(),
        website_urls: urls.into_iter().map(|u| u.to_string()).collect(),
        account_name: String::new(),
        vault_name: "Private".to_string(),
        category_plural_name: "LOGIN".to_string(),
        category_singular_name: "LOGIN".to_string(),
        modified_at: 0,
        created_at: 0,
    }
}

#[test]
fn metadata_of_an_item_with_addresses() {
    let item = item(
        "I1",
        "Example",
        Some(vec![url("https://example.com", Some(true)), url("https://example.org/login", None)]),
    );
    assert_eq!(
        create_op7_metadata(&item, &vault("V1", "Private"), &"A1".to_string()),
        expected("I1", "Example", vec!["https://example.com", "https://example.org/login"])
    );
}

#[test]
fn metadata_of_an_item_without_addresses() {
    assert_eq!(
        create_op7_metadata(&item("I2", "Note", None), &vault("V1", "Private"), &"A1".to_string()),
        expected("I2", "Note", vec![])
    );
    assert_eq!(
        create_op7_metadata(
            &item("I2", "Note", Some(vec![])),
            &vault("V1", "Private"),
            &"A1".to_string()
        ),
        expected("I2", "Note", vec![])
    );
}

#[test]
fn metadata_takes_ids_from_vault_and_account_given() {
    let metadata =
        create_op7_metadata(&item("I1", "Example", None), &vault("V9", ""), &"A7".to_string());
    assert_eq!(metadata.vault_uuid, "V9");
    assert_eq!(metadata.profile_uuid, "A7");
    assert_eq!(metadata.vault_name, "");
    assert_eq!(metadata.item_description, "Login from ");
}

#[test]
fn metadata_leaves_times_and_account_name_unfilled() {
    let metadata =
        create_op7_metadata(&item("I1", "Example", None), &vault("V1", "Private"), &"A1".to_string());
    assert_eq!(metadata.modified_at, 0);
    assert_eq!(metadata.created_at, 0);
    assert_eq!(metadata.account_name, "");
    assert_eq!(metadata.category_uuid, "001");
}

#[test]
fn metadata_keeps_addresses_in_order_and_repeated() {
    let item = item(
        "I1",
        "Example",
        Some(vec![url("b", None), url("a", Some(false)), url("b", Some(true)), url("", None)]),
    );
    let metadata = create_op7_metadata(&item, &vault("V1", "Private"), &"A1".to_string());
    assert_eq!(metadata.website_urls, vec!["b", "a", "b", ""]);
}

#[test]
fn copy_of_metadata_is_equal() {
    let metadata = create_op7_metadata(
        &item("I1", "Example", Some(vec![url("https://example.com", None)])),
        &vault("V1", "Private"),
        &"A1".to_string(),
    );
    assert_eq!(metadata.clone(), metadata);
}

#[test]
fn file_name_joins_vault_and_item() {
    assert_eq!(
        metadata_file_name(
            &"jnnjfdrzr5rawkimmsvp3zzzxe".to_string(),
            &"fu5rgmahfihx4j6lludeyx3oei".to_string()
        ),
        "jnnjfdrzr5rawkimmsvp3zzzxe_fu5rgmahfihx4j6lludeyx3oei.onepassword-item-metadata"
    );
    assert_eq!(
        metadata_file_name(&String::new(), &String::new()),
        "_.onepassword-item-metadata"
    );
}

#[test]
fn no_items_give_no_files() {
    assert_eq!(write_items(&Vec::new(), &vault("V1", "Private"), &account("A1")), Vec::new());
}

#[test]
fn each_item_gives_one_file_in_the_accounts_directory() {
    let items =
        vec![item("I2", "Second", None), item("I1", "First", Some(vec![url("https://a", None)]))];
    assert_eq!(
        write_items(&items, &vault("V1", "Private"), &account("A1")),
        vec![
            MetadataFile {
                directory: "A1".to_string(),
                file_name: "V1_I2.onepassword-item-metadata".to_string(),
                metadata: expected("I2", "Second", vec![]),
            },
            MetadataFile {
                directory: "A1".to_string(),
                file_name: "V1_I1.onepassword-item-metadata".to_string(),
                metadata: expected("I1", "First", vec!["https://a"]),
            },
        ]
    );
}

#[test]
fn items_with_the_same_id_give_the_same_file_name() {
    let items = vec![item("I1", "Old", None), item("I1", "New", None)];
    let files = write_items(&items, &vault("V1", "Private"), &account("A1"));
    assert_eq!(files.len(), 2);
    assert_eq!(files[0].file_name, files[1].file_name);
    assert_eq!(files[1].metadata.item_title, "New");
}
