use web_host::db::{created_or_missing, generate_id, timestamp_string, ResourceTable};
use web_host::error::ApiError;
use web_host::handlers;
use web_host::resources::{CreateResource, Resource, UpdateResource};

fn create(name: &str, description: Option<&str>) -> CreateResource {
    CreateResource { name: name.to_string(), description: description.map(|text| text.to_string()) }
}

#[test]
fn identifier_is_hex_of_seconds_then_hex_of_nanoseconds() {
    assert_eq!(generate_id(0, 0), "00");
    assert_eq!(generate_id(255, 16), "ff10");
    assert_eq!(generate_id(1_700_000_000, 123_456_789), "6553f10075bcd15");
    assert_eq!(generate_id(u64::MAX, u32::MAX), "ffffffffffffffffffffffff");
    assert_eq!(generate_id(1_700_000_000, 123_456_789), format!("{:x}{:x}", 1_700_000_000u64, 123_456_789u32));
}

#[test]
fn timestamp_is_decimal_seconds() {
    assert_eq!(timestamp_string(0), "0");
    assert_eq!(timestamp_string(9), "9");
    assert_eq!(timestamp_string(10), "10");
    assert_eq!(timestamp_string(1_700_000_000), "1700000000");
    assert_eq!(timestamp_string(u64::MAX), "18446744073709551615");
}

#[test]
fn new_table_is_empty() {
    let table = ResourceTable::new();
    assert_eq!(table.len(), 0);
    assert!(table.list_resources().is_empty());
    assert_eq!(table.get_resource("anything"), None);
}

#[test]
fn created_resource_is_found_with_its_name_and_description() {
    let mut table = ResourceTable::new();
    let created = table.create_resource(create("first", Some("a thing")), 1_700_000_000, 5).unwrap();
    assert_eq!(
        created,
        Resource {
            id: "6553f1005".to_string(),
            name: "first".to_string(),
            description: Some("a thing".to_string()),
            created_at: "1700000000".to_string(),
            updated_at: "1700000000".to_string(),
        }
    );
    let found = table.get_resource(&created.id).unwrap();
    assert_eq!(found, created);
    assert_eq!(found.name, "first");
    assert_eq!(found.description.as_deref(), Some("a thing"));
}

#[test]
fn created_resource_without_description_keeps_none() {
    let mut table = ResourceTable::new();
    let created = table.create_resource(create("bare", None), 10, 0).unwrap();
    assert_eq!(created.description, None);
    assert_eq!(table.get_resource(&created.id).unwrap().description, None);
}

#[test]
fn creating_twice_at_the_same_instant_is_a_storage_failure() {
    let mut table = ResourceTable::new();
    table.create_resource(create("one", None), 77, 1).unwrap();
    let second = table.create_resource(create("two", None), 77, 1);
    assert_eq!(
        second,
        Err(ApiError::Database("UNIQUE constraint failed: resources.id".to_string()))
    );
    assert_eq!(table.len(), 1);
    assert_eq!(table.get_resource(&generate_id(77, 1)).unwrap().name, "one");
}

#[test]
fn partial_update_keeps_omitted_fields() {
    let mut table = ResourceTable::new();
    let created = table.create_resource(create("name", Some("text")), 100, 0).unwrap();

    let only_name = UpdateResource { name: Some("renamed".to_string()), description: None };
    let updated = table.update_resource(&created.id, only_name, 150).unwrap();
    assert_eq!(updated.name, "renamed");
    assert_eq!(updated.description.as_deref(), Some("text"));
    assert_eq!(updated.id, created.id);
    assert_eq!(updated.created_at, "100");
    assert_eq!(updated.updated_at, "150");

    let only_description = UpdateResource { name: None, description: Some("described".to_string()) };
    let updated = table.update_resource(&created.id, only_description, 160).unwrap();
    assert_eq!(updated.name, "renamed");
    assert_eq!(updated.description.as_deref(), Some("described"));
    assert_eq!(updated.updated_at, "160");

    let nothing = UpdateResource { name: None, description: None };
    let updated = table.update_resource(&created.id, nothing, 170).unwrap();
    assert_eq!(updated.name, "renamed");
    assert_eq!(updated.description.as_deref(), Some("described"));
    assert_eq!(updated.updated_at, "170");
    assert_eq!(table.get_resource(&created.id), Some(updated));
}

#[test]
fn update_time_never_goes_back() {
    let mut table = ResourceTable::new();
    let created = table.create_resource(create("name", None), 500, 0).unwrap();
    let patch = UpdateResource { name: Some("later".to_string()), description: None };
    let updated = table.update_resource(&created.id, patch, 400).unwrap();
    assert_eq!(updated.name, "later");
    assert_eq!(updated.created_at, "500");
    assert_eq!(updated.updated_at, "500");
}

#[test]
fn update_of_unknown_id_is_not_found() {
    let mut table = ResourceTable::new();
    table.create_resource(create("name", None), 100, 0).unwrap();
    let patch = UpdateResource { name: Some("x".to_string()), description: None };
    let updated = table.update_resource("missing", patch, 120);
    assert_eq!(updated, None);
    assert_eq!(handlers::update_resource(Ok(updated)), Err(ApiError::NotFound));
    assert_eq!(table.len(), 1);
    assert_eq!(table.list_resources()[0].name, "name");
}

#[test]
fn delete_succeeds_once_then_is_not_found() {
    let mut table = ResourceTable::new();
    let created = table.create_resource(create("gone", None), 100, 0).unwrap();
    let kept = table.create_resource(create("kept", None), 101, 0).unwrap();

    let first = table.delete_resource(&created.id);
    assert!(first);
    assert_eq!(handlers::delete_resource(Ok(first)), Ok(()));
    assert_eq!(table.get_resource(&created.id), None);

    let second = table.delete_resource(&created.id);
    assert!(!second);
    assert_eq!(handlers::delete_resource(Ok(second)), Err(ApiError::NotFound));

    assert_eq!(table.len(), 1);
    assert_eq!(table.get_resource(&kept.id), Some(kept));
}

#[test]
fn list_is_ordered_by_creation_time_descending() {
    let mut table = ResourceTable::new();
    table.create_resource(create("middle", None), 200, 0).unwrap();
    table.create_resource(create("oldest", None), 100, 0).unwrap();
    table.create_resource(create("newest", None), 300, 0).unwrap();
    table.create_resource(create("nine", None), 9, 0).unwrap();
    let names: Vec<String> = table.list_resources().into_iter().map(|r| r.name).collect();
    assert_eq!(names, vec!["newest", "middle", "oldest", "nine"]);
    let times: Vec<u64> = table
        .list_resources()
        .iter()
        .map(|r| r.created_at.parse::<u64>().unwrap())
        .collect();
    assert!(times.windows(2).all(|pair| pair[0] >= pair[1]));
}

#[test]
fn resources_of_the_same_second_list_latest_insert_first() {
    let mut table = ResourceTable::new();
    table.create_resource(create("a", None), 100, 1).unwrap();
    table.create_resource(create("b", None), 100, 2).unwrap();
    table.create_resource(create("c", None), 99, 3).unwrap();
    let names: Vec<String> = table.list_resources().into_iter().map(|r| r.name).collect();
    assert_eq!(names, vec!["b", "a", "c"]);
}

#[test]
fn update_keeps_the_position_in_the_list() {
    let mut table = ResourceTable::new();
    let old = table.create_resource(create("old", None), 100, 0).unwrap();
    table.create_resource(create("new", None), 200, 0).unwrap();
    let patch = UpdateResource { name: Some("old but touched".to_string()), description: None };
    table.update_resource(&old.id, patch, 300).unwrap();
    let names: Vec<String> = table.list_resources().into_iter().map(|r| r.name).collect();
    assert_eq!(names, vec!["new", "old but touched"]);
}

#[test]
fn missing_row_after_insert_is_a_storage_failure() {
    assert_eq!(
        created_or_missing(None),
        Err(ApiError::Database("Failed to retrieve created resource".to_string()))
    );
    let resource = Resource {
        id: "1".to_string(),
        name: "n".to_string(),
        description: None,
        created_at: "1".to_string(),
        updated_at: "1".to_string(),
    };
    assert_eq!(created_or_missing(Some(resource.clone())), Ok(resource));
}
