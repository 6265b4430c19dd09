use afirmflasher::manifest::{
    get_device_url, parse_device_manifest, parse_partition_manifest, resolve_base_url,
};
use afirmflasher::{get_device, UpdateError};

#[test]
fn device_id_from_property() {
    assert_eq!(get_device(Some(String::from("pine64"))), "pine64");
    assert_eq!(get_device(None), "");
}

#[test]
fn resolves_known_device() {
    let body = r#"{"devices":{"pine64":"http://x/pine64"}}"#;
    let manifest = parse_device_manifest(body).unwrap();
    let url = resolve_base_url(&manifest, "pine64").unwrap();
    assert_eq!(url, "http://x/pine64");
    assert_eq!(get_device_url(body, "pine64").unwrap(), "http://x/pine64");
}

#[test]
fn unknown_device_is_distinct_error() {
    let body = r#"{"devices":{"pine64":"http://x/pine64"}}"#;
    let manifest = parse_device_manifest(body).unwrap();
    assert_eq!(
        resolve_base_url(&manifest, "other").unwrap_err(),
        UpdateError::UnknownDevice
    );
    assert_eq!(
        get_device_url(body, "other").unwrap_err(),
        UpdateError::UnknownDevice
    );
}

#[test]
fn device_manifest_invalid_json_is_parse_error() {
    assert_eq!(
        get_device_url("not json at all", "pine64").unwrap_err(),
        UpdateError::ParseError
    );
}

#[test]
fn device_manifest_wrong_shape_is_malformed() {
    assert_eq!(
        parse_device_manifest(r#"{"nodevices":{}}"#).unwrap_err(),
        UpdateError::MalformedManifest
    );
    assert_eq!(
        parse_device_manifest(r#"{"devices":["a"]}"#).unwrap_err(),
        UpdateError::MalformedManifest
    );
    assert_eq!(
        parse_device_manifest(r#"[1,2,3]"#).unwrap_err(),
        UpdateError::MalformedManifest
    );
}

#[test]
fn non_string_base_url_is_malformed() {
    let manifest = parse_device_manifest(r#"{"devices":{"pine64":7}}"#).unwrap();
    assert_eq!(
        resolve_base_url(&manifest, "pine64").unwrap_err(),
        UpdateError::MalformedManifest
    );
}

#[test]
fn partition_manifest_single_entry() {
    let body = r#"{"partitions":[{"partition":"/dev/boot","file":"boot.img","checksum":"abc123"}]}"#;
    let m = parse_partition_manifest(body).unwrap();
    assert_eq!(m.entries.len(), 1);
    assert_eq!(m.skipped, 0);
    assert_eq!(m.entries[0].partition, "/dev/boot");
    assert_eq!(m.entries[0].file, "boot.img");
    assert_eq!(m.entries[0].checksum, "abc123");
}

#[test]
fn entries_missing_fields_are_skipped() {
    let body = r#"{"partitions":[
        {"partition":"/dev/boot","file":"boot.img","checksum":"abc123"},
        {"partition":"/dev/x"},
        {"file":"y.img"},
        {"checksum":"z"},
        {"partition":"/dev/a","file":"a.img"},
        {},
        "not an object",
        5
    ]}"#;
    let m = parse_partition_manifest(body).unwrap();
    assert_eq!(m.entries.len(), 1);
    assert_eq!(m.skipped, 7);
    assert_eq!(m.entries[0].partition, "/dev/boot");
}

#[test]
fn entry_order_is_preserved() {
    let body = r#"{"partitions":[
        {"partition":"/dev/b","file":"b.img","checksum":"bb"},
        {"partition":"/dev/a","file":"a.img","checksum":"aa"}
    ]}"#;
    let m = parse_partition_manifest(body).unwrap();
    assert_eq!(m.entries.len(), 2);
    assert_eq!(m.entries[0].partition, "/dev/b");
    assert_eq!(m.entries[1].partition, "/dev/a");
}

#[test]
fn partition_manifest_invalid_json_is_parse_error() {
    assert_eq!(
        parse_partition_manifest("{{{").unwrap_err(),
        UpdateError::ParseError
    );
}

#[test]
fn partition_manifest_wrong_shape_is_malformed() {
    assert_eq!(
        parse_partition_manifest(r#"{"noparts":[]}"#).unwrap_err(),
        UpdateError::MalformedManifest
    );
    assert_eq!(
        parse_partition_manifest(r#"{"partitions":{"a":1}}"#).unwrap_err(),
        UpdateError::MalformedManifest
    );
}

#[test]
fn empty_partition_list_is_valid() {
    let m = parse_partition_manifest(r#"{"partitions":[]}"#).unwrap();
    assert_eq!(m.entries.len(), 0);
    assert_eq!(m.skipped, 0);
}
