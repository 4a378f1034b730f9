//! Tests for the metadata component: construction, fluent setters, getters.

use jsptemplate::Metadata;

#[test]
fn can_create_metadata() {
    let md = Metadata::new();
    let expect = Metadata { volume: false, permissions: None, varname: None, owner: None };
    assert_eq!(md, expect);
}

#[test]
fn can_create_metadata_and_set_volume() {
    let md = Metadata::new().set_volume(true);
    let expect = Metadata { volume: true, permissions: None, varname: None, owner: None };
    assert_eq!(md, expect);
}

#[test]
fn can_create_metadata_and_set_owner() {
    let md = Metadata::new().set_volume(true).set_owner(Some("jgerber".to_string()));
    let expect = Metadata {
        volume: true,
        permissions: None,
        varname: None,
        owner: Some("jgerber".to_string()),
    };
    assert_eq!(md, expect);
}

#[test]
fn can_create_metadata_and_set_varname() {
    let md = Metadata::new()
        .set_volume(true)
        .set_owner(Some("jgerber".to_string()))
        .set_varname(Some("jg_show".to_string()));
    let expect = Metadata {
        volume: true,
        permissions: None,
        varname: Some("jg_show".to_string()),
        owner: Some("jgerber".to_string()),
    };
    assert_eq!(md, expect);
}

#[test]
fn can_create_metadata_and_set_perms() {
    let md = Metadata::new()
        .set_volume(true)
        .set_owner(Some("jgerber".to_string()))
        .set_varname(Some("jg_show".to_string()))
        .set_permissions(Some("777".to_string()));
    let expect = Metadata {
        volume: true,
        permissions: Some("777".to_string()),
        varname: Some("jg_show".to_string()),
        owner: Some("jgerber".to_string()),
    };
    assert_eq!(md, expect);
}

#[test]
fn can_get_volume() {
    let md = Metadata::new().set_volume(true);
    assert_eq!(md.volume(), true);
}

#[test]
fn can_get_owner() {
    let md = Metadata::new().set_volume(true).set_owner(Some("jgerber".to_string()));
    assert_eq!(md.owner(), Some(&"jgerber".to_string()));
}

#[test]
fn can_get_varname() {
    let md = Metadata::new()
        .set_volume(true)
        .set_owner(Some("jgerber".to_string()))
        .set_varname(Some("jg_foo".to_string()));
    assert_eq!(md.varname(), Some(&"jg_foo".to_string()));
}

#[test]
fn can_get_permissions() {
    let md = Metadata::new()
        .set_volume(true)
        .set_owner(Some("jgerber".to_string()))
        .set_varname(Some("jg_foo".to_string()))
        .set_permissions(Some("777".to_string()));
    assert_eq!(md.permissions(), Some(&"777".to_string()));
}

#[test]
fn is_empty_on_fresh_metadata() {
    assert!(Metadata::new().is_empty());
    assert!(!Metadata::new().set_volume(true).is_empty());
    assert!(!Metadata::new().set_owner(Some("o".to_string())).is_empty());
}
