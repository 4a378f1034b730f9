//! Tests for the metadata annotation grammar: single components, component
//! lists, and the folded metadata value.

use jsptemplate::parser::metadata::{
    parse_components, parse_metadata, parse_owner, parse_permissions, parse_varname, parse_volume,
};
use jsptemplate::{Metadata, MetadataComponent};

#[test]
fn can_parse_volume() {
    let owner = parse_components(" volume ,");
    assert_eq!(owner, Some((",".to_string(), vec![MetadataComponent::Volume])));
}

#[test]
fn can_parse_2_volumes() {
    let owner = parse_components(" volume ,volume");
    assert_eq!(
        owner,
        Some(("".to_string(), vec![MetadataComponent::Volume, MetadataComponent::Volume]))
    );
}

#[test]
fn can_parse_volume_and_owner() {
    let owner = parse_components(" volume , owner : jgerber");
    assert_eq!(
        owner,
        Some((
            "".to_string(),
            vec![
                MetadataComponent::Volume,
                MetadataComponent::Owner("jgerber".to_string()),
            ]
        ))
    );
}

#[test]
fn can_parse_volume_and_owner_and_perms() {
    let cmp = parse_components(" volume , owner : jgerber, perms: 751");
    assert_eq!(
        cmp,
        Some((
            "".to_string(),
            vec![
                MetadataComponent::Volume,
                MetadataComponent::Owner("jgerber".to_string()),
                MetadataComponent::Permissions("751".to_string()),
            ]
        ))
    );
}

#[test]
fn can_parse_volume_and_owner_and_perms_and_varname() {
    let cmp = parse_components(" volume , owner : jgerber, perms: 751, varname: JG_SHOW");
    assert_eq!(
        cmp,
        Some((
            "".to_string(),
            vec![
                MetadataComponent::Volume,
                MetadataComponent::Owner("jgerber".to_string()),
                MetadataComponent::Permissions("751".to_string()),
                MetadataComponent::EnvVarName("JG_SHOW".to_string()),
            ]
        ))
    );
}

#[test]
fn can_parse_volume_no_spaces() {
    let owner = parse_volume("volume");
    assert_eq!(owner, Some(("".to_string(), MetadataComponent::Volume)));
}

#[test]
fn can_parse_volume_spaces() {
    let owner = parse_volume("  volume   ");
    assert_eq!(owner, Some(("".to_string(), MetadataComponent::Volume)));
}

#[test]
fn can_parse_owner_no_spaces() {
    let owner = parse_owner("owner:fred");
    assert_eq!(
        owner,
        Some(("".to_string(), MetadataComponent::Owner("fred".to_string())))
    );
}

#[test]
fn can_parse_owner_spaces() {
    let owner = parse_owner("owner : fred");
    assert_eq!(
        owner,
        Some(("".to_string(), MetadataComponent::Owner("fred".to_string())))
    );
}

#[test]
fn can_parse_owner_more_spaces() {
    let owner = parse_owner("  owner : fred  ");
    assert_eq!(
        owner,
        Some(("".to_string(), MetadataComponent::Owner("fred".to_string())))
    );
}

#[test]
fn can_parse_perms_no_spaces() {
    let p = parse_permissions("perms:777");
    assert_eq!(
        p,
        Some(("".to_string(), MetadataComponent::Permissions("777".to_string())))
    );
}

#[test]
fn can_parse_perms_spaces() {
    let p = parse_permissions(" perms :  777 ");
    assert_eq!(
        p,
        Some(("".to_string(), MetadataComponent::Permissions("777".to_string())))
    );
    let p = parse_permissions(" perms:  777 ");
    assert_eq!(
        p,
        Some(("".to_string(), MetadataComponent::Permissions("777".to_string())))
    );
    let p = parse_permissions(" perms :777 ");
    assert_eq!(
        p,
        Some(("".to_string(), MetadataComponent::Permissions("777".to_string())))
    );
}

#[test]
fn can_parse_varname_no_spaces() {
    let varname = parse_varname("varname:fred");
    assert_eq!(
        varname,
        Some(("".to_string(), MetadataComponent::EnvVarName("fred".to_string())))
    );
}

#[test]
fn can_parse_varname_spaces() {
    let varname = parse_varname("varname : fred");
    assert_eq!(
        varname,
        Some(("".to_string(), MetadataComponent::EnvVarName("fred".to_string())))
    );
}

#[test]
fn can_parse_varname_more_spaces() {
    let varname = parse_varname("  varname : fred  ");
    assert_eq!(
        varname,
        Some(("".to_string(), MetadataComponent::EnvVarName("fred".to_string())))
    );
}

#[test]
fn can_parse_metadata_line() {
    let md = parse_metadata(" volume , owner : jgerber, perms: 751, varname: JG_SHOW");
    let expect = Metadata {
        volume: true,
        permissions: Some("751".to_string()),
        varname: Some("JG_SHOW".to_string()),
        owner: Some("jgerber".to_string()),
    };
    assert_eq!(md, Some(expect));
}

#[test]
fn metadata_line_later_component_overwrites() {
    let md = parse_metadata("owner : first, owner : second");
    let expect = Metadata {
        volume: false,
        permissions: None,
        varname: None,
        owner: Some("second".to_string()),
    };
    assert_eq!(md, Some(expect));
}

#[test]
fn metadata_line_rejects_trailing_junk() {
    assert_eq!(parse_metadata(" volume , ?"), None);
    assert_eq!(parse_metadata(""), None);
}
