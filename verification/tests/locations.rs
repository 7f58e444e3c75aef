use gaia::error::LocationFault;
use gaia::location::ResourceLocation;
use std::str::FromStr;

#[test]
fn canonical_text_is_read() {
    let location = ResourceLocation::parse("minecraft:plains").unwrap();
    assert_eq!(location.namespace, "minecraft");
    assert_eq!(location.id, "plains");
}

#[test]
fn every_allowed_character_is_accepted() {
    let location = ResourceLocation::parse("a-z_0.9:x.y-z_0").unwrap();
    assert_eq!(location.namespace, "a-z_0.9");
    assert_eq!(location.id, "x.y-z_0");
}

#[test]
fn from_str_reads_as_parse_does() {
    let location = ResourceLocation::from_str("minecraft:default").unwrap();
    assert_eq!(location, ResourceLocation::new("minecraft".to_string(), "default".to_string()));
    let parsed: ResourceLocation = "terralith:cave".parse().unwrap();
    assert_eq!(parsed.to_string(), "terralith:cave");
}

#[test]
fn rendering_is_namespace_colon_id() {
    let location = ResourceLocation::new("minecraft".to_string(), "plains".to_string());
    assert_eq!(location.to_string(), "minecraft:plains");
}

#[test]
fn parse_and_render_round_trip() {
    for text in ["minecraft:plains", "a:b", "my_pack:dark.forest-2", "0:0"] {
        assert_eq!(ResourceLocation::parse(text).unwrap().to_string(), text);
    }
}

#[test]
fn missing_separator_is_told() {
    let e = ResourceLocation::parse("minecraftplains").unwrap_err();
    assert_eq!(e.fault(), LocationFault::MissingSeparator);
    assert_eq!(e.text(), "minecraftplains");
    assert_eq!(ResourceLocation::parse("").unwrap_err().fault(), LocationFault::MissingSeparator);
}

#[test]
fn empty_namespace_is_told() {
    let e = ResourceLocation::parse(":plains").unwrap_err();
    assert_eq!(e.fault(), LocationFault::EmptyNamespace);
    assert_eq!(ResourceLocation::parse(":").unwrap_err().fault(), LocationFault::EmptyNamespace);
}

#[test]
fn empty_id_is_told() {
    let e = ResourceLocation::parse("minecraft:").unwrap_err();
    assert_eq!(e.fault(), LocationFault::EmptyId);
    assert_eq!(e.text(), "minecraft:");
}

#[test]
fn disallowed_characters_are_told() {
    for text in ["Minecraft:plains", "minecraft:Plains", "mine craft:plains", "minecraft:a/b", "a:b:c", "minecraft:plains\n", "é:a"] {
        let e = ResourceLocation::parse(text).unwrap_err();
        assert_eq!(e.fault(), LocationFault::Syntax, "{text:?}");
        assert_eq!(e.text(), text);
    }
}

#[test]
fn same_compares_both_parts() {
    let a = ResourceLocation::new("minecraft".to_string(), "plains".to_string());
    let b = ResourceLocation::new("minecraft".to_string(), "plains".to_string());
    let c = ResourceLocation::new("minecraft".to_string(), "desert".to_string());
    let d = ResourceLocation::new("other".to_string(), "plains".to_string());
    assert!(a.same(&b));
    assert!(!a.same(&c));
    assert!(!a.same(&d));
    assert_eq!(a.duplicate(), a);
}
