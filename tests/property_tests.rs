//! Tests of the library's stated properties on concrete values, of each error
//! variant and of the fixed scene template.

use level_builder::builder::{build_scene, create_part_from_block};
use level_builder::color::{hex_to_color3, Color3uint8, HexColorError};
use level_builder::export::validated_scene;
use level_builder::models::{Block, SpaceJSON};
use level_builder::scene::{Color3, Fraction, Instance, PropertyValue, Scene, Vector3};
use level_builder::validation::{
    validate_coordinate_bounds, validate_space_json, ValidationError, MAX_BLOCKS,
};

fn block(x: i32, y: i32, z: i32, color: &str) -> Block {
    Block { x, y, z, color: color.to_string() }
}

fn doc(schema_version: u32, blocks: Vec<Block>) -> SpaceJSON {
    SpaceJSON { schema_version, name: None, blocks }
}

fn count_class(scene: &Scene, class: &str) -> usize {
    (0..scene.len()).filter(|&i| scene.instance(i).class_name == class).count()
}

fn value<'a>(instance: &'a Instance, name: &str) -> &'a PropertyValue {
    &instance.properties.iter().find(|p| p.name == name).expect("property present").value
}

fn frac(num: i32, den: u32) -> Fraction {
    Fraction { num, den }
}

#[test]
fn short_form_equals_doubled_digits() {
    for (short, long) in [("#F00", "#FF0000"), ("#abc", "#aabbcc"), ("1a9", "11aa99"), ("#0F7", "#00FF77")] {
        assert_eq!(hex_to_color3(short), hex_to_color3(long));
        assert!(hex_to_color3(short).is_ok());
    }
}

#[test]
fn violet_decodes_to_expected_channels() {
    let c = hex_to_color3("#8B00FF").unwrap();
    assert_eq!(c, Color3uint8 { r: 139, g: 0, b: 255 });
    assert!((c.r as f32 / 255.0 - 0.545).abs() < 0.001);
}

#[test]
fn hex_decoding_errors_are_classified() {
    assert_eq!(hex_to_color3("#FF00"), Err(HexColorError::InvalidLength));
    assert_eq!(hex_to_color3(""), Err(HexColorError::InvalidLength));
    assert_eq!(hex_to_color3("##F0"), Err(HexColorError::InvalidDigit));
    assert_eq!(hex_to_color3("##F00"), Err(HexColorError::InvalidLength));
    assert_eq!(hex_to_color3("#12345G"), Err(HexColorError::InvalidDigit));
    assert_eq!(hex_to_color3("#é00"), Err(HexColorError::InvalidDigit));
    assert_eq!(hex_to_color3("a1B"), Ok(Color3uint8 { r: 170, g: 17, b: 187 }));
}

#[test]
fn zero_blocks_give_one_part_and_one_spawn() {
    let scene = build_scene(&doc(1, vec![]));
    assert_eq!(count_class(&scene, "Part"), 1);
    assert_eq!(count_class(&scene, "SpawnLocation"), 1);
    assert_eq!(scene.len(), 14);
}

#[test]
fn one_block_gives_two_parts() {
    let scene = build_scene(&doc(1, vec![block(10, 5, 20, "#FF0000")]));
    assert_eq!(count_class(&scene, "Part"), 2);
}

#[test]
fn part_count_is_blocks_plus_one() {
    for n in [0usize, 1, 7, 250] {
        let blocks: Vec<Block> = (0..n).map(|i| block(i as i32, 0, 0, "#123")).collect();
        let scene = build_scene(&doc(1, blocks));
        assert_eq!(count_class(&scene, "Part"), n + 1);
    }
}

#[test]
fn over_limit_is_rejected_without_a_scene() {
    let blocks: Vec<Block> = (0..MAX_BLOCKS + 1).map(|i| block((i % 1000) as i32, 0, 0, "#FFF")).collect();
    let r = validated_scene(&doc(1, blocks));
    assert!(matches!(
        r,
        Err(ValidationError::BlockCountExceeded { count, limit }) if count == MAX_BLOCKS + 1 && limit == MAX_BLOCKS
    ));
}

#[test]
fn schema_version_is_checked_before_count() {
    let blocks: Vec<Block> = (0..MAX_BLOCKS + 1).map(|i| block((i % 1000) as i32, 0, 0, "#FFF")).collect();
    assert!(matches!(
        validate_space_json(&doc(3, blocks)),
        Err(ValidationError::InvalidSchemaVersion { version: 3 })
    ));
}

#[test]
fn bounds_are_inclusive_on_every_axis() {
    for (x, y, z) in [(-1000, 0, -1000), (1000, 1000, 1000), (-1000, 1000, 1000), (0, 0, 0)] {
        assert!(validate_coordinate_bounds(x, y, z, 0).is_ok());
    }
    for (x, y, z) in [(-1001, 0, 0), (1001, 0, 0), (0, -1, 0), (0, 1001, 0), (0, 0, -1001), (0, 0, 1001)] {
        assert!(matches!(
            validate_coordinate_bounds(x, y, z, 4),
            Err(ValidationError::CoordinateOutOfBounds { index: 4, .. })
        ));
    }
}

#[test]
fn shared_origin_is_reported_at_second_index() {
    let r = validate_space_json(&doc(1, vec![block(0, 0, 0, "#FF0000"), block(0, 0, 0, "#00FF00")]));
    assert!(matches!(r, Err(ValidationError::DuplicatePosition { x: 0, y: 0, z: 0, index: 1 })));
}

#[test]
fn first_repeated_position_wins() {
    let r = validate_space_json(&doc(
        1,
        vec![block(1, 1, 1, "#111"), block(2, 2, 2, "#222"), block(2, 2, 2, "#333"), block(1, 1, 1, "#444")],
    ));
    assert!(matches!(r, Err(ValidationError::DuplicatePosition { x: 2, y: 2, z: 2, index: 2 })));
}

#[test]
fn invalid_block_is_reported_before_duplicates() {
    let r = validate_space_json(&doc(
        1,
        vec![block(0, 0, 0, "#FFF"), block(0, 0, 0, "#FFF"), block(0, 0, 5, "red")],
    ));
    assert!(matches!(r, Err(ValidationError::InvalidColorFormat { ref color, index: 2 }) if color == "red"));
}

#[test]
fn coordinates_are_checked_before_color() {
    let r = validate_space_json(&doc(1, vec![block(0, 2000, 0, "bad")]));
    assert!(matches!(r, Err(ValidationError::CoordinateOutOfBounds { y: 2000, index: 0, .. })));
}

#[test]
fn building_twice_gives_identical_scenes() {
    let d = doc(1, vec![block(3, 4, 5, "#ABCDEF"), block(-3, 0, 9, "#0F0")]);
    let a = build_scene(&d);
    let b = build_scene(&d);
    assert_eq!(a.len(), b.len());
    for i in 0..a.len() {
        assert_eq!(format!("{:?}", a.instance(i)), format!("{:?}", b.instance(i)));
        assert_eq!(a.parent(i), b.parent(i));
    }
}

#[test]
fn error_codes_are_stable() {
    assert_eq!(ValidationError::InvalidSchemaVersion { version: 0 }.error_code(), "INVALID_SCHEMA_VERSION");
    assert_eq!(ValidationError::BlockCountExceeded { count: 1, limit: 0 }.error_code(), "BLOCK_COUNT_EXCEEDED");
    assert_eq!(
        ValidationError::CoordinateOutOfBounds { x: 0, y: 0, z: 0, index: 0 }.error_code(),
        "COORDINATE_OUT_OF_BOUNDS"
    );
    assert_eq!(
        ValidationError::InvalidColorFormat { color: String::new(), index: 0 }.error_code(),
        "INVALID_COLOR_FORMAT"
    );
    assert_eq!(
        ValidationError::DuplicatePosition { x: 0, y: 0, z: 0, index: 0 }.error_code(),
        "DUPLICATE_POSITION"
    );
}

#[test]
fn messages_render_their_fields() {
    assert_eq!(
        ValidationError::InvalidSchemaVersion { version: 2 }.message(),
        "Unsupported schema version: 2. Only version 1 is supported."
    );
    assert_eq!(
        ValidationError::BlockCountExceeded { count: 10001, limit: 10000 }.message(),
        "Block count (10001) exceeds maximum allowed (10000)."
    );
    assert_eq!(
        ValidationError::CoordinateOutOfBounds { x: -1001, y: 0, z: 57, index: 3 }.message(),
        "Block at position (-1001, 0, 57) [index 3] is out of bounds. Valid range: X/Z: -1000 to 1000, Y: 0 to 1000."
    );
    assert_eq!(
        ValidationError::InvalidColorFormat { color: "not-a-color".to_string(), index: 12 }.message(),
        "Invalid color format 'not-a-color' at block index 12. Expected hex format: #RRGGBB or #RGB."
    );
    assert_eq!(
        ValidationError::DuplicatePosition { x: i32::MIN, y: i32::MAX, z: -7, index: 1 }.message(),
        "Duplicate block position (-2147483648, 2147483647, -7) found at index 1. Each block must have a unique position."
    );
}

#[test]
fn part_carries_name_place_size_and_color() {
    let part = create_part_from_block(&block(-4, 6, 8, "#8B4513"), 12);
    assert_eq!(part.class_name, "Part");
    assert!(matches!(value(&part, "Name"), PropertyValue::String(s) if s == "Block12"));
    let place = Vector3 { x: frac(-4, 1), y: frac(6, 1), z: frac(8, 1) };
    assert!(matches!(value(&part, "CFrame"), PropertyValue::CFrame(p) if *p == place));
    let size = Vector3 { x: frac(2, 1), y: frac(2, 1), z: frac(2, 1) };
    assert!(matches!(value(&part, "Size"), PropertyValue::Vector3(v) if *v == size));
    let color = Color3 { r: frac(139, 255), g: frac(69, 255), b: frac(19, 255) };
    assert!(matches!(value(&part, "Color"), PropertyValue::Color3(c) if *c == color));
    assert!(matches!(value(&part, "Anchored"), PropertyValue::Bool(true)));
}

#[test]
fn undecodable_color_falls_back_to_gray() {
    let part = create_part_from_block(&block(0, 0, 0, "oops"), 0);
    let gray = Color3 { r: frac(1, 2), g: frac(1, 2), b: frac(1, 2) };
    assert!(matches!(value(&part, "Color"), PropertyValue::Color3(c) if *c == gray));
    assert!(matches!(value(&part, "Name"), PropertyValue::String(s) if s == "Block0"));
}

#[test]
fn lighting_technology_is_a_token() {
    let scene = build_scene(&doc(1, vec![]));
    let lighting = (0..scene.len()).find(|&i| scene.instance(i).class_name == "Lighting").unwrap();
    assert_eq!(scene.parent(lighting), Some(0));
    assert!(matches!(value(scene.instance(lighting), "Technology"), PropertyValue::Token(3)));
}

#[test]
fn scene_template_order_and_parents() {
    let scene = build_scene(&doc(1, vec![block(1, 2, 3, "#FFF"), block(4, 5, 6, "#000")]));
    let classes: Vec<&str> = (0..scene.len()).map(|i| scene.instance(i).class_name.as_str()).collect();
    assert_eq!(
        classes,
        vec![
            "DataModel", "Workspace", "Terrain", "Part", "Part", "Part", "SpawnLocation", "Decal",
            "Players", "Lighting", "ReplicatedStorage", "StarterGui", "StarterPack", "StarterPlayer",
            "StarterPlayerScripts", "StarterCharacterScripts",
        ]
    );
    let parents: Vec<Option<usize>> = (0..scene.len()).map(|i| scene.parent(i)).collect();
    assert_eq!(
        parents,
        vec![
            None, Some(0), Some(1), Some(1), Some(1), Some(1), Some(1), Some(6), Some(0), Some(0),
            Some(0), Some(0), Some(0), Some(0), Some(13), Some(13),
        ]
    );
}

#[test]
fn valid_document_yields_scene() {
    let d = doc(1, vec![block(0, 0, 0, "#FF0000"), block(1, 0, 0, "#0f0")]);
    let scene = validated_scene(&d).ok().expect("accepted");
    assert_eq!(count_class(&scene, "Part"), 3);
}
