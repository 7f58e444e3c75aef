use gaia::path::{biome_id_of, content_path_of, is_under_data, namespace_of, overlay_directory_of};
use regex::Regex;

const SAMPLES: [&str; 40] = [
    "pack.mcmeta",
    "pack.png",
    "data",
    "data/",
    "data/minecraft",
    "data/minecraft/",
    "data/minecraft/worldgen/biome/plains.json",
    "data/minecraft/worldgen/biome/cave/lush.json",
    "data/minecraft/worldgen/biome/.json",
    "data/minecraft/worldgen/biome/plains.json.bak",
    "data/minecraft/worldgen/biome/a.json.json",
    "data/minecraft/worldgen/biome/Plains.json",
    "data/minecraft/worldgen/biome/plains.JSON",
    "data/minecraft/worldgen/biomes/plains.json",
    "data/minecraft/worldgen/configured_carver/cave.json",
    "data/MyNamespace/worldgen/biome/x.json",
    "data/my namespace/worldgen/biome/x.json",
    "data//worldgen/biome/x.json",
    "data/a.b-c_0/worldgen/biome/x-y_z.0.json",
    "myoverlay/data/minecraft/worldgen/biome/plains.json",
    "my-overlay_2/data/minecraft/tags/x.json",
    "my.overlay/data/minecraft/worldgen/biome/plains.json",
    "Overlay/data/minecraft/worldgen/biome/plains.json",
    "overlay/data/",
    "overlay/data",
    "overlay/data/x",
    "/data/minecraft/worldgen/biome/plains.json",
    "a/b/data/minecraft/worldgen/biome/plains.json",
    "data/data/foo",
    "data/data/minecraft/worldgen/biome/plains.json",
    "assets/minecraft/textures/a.png",
    "overlay/assets/data/x",
    "",
    "/",
    "x",
    "data/minecraft/worldgen/biome/plains.json\n",
    "ov/data/MyNamespace/worldgen/biome/x.json",
    "datapack/readme.txt",
    "data/é/worldgen/biome/x.json",
    "o/data/m/worldgen/biome/i.json",
];

#[test]
fn a_root_biome_path_has_no_overlay_directory() {
    let path = "data/minecraft/worldgen/biome/plains.json";
    assert_eq!(overlay_directory_of(path), None);
    assert_eq!(content_path_of(path), path);
    assert!(is_under_data(path));
    assert_eq!(namespace_of(path), Some("minecraft".to_string()));
    assert_eq!(biome_id_of(path), Some("plains".to_string()));
}

#[test]
fn an_overlay_path_gives_its_directory_and_the_rest() {
    let path = "myoverlay/data/minecraft/worldgen/biome/plains.json";
    assert_eq!(overlay_directory_of(path), Some("myoverlay".to_string()));
    assert_eq!(content_path_of(path), "data/minecraft/worldgen/biome/plains.json");
    assert_eq!(biome_id_of(&content_path_of(path)), Some("plains".to_string()));
    assert_eq!(biome_id_of(path), None);
}

#[test]
fn an_uppercase_namespace_is_not_allowed() {
    let path = "data/MyNamespace/worldgen/biome/x.json";
    assert!(is_under_data(path));
    assert_eq!(namespace_of(path), None);
    assert_eq!(biome_id_of(path), None);
}

#[test]
fn the_whole_namespace_segment_is_checked() {
    assert_eq!(namespace_of("data/myNamespace/x"), None);
    assert_eq!(namespace_of("data/my namespace/x"), None);
    assert_eq!(namespace_of("data//x"), None);
    assert_eq!(namespace_of("data/ok"), Some("ok".to_string()));
    assert_eq!(namespace_of("data/ok/"), Some("ok".to_string()));
    assert_eq!(namespace_of("data/a.b-c_0/x/y"), Some("a.b-c_0".to_string()));
}

#[test]
fn the_data_directory_itself_is_not_under_data() {
    assert!(!is_under_data("data/"));
    assert!(!is_under_data("data"));
    assert!(!is_under_data("pack.mcmeta"));
    assert!(!is_under_data("datapack/x"));
    assert!(!is_under_data(""));
    assert!(is_under_data("data/x"));
}

#[test]
fn ids_may_have_directories() {
    assert_eq!(
        biome_id_of("data/terralith/worldgen/biome/cave/deep/fungal.json"),
        Some("cave/deep/fungal".to_string())
    );
    assert_eq!(biome_id_of("data/m/worldgen/biome/a.json.json"), Some("a.json".to_string()));
}

#[test]
fn other_files_name_no_biome() {
    for path in [
        "data/minecraft/worldgen/biome/.json",
        "data/minecraft/worldgen/biome/plains.json.bak",
        "data/minecraft/worldgen/biome/Plains.json",
        "data/minecraft/worldgen/biome/plains.JSON",
        "data/minecraft/worldgen/biomes/plains.json",
        "data/minecraft/worldgen/configured_carver/cave.json",
        "data/minecraft/worldgen/biome/plains.json\n",
        "data/minecraft/worldgen/biome",
        "data/minecraft/worldgen/biome/",
        "x/data/minecraft/worldgen/biome/plains.json",
    ] {
        assert_eq!(biome_id_of(path), None, "{path:?}");
    }
}

#[test]
fn overlay_directories_have_no_dot_and_no_capital() {
    assert_eq!(overlay_directory_of("my.overlay/data/minecraft/x"), None);
    assert_eq!(overlay_directory_of("Overlay/data/minecraft/x"), None);
    assert_eq!(overlay_directory_of("/data/minecraft/x"), None);
    assert_eq!(overlay_directory_of("a/b/data/minecraft/x"), None);
    assert_eq!(overlay_directory_of("overlay/data/"), None);
    assert_eq!(overlay_directory_of("overlay/data"), None);
    assert_eq!(overlay_directory_of("my-overlay_2/data/x"), Some("my-overlay_2".to_string()));
}

#[test]
fn a_namespace_called_data_reads_as_an_overlay_directory() {
    assert_eq!(overlay_directory_of("data/data/foo"), Some("data".to_string()));
    assert_eq!(content_path_of("data/data/foo"), "data/foo");
}

#[test]
fn the_overlay_directory_agrees_with_the_anchored_pattern() {
    let overlay = Regex::new(r"^([a-z0-9_-]+)/data/(?s:.+)$").unwrap();
    for path in SAMPLES {
        let expected = overlay.captures(path).map(|c| c.get(1).unwrap().as_str().to_string());
        assert_eq!(overlay_directory_of(path), expected, "{path:?}");
        let rest = match &expected {
            Some(directory) => path[directory.len() + 1..].to_string(),
            None => path.to_string(),
        };
        assert_eq!(content_path_of(path), rest, "{path:?}");
    }
}

#[test]
fn under_data_agrees_with_the_anchored_pattern() {
    let data = Regex::new(r"^data/(?s:.+)$").unwrap();
    for path in SAMPLES {
        assert_eq!(is_under_data(path), data.is_match(path), "{path:?}");
    }
}

#[test]
fn the_namespace_agrees_with_the_anchored_pattern() {
    let namespace = Regex::new(r"^data/([a-z0-9_.-]+)(?:/(?s:.*))?$").unwrap();
    for path in SAMPLES {
        if is_under_data(path) {
            let expected = namespace.captures(path).map(|c| c.get(1).unwrap().as_str().to_string());
            assert_eq!(namespace_of(path), expected, "{path:?}");
        }
    }
}

#[test]
fn the_biome_id_agrees_with_the_anchored_pattern() {
    let biome = Regex::new(r"^data/[a-z0-9_.-]+/worldgen/biome/([a-z0-9/_.-]+)\.json$").unwrap();
    for path in SAMPLES {
        // `$` also matches before a final line break in no mode of this crate,
        // so the pattern and the function see the same end.
        let expected = biome.captures(path).map(|c| c.get(1).unwrap().as_str().to_string());
        assert_eq!(biome_id_of(path), expected, "{path:?}");
    }
}
