use gaia::color::Color;
use gaia::error::ErrorKind;
use gaia::json::parse_json;
use gaia::location::ResourceLocation;
use gaia::text::{SerializableText, Text};

fn plain(s: &str) -> Text {
    Text::new(s)
}

fn object(text: Option<&str>, translate: Option<&str>) -> SerializableText {
    SerializableText::Object {
        text: text.map(|s| s.to_string()),
        translate: translate.map(|s| s.to_string()),
        extra: None,
        color: None,
        font: None,
        bold: None,
        italic: None,
        underlined: None,
        strikethrough: None,
        obfuscated: None,
    }
}

fn read(json: &str) -> Result<Text, gaia::error::DatapackError> {
    let raw = SerializableText::from_json(&parse_json(json).unwrap())?;
    Text::from_serializable(&raw)
}

#[test]
fn a_new_node_has_nothing_set() {
    let t = Text::new("hello");
    assert_eq!(t.text, "hello");
    assert!(t.extra.is_empty());
    assert!(!t.should_translate);
    assert_eq!(t.color, None);
    assert_eq!(t.font, None);
    assert!(!t.is_bold && !t.is_italic && !t.is_underlined && !t.is_strikethrough && !t.is_obfuscated);
    assert_eq!(Text::default(), Text::new(""));
}

#[test]
fn a_bare_string_is_its_text() {
    let t = Text::from_serializable(&SerializableText::String("A pack".to_string())).unwrap();
    assert_eq!(t, plain("A pack"));
    assert_eq!(read("\"A pack\"").unwrap(), plain("A pack"));
}

#[test]
fn an_empty_list_is_rejected() {
    let e = Text::from_serializable(&SerializableText::List(vec![])).unwrap_err();
    assert_eq!(e.kind(), ErrorKind::Deserialize);
    assert_eq!(Text::from_list(&vec![]).unwrap_err().kind(), ErrorKind::Deserialize);
    assert_eq!(read("[]").unwrap_err().kind(), ErrorKind::Deserialize);
}

#[test]
fn a_list_of_one_node_is_that_node() {
    let mut inner = object(Some("root"), None);
    if let SerializableText::Object { extra, .. } = &mut inner {
        *extra = Some(vec![SerializableText::String("kept".to_string())]);
    }
    let t = Text::from_list(&vec![inner]).unwrap();
    assert_eq!(t.text, "root");
    assert_eq!(t.extra, vec![plain("kept")]);
}

#[test]
fn the_first_node_of_a_list_is_followed_by_the_others() {
    let t = read("[\"a\", \"b\", {\"text\": \"c\", \"bold\": true}]").unwrap();
    assert_eq!(t.text, "a");
    assert_eq!(t.extra.len(), 2);
    assert_eq!(t.extra[0], plain("b"));
    assert_eq!(t.extra[1].text, "c");
    assert!(t.extra[1].is_bold);
}

#[test]
fn the_others_replace_what_followed_the_first_node() {
    let t = read("[{\"text\": \"a\", \"italic\": true, \"extra\": [\"dropped\"]}, \"b\"]").unwrap();
    assert_eq!(t.text, "a");
    assert!(t.is_italic);
    assert_eq!(t.extra, vec![plain("b")]);
}

#[test]
fn nested_lists_are_read_node_by_node() {
    let t = read("[[\"a\", \"b\"], [\"c\"]]").unwrap();
    assert_eq!(t.text, "a");
    assert_eq!(t.extra, vec![plain("c")]);
    let t = read("[\"x\", [\"a\", \"b\"]]").unwrap();
    assert_eq!(t.text, "x");
    assert_eq!(t.extra.len(), 1);
    assert_eq!(t.extra[0].text, "a");
    assert_eq!(t.extra[0].extra, vec![plain("b")]);
}

#[test]
fn an_object_needs_text_or_translate() {
    let e = Text::from_serializable(&object(None, None)).unwrap_err();
    assert_eq!(e.kind(), ErrorKind::Deserialize);
    assert_eq!(read("{}").unwrap_err().kind(), ErrorKind::Deserialize);
    assert_eq!(read("{\"bold\": true}").unwrap_err().kind(), ErrorKind::Deserialize);
    assert_eq!(read("{\"text\": null}").unwrap_err().kind(), ErrorKind::Deserialize);
}

#[test]
fn translate_marks_the_node_for_translation() {
    let t = Text::from_serializable(&object(None, Some("pack.name"))).unwrap();
    assert_eq!(t.text, "pack.name");
    assert!(t.should_translate);
    let t = Text::from_serializable(&object(Some("plain"), None)).unwrap();
    assert_eq!(t.text, "plain");
    assert!(!t.should_translate);
}

#[test]
fn text_wins_over_translate() {
    let t = Text::from_serializable(&object(Some("plain"), Some("pack.name"))).unwrap();
    assert_eq!(t.text, "plain");
    assert!(!t.should_translate);
}

#[test]
fn flags_that_are_absent_are_false() {
    let t = read("{\"text\": \"a\", \"bold\": true, \"underlined\": false, \"obfuscated\": null}").unwrap();
    assert!(t.is_bold);
    assert!(!t.is_italic);
    assert!(!t.is_underlined);
    assert!(!t.is_strikethrough);
    assert!(!t.is_obfuscated);
    let t = read("{\"text\": \"a\", \"italic\": true, \"strikethrough\": true, \"obfuscated\": true}").unwrap();
    assert!(t.is_italic && t.is_strikethrough && t.is_obfuscated && !t.is_bold);
}

#[test]
fn colours_are_read_and_checked() {
    assert_eq!(read("{\"text\": \"a\", \"color\": \"gold\"}").unwrap().color, Some(Color::Name("gold".to_string())));
    assert_eq!(read("{\"text\": \"a\", \"color\": \"255\"}").unwrap().color, Some(Color::Hex(255)));
    assert_eq!(read("{\"text\": \"a\"}").unwrap().color, None);
    let e = read("{\"text\": \"a\", \"color\": \"orange\"}").unwrap_err();
    assert_eq!(e.kind(), ErrorKind::Deserialize);
}

#[test]
fn the_font_is_a_location_object() {
    let t = read("{\"text\": \"a\", \"font\": {\"namespace\": \"minecraft\", \"id\": \"default\"}}").unwrap();
    assert_eq!(t.font, Some(ResourceLocation::new("minecraft".to_string(), "default".to_string())));
    assert_eq!(read("{\"text\": \"a\", \"font\": null}").unwrap().font, None);
    let doc = parse_json("{\"text\": \"a\", \"font\": {\"namespace\": \"minecraft\"}}").unwrap();
    assert_eq!(SerializableText::from_json(&doc).unwrap_err().kind(), ErrorKind::Deserialize);
    let doc = parse_json("{\"text\": \"a\", \"font\": 3}").unwrap();
    assert_eq!(SerializableText::from_json(&doc).unwrap_err().kind(), ErrorKind::Deserialize);
}

#[test]
fn extra_nodes_follow_the_object() {
    let t = read("{\"text\": \"a\", \"extra\": [\"b\", {\"translate\": \"c\"}]}").unwrap();
    assert_eq!(t.extra.len(), 2);
    assert_eq!(t.extra[0], plain("b"));
    assert_eq!(t.extra[1].text, "c");
    assert!(t.extra[1].should_translate);
    assert!(read("{\"text\": \"a\", \"extra\": []}").unwrap().extra.is_empty());
}

#[test]
fn a_rejected_node_inside_rejects_the_whole() {
    assert_eq!(read("{\"text\": \"a\", \"extra\": [\"b\", {}]}").unwrap_err().kind(), ErrorKind::Deserialize);
    assert_eq!(read("[\"a\", {\"bold\": true}]").unwrap_err().kind(), ErrorKind::Deserialize);
    assert_eq!(read("[{}, \"a\"]").unwrap_err().kind(), ErrorKind::Deserialize);
    assert_eq!(read("[\"a\", []]").unwrap_err().kind(), ErrorKind::Deserialize);
}

#[test]
fn documents_of_the_wrong_shape_denote_no_node() {
    for bad in ["3", "true", "null", "{\"text\": 3}", "{\"text\": \"a\", \"bold\": \"yes\"}", "{\"text\": \"a\", \"extra\": \"b\"}", "[1]", "{\"text\": \"a\", \"color\": 7}"] {
        let doc = parse_json(bad).unwrap();
        let e = SerializableText::from_json(&doc).unwrap_err();
        assert_eq!(e.kind(), ErrorKind::Deserialize, "{bad}");
    }
}

#[test]
fn members_that_are_not_known_are_ignored() {
    let t = read("{\"text\": \"a\", \"clickEvent\": {\"action\": \"run\"}, \"score\": 3}").unwrap();
    assert_eq!(t, plain("a"));
}

#[test]
fn from_nodes_reads_from_an_index_on() {
    let list = vec![
        SerializableText::String("a".to_string()),
        SerializableText::String("b".to_string()),
        SerializableText::String("c".to_string()),
    ];
    assert_eq!(Text::from_nodes(&list, 0).unwrap(), vec![plain("a"), plain("b"), plain("c")]);
    assert_eq!(Text::from_nodes(&list, 2).unwrap(), vec![plain("c")]);
    assert!(Text::from_nodes(&list, 3).unwrap().is_empty());
}
