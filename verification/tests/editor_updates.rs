use gaia::datapack::SerializableDatapack;
use gaia::error::ErrorKind;
use gaia::format::DatapackFormat;
use gaia::manifest::{SerializableOverlayEntry, SerializablePackInfo};
use gaia::overlay::Overlay;
use gaia::pack::Datapack;
use gaia::pack_info::{
    handle_datapack_update, is_single_format, update_applies, DatapackCallbackType, DatapackFormatState, DescriptionEvent,
    DescriptionState, FormatEvent, FormatType, OverlayEditEvent, OverlayFormatState, OverlayState, PackInfoState,
    TextEditEvent, TextType,
};
use gaia::range::FormatRange;
use gaia::text::Text;
use gaia::widgets::{DropdownEvent, ListEvent, MoveDirection, WidgetCallbackChannel};
use gaia::window::{MainContentState, PaneState, PaneType};

const MANIFEST: &str = r#"{
  "pack": {"pack_format": 26, "supported_formats": [18, 41], "description": ["one", {"text": "two", "bold": true}, "three"]},
  "overlays": {"entries": [{"formats": [18, 26], "directory": "first"}, {"formats": 41, "directory": "second"}]}
}"#;

fn datapack() -> Datapack {
    Datapack::from_pack_info("Terra".to_string(), &SerializablePackInfo::parse(MANIFEST).unwrap()).unwrap()
}

fn texts(datapack: &Datapack) -> Vec<&str> {
    datapack.description().iter().map(|t| t.text.as_str()).collect()
}

fn names(datapack: &Datapack) -> Vec<&str> {
    datapack.overlays().iter().map(|o| o.name.as_str()).collect()
}

fn collapsed(state: &gaia::widgets::ListState) -> Vec<bool> {
    (0..state.len()).map(|i| state.is_node_collapsed(i)).collect()
}

fn description(event: ListEvent<TextEditEvent>) -> DatapackCallbackType {
    DatapackCallbackType::Description(DescriptionEvent::Content(event))
}

#[test]
fn the_editor_datapack_is_made_of_the_manifest() {
    let d = datapack();
    assert_eq!(d.name(), "Terra");
    assert_eq!(texts(&d), vec!["one", "two", "three"]);
    assert!(d.description()[1].is_bold);
    assert_eq!(d.root_format(), DatapackFormat::Format26);
    assert_eq!(d.min_format(), DatapackFormat::Format18);
    assert_eq!(d.max_format(), DatapackFormat::Format41);
    assert_eq!(names(&d), vec!["first", "second"]);
    assert_eq!(d.overlays()[0].min_format, DatapackFormat::Format18);
    assert_eq!(d.overlays()[0].max_format, DatapackFormat::Format26);
    assert_eq!(d.overlays()[1].min_format, DatapackFormat::Format41);
}

#[test]
fn a_datapack_of_an_archive_converts() {
    let archive = SerializableDatapack::from_entries("Terra".to_string(), MANIFEST, &vec![]).unwrap();
    assert_eq!(Datapack::try_from(archive).unwrap(), datapack());
}

#[test]
fn a_single_node_description_is_a_list_of_one() {
    let manifest = SerializablePackInfo::parse("{\"pack\": {\"pack_format\": 15, \"description\": \"only\"}}").unwrap();
    let d = Datapack::from_pack_info("p".to_string(), &manifest).unwrap();
    assert_eq!(texts(&d), vec!["only"]);
    assert_eq!(d.min_format(), DatapackFormat::Format15);
    assert_eq!(d.max_format(), DatapackFormat::Format15);
    assert_eq!(d.root_format(), DatapackFormat::Format15);
    assert!(d.overlays().is_empty());
}

#[test]
fn a_manifest_made_by_hand_with_a_bad_overlay_does_not_convert() {
    let mut manifest = SerializablePackInfo::parse(MANIFEST).unwrap();
    manifest.overlays.as_mut().unwrap().entries.push(SerializableOverlayEntry {
        formats: FormatRange { min: DatapackFormat::Format6, max: DatapackFormat::Format41 },
        directory: "bad".to_string(),
    });
    let e = Datapack::from_pack_info("p".to_string(), &manifest).unwrap_err();
    assert_eq!(e.kind(), ErrorKind::Overlay);
    assert_eq!(e.payload(), "bad");
}

#[test]
fn overlays_are_made_of_formats_and_of_codes() {
    let o = Overlay::from_single_format("a".to_string(), DatapackFormat::Format6).unwrap();
    assert_eq!(o, Overlay { name: "a".to_string(), min_format: DatapackFormat::Format6, max_format: DatapackFormat::Format6 });
    let o = Overlay::from_formats("a".to_string(), DatapackFormat::Format18, DatapackFormat::Format41).unwrap();
    assert_eq!(o.max_format, DatapackFormat::Format41);
    let e = Overlay::from_formats("a".to_string(), DatapackFormat::Format15, DatapackFormat::Format41).unwrap_err();
    assert_eq!(e.kind(), ErrorKind::Overlay);
    assert_eq!(e.payload(), "a");
    let e = Overlay::from_formats("b".to_string(), DatapackFormat::Format41, DatapackFormat::Format18).unwrap_err();
    assert_eq!(e.kind(), ErrorKind::Overlay);
    let o = Overlay::from_single_int_format("a".to_string(), 12).unwrap();
    assert_eq!(o.min_format, DatapackFormat::Format12);
    assert_eq!(o.max_format, DatapackFormat::Format12);
    let o = Overlay::from_int_formats("a".to_string(), 18, 26).unwrap();
    assert_eq!((o.min_format, o.max_format), (DatapackFormat::Format18, DatapackFormat::Format26));
    let e = Overlay::from_int_formats("a".to_string(), 18, 27).unwrap_err();
    assert_eq!(e.kind(), ErrorKind::Format);
    assert_eq!(e.payload(), "27");
    let e = Overlay::from_int_formats("a".to_string(), 262, 27).unwrap_err();
    assert_eq!(e.payload(), "262");
    let e = Overlay::from_single_int_format("a".to_string(), -18).unwrap_err();
    assert_eq!(e.payload(), "-18");
    let e = Overlay::from_int_formats("a".to_string(), 6, 18).unwrap_err();
    assert_eq!(e.kind(), ErrorKind::Overlay);
    let entry = SerializableOverlayEntry { formats: FormatRange::single(DatapackFormat::Format9), directory: "x".to_string() };
    let o = Overlay::try_from(entry.duplicate()).unwrap();
    assert_eq!(o.to_entry(), entry);
    assert_eq!(Overlay::default().name, "");
}

#[test]
fn a_new_state_matches_the_datapack() {
    let d = datapack();
    let state = PackInfoState::new(&d);
    assert_eq!(collapsed(&state.description_state.collapsed_state), vec![false, false, false]);
    assert_eq!(state.description_state.text_type_state.len(), 3);
    for dropdown in &state.description_state.text_type_state {
        assert_eq!(dropdown.selected, TextType::String);
        assert!(!dropdown.expanded);
    }
    assert_eq!(state.format_state.format_type.selected, FormatType::Range);
    assert_eq!(state.format_state.root.selected, DatapackFormat::Format26);
    assert_eq!(state.format_state.min.selected, DatapackFormat::Format18);
    assert_eq!(state.format_state.max.selected, DatapackFormat::Format41);
    assert!(!is_single_format(&state));
    assert_eq!(collapsed(&state.overlay_state.list_state), vec![false, false]);
    let formats = &state.overlay_state.overlay_format_states;
    assert_eq!(formats.len(), 2);
    assert_eq!(formats[0].format_type.selected, FormatType::Range);
    assert_eq!(formats[0].min.selected, DatapackFormat::Format18);
    assert_eq!(formats[0].max.selected, DatapackFormat::Format26);
    assert_eq!(formats[1].format_type.selected, FormatType::Single);
    assert_eq!(formats[1].max.selected, DatapackFormat::Format41);
}

#[test]
fn the_parts_of_a_state_are_made_alone() {
    let d = datapack();
    let description = DescriptionState::new(2);
    assert_eq!(description.text_type_state.len(), 2);
    assert_eq!(description.collapsed_state.len(), 2);
    let formats = DatapackFormatState::new(&d);
    assert_eq!(formats.root.selected, DatapackFormat::Format26);
    let overlays = OverlayState::new(&d);
    assert_eq!(overlays.overlay_format_states.len(), 2);
    let one = OverlayFormatState::new(&d.overlays()[1]);
    assert_eq!(one.format_type.selected, FormatType::Single);
    assert_eq!(one.min.selected, DatapackFormat::Format41);
}

#[test]
fn a_single_format_pack_is_told() {
    let manifest = SerializablePackInfo::parse("{\"pack\": {\"pack_format\": 15, \"description\": \"only\"}}").unwrap();
    let d = Datapack::from_pack_info("p".to_string(), &manifest).unwrap();
    assert!(is_single_format(&PackInfoState::new(&d)));
}

#[test]
fn a_new_name_replaces_the_name() {
    let mut d = datapack();
    let state = PackInfoState::new(&d);
    let state = handle_datapack_update(&mut d, DatapackCallbackType::DatapackName("Other".to_string()), state);
    assert_eq!(d.name(), "Other");
    assert_eq!(texts(&d), vec!["one", "two", "three"]);
    assert_eq!(names(&d), vec!["first", "second"]);
    assert_eq!(state.description_state.text_type_state.len(), 3);
    d.set_name("Third");
    assert_eq!(d.name(), "Third");
}

#[test]
fn description_list_events_keep_nodes_marks_and_types_together() {
    let mut d = datapack();
    let mut state = PackInfoState::new(&d);
    state = handle_datapack_update(&mut d, description(ListEvent::Collapse(1, true)), state);
    state = handle_datapack_update(
        &mut d,
        DatapackCallbackType::Description(DescriptionEvent::Type(1, DropdownEvent::Select(TextType::Object))),
        state,
    );
    state = handle_datapack_update(&mut d, description(ListEvent::Add(0)), state);
    assert_eq!(texts(&d), vec!["", "one", "two", "three"]);
    assert_eq!(d.description()[0], Text::default());
    assert_eq!(collapsed(&state.description_state.collapsed_state), vec![false, false, true, false]);
    let types: Vec<TextType> = state.description_state.text_type_state.iter().map(|s| s.selected).collect();
    assert_eq!(types, vec![TextType::String, TextType::String, TextType::Object, TextType::String]);

    state = handle_datapack_update(&mut d, description(ListEvent::Move(MoveDirection::Up, 2)), state);
    assert_eq!(texts(&d), vec!["", "two", "one", "three"]);
    assert_eq!(collapsed(&state.description_state.collapsed_state), vec![false, true, false, false]);
    let types: Vec<TextType> = state.description_state.text_type_state.iter().map(|s| s.selected).collect();
    assert_eq!(types, vec![TextType::String, TextType::Object, TextType::String, TextType::String]);

    state = handle_datapack_update(&mut d, description(ListEvent::Move(MoveDirection::Down, 1)), state);
    assert_eq!(texts(&d), vec!["", "one", "two", "three"]);
    state = handle_datapack_update(&mut d, description(ListEvent::Move(MoveDirection::Down, 3)), state);
    assert_eq!(texts(&d), vec!["", "one", "two", "three"]);
    state = handle_datapack_update(&mut d, description(ListEvent::Move(MoveDirection::Up, 0)), state);
    assert_eq!(texts(&d), vec!["", "one", "two", "three"]);

    state = handle_datapack_update(&mut d, description(ListEvent::Remove(0)), state);
    assert_eq!(texts(&d), vec!["one", "two", "three"]);
    assert_eq!(collapsed(&state.description_state.collapsed_state), vec![false, true, false]);
    let types: Vec<TextType> = state.description_state.text_type_state.iter().map(|s| s.selected).collect();
    assert_eq!(types, vec![TextType::String, TextType::Object, TextType::String]);
    assert_eq!(names(&d), vec!["first", "second"]);
}

#[test]
fn an_edit_changes_one_node() {
    let mut d = datapack();
    let mut state = PackInfoState::new(&d);
    state = handle_datapack_update(&mut d, description(ListEvent::Edit(TextEditEvent::Text("uno".to_string()), 0)), state);
    assert_eq!(texts(&d), vec!["uno", "two", "three"]);
    state = handle_datapack_update(&mut d, description(ListEvent::Edit(TextEditEvent::Bold(None), 1)), state);
    assert!(!d.description()[1].is_bold);
    state = handle_datapack_update(&mut d, description(ListEvent::Edit(TextEditEvent::Bold(Some(true)), 2)), state);
    state = handle_datapack_update(&mut d, description(ListEvent::Edit(TextEditEvent::Italic(Some(true)), 2)), state);
    state = handle_datapack_update(&mut d, description(ListEvent::Edit(TextEditEvent::Underlined(Some(true)), 2)), state);
    state = handle_datapack_update(&mut d, description(ListEvent::Edit(TextEditEvent::Strikethrough(Some(true)), 2)), state);
    state = handle_datapack_update(&mut d, description(ListEvent::Edit(TextEditEvent::Obfuscated(Some(true)), 2)), state);
    state = handle_datapack_update(&mut d, description(ListEvent::Edit(TextEditEvent::Italic(Some(false)), 2)), state);
    let third = &d.description()[2];
    assert!(third.is_bold && !third.is_italic && third.is_underlined && third.is_strikethrough && third.is_obfuscated);
    assert_eq!(third.text, "three");
    assert_eq!(d.description()[0], Text::new("uno"));
    assert_eq!(state.description_state.text_type_state.len(), 3);
}

#[test]
fn format_events_change_the_selector_only() {
    let mut d = datapack();
    let mut state = PackInfoState::new(&d);
    let select = |format| DropdownEvent::Select(format);
    state = handle_datapack_update(&mut d, DatapackCallbackType::Format(FormatEvent::Format(0, select(DatapackFormat::Format6))), state);
    state = handle_datapack_update(&mut d, DatapackCallbackType::Format(FormatEvent::Format(1, select(DatapackFormat::Format7))), state);
    state = handle_datapack_update(&mut d, DatapackCallbackType::Format(FormatEvent::Format(2, select(DatapackFormat::Format8))), state);
    assert_eq!(state.format_state.root.selected, DatapackFormat::Format6);
    assert_eq!(state.format_state.min.selected, DatapackFormat::Format7);
    assert_eq!(state.format_state.max.selected, DatapackFormat::Format8);
    state = handle_datapack_update(&mut d, DatapackCallbackType::Format(FormatEvent::Format(9, select(DatapackFormat::Format9))), state);
    assert_eq!(state.format_state.max.selected, DatapackFormat::Format9);
    state = handle_datapack_update(&mut d, DatapackCallbackType::Format(FormatEvent::Type(DropdownEvent::Expand)), state);
    assert!(state.format_state.format_type.expanded);
    state = handle_datapack_update(&mut d, DatapackCallbackType::Format(FormatEvent::Type(DropdownEvent::Select(FormatType::Single))), state);
    assert!(is_single_format(&state));
    assert_eq!(d.root_format(), DatapackFormat::Format26);
    assert_eq!(d.min_format(), DatapackFormat::Format18);
    assert_eq!(d.max_format(), DatapackFormat::Format41);
}

#[test]
fn overlay_events_change_the_overlays_and_their_marks() {
    let mut d = datapack();
    let mut state = PackInfoState::new(&d);
    state = handle_datapack_update(&mut d, DatapackCallbackType::Overlay(ListEvent::Collapse(0, true)), state);
    state = handle_datapack_update(&mut d, DatapackCallbackType::Overlay(ListEvent::Add(2)), state);
    assert_eq!(names(&d), vec!["first", "second", ""]);
    assert_eq!(d.overlays()[2], Overlay::default());
    assert_eq!(collapsed(&state.overlay_state.list_state), vec![true, false, false]);
    assert_eq!(state.overlay_state.overlay_format_states.len(), 2);
    state = handle_datapack_update(&mut d, DatapackCallbackType::Overlay(ListEvent::Move(MoveDirection::Down, 0)), state);
    assert_eq!(names(&d), vec!["second", "first", ""]);
    assert_eq!(collapsed(&state.overlay_state.list_state), vec![false, true, false]);
    state = handle_datapack_update(
        &mut d,
        DatapackCallbackType::Overlay(ListEvent::Edit(OverlayEditEvent::Name("renamed".to_string()), 2)),
        state,
    );
    assert_eq!(names(&d), vec!["second", "first", "renamed"]);
    assert_eq!(d.overlays()[2].min_format, DatapackFormat::Format18);
    state = handle_datapack_update(&mut d, DatapackCallbackType::Overlay(ListEvent::Remove(0)), state);
    assert_eq!(names(&d), vec!["first", "renamed"]);
    assert_eq!(collapsed(&state.overlay_state.list_state), vec![true, false]);
    assert_eq!(texts(&d), vec!["one", "two", "three"]);
}

#[test]
fn an_overlay_format_edit_changes_its_selector_only() {
    let mut d = datapack();
    let mut state = PackInfoState::new(&d);
    let edit = |event, index| DatapackCallbackType::Overlay(ListEvent::Edit(OverlayEditEvent::Format(event), index));
    state = handle_datapack_update(&mut d, edit(FormatEvent::Format(0, DropdownEvent::Select(DatapackFormat::Format26)), 0), state);
    state = handle_datapack_update(&mut d, edit(FormatEvent::Format(1, DropdownEvent::Select(DatapackFormat::Format41)), 0), state);
    state = handle_datapack_update(&mut d, edit(FormatEvent::Type(DropdownEvent::Expand), 1), state);
    let formats = &state.overlay_state.overlay_format_states;
    assert_eq!(formats[0].min.selected, DatapackFormat::Format26);
    assert_eq!(formats[0].max.selected, DatapackFormat::Format41);
    assert!(!formats[0].format_type.expanded);
    assert!(formats[1].format_type.expanded);
    assert_eq!(formats[1].min.selected, DatapackFormat::Format41);
    assert_eq!(d.overlays()[0].min_format, DatapackFormat::Format18);
    assert_eq!(d.overlays()[0].max_format, DatapackFormat::Format26);
}

#[test]
fn the_window_hands_inputs_on() {
    let mut d = datapack();
    let window = MainContentState::open(&d);
    let window = window.handle_input(
        &mut d,
        WidgetCallbackChannel::PackInfo(DatapackCallbackType::DatapackName("Shown".to_string())),
    );
    assert_eq!(d.name(), "Shown");
    assert!(matches!(window, MainContentState::PackInfo(_)));
    assert_eq!(PaneState::new(PaneType::Preview).pane_type, PaneType::Preview);
    assert_eq!(PaneState::new(PaneType::FileTree), PaneState { pane_type: PaneType::FileTree });
}

#[test]
fn an_input_is_checked_against_the_datapack_and_the_state() {
    let d = datapack();
    let state = PackInfoState::new(&d);
    let fits = |event: DatapackCallbackType| update_applies(&d, &event, &state);
    assert!(fits(DatapackCallbackType::DatapackName("n".to_string())));
    assert!(fits(description(ListEvent::Add(3))));
    assert!(!fits(description(ListEvent::Add(4))));
    assert!(fits(description(ListEvent::Remove(2))));
    assert!(!fits(description(ListEvent::Remove(3))));
    assert!(fits(description(ListEvent::Move(MoveDirection::Up, 0))));
    assert!(fits(description(ListEvent::Move(MoveDirection::Up, 2))));
    assert!(!fits(description(ListEvent::Move(MoveDirection::Up, 3))));
    assert!(fits(description(ListEvent::Move(MoveDirection::Down, 7))));
    assert!(fits(description(ListEvent::Collapse(9, true))));
    assert!(fits(description(ListEvent::Edit(TextEditEvent::Bold(None), 2))));
    assert!(!fits(description(ListEvent::Edit(TextEditEvent::Bold(None), 3))));
    assert!(fits(DatapackCallbackType::Description(DescriptionEvent::Type(2, DropdownEvent::Expand))));
    assert!(!fits(DatapackCallbackType::Description(DescriptionEvent::Type(3, DropdownEvent::Expand))));
    assert!(fits(DatapackCallbackType::Format(FormatEvent::Format(99, DropdownEvent::Dismiss))));
    assert!(fits(DatapackCallbackType::Overlay(ListEvent::Add(2))));
    assert!(!fits(DatapackCallbackType::Overlay(ListEvent::Add(3))));
    assert!(fits(DatapackCallbackType::Overlay(ListEvent::Edit(OverlayEditEvent::Name("x".to_string()), 1))));
    assert!(!fits(DatapackCallbackType::Overlay(ListEvent::Edit(OverlayEditEvent::Name("x".to_string()), 2))));
    assert!(!fits(DatapackCallbackType::Overlay(ListEvent::Edit(
        OverlayEditEvent::Format(FormatEvent::Type(DropdownEvent::Expand)),
        2
    ))));
}

#[test]
fn a_selector_that_was_not_added_with_its_overlay_does_not_fit() {
    let mut d = datapack();
    let mut state = PackInfoState::new(&d);
    state = handle_datapack_update(&mut d, DatapackCallbackType::Overlay(ListEvent::Add(2)), state);
    let edit = DatapackCallbackType::Overlay(ListEvent::Edit(
        OverlayEditEvent::Format(FormatEvent::Type(DropdownEvent::Expand)),
        2,
    ));
    assert!(!update_applies(&d, &edit, &state));
    let rename = DatapackCallbackType::Overlay(ListEvent::Edit(OverlayEditEvent::Name("x".to_string()), 2));
    assert!(update_applies(&d, &rename, &state));
}
