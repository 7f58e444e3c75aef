use gaia::widgets::{
    handle_dropdown_event, handle_list_event, list_event_applies, swap_with_next, DropdownEvent, DropdownState, ListEvent, ListState,
    MoveDirection,
};
use gaia::pack_info::{FormatType, TextType};
use gaia::widgets::DropdownOption;
use gaia::format::DatapackFormat;

fn marks(state: &ListState) -> Vec<bool> {
    (0..state.len()).map(|i| state.is_node_collapsed(i)).collect()
}

fn state_of(collapsed: &[bool]) -> ListState {
    let mut state = ListState::new(collapsed.len());
    for (i, c) in collapsed.iter().enumerate() {
        state.set_collapsed(i, *c);
    }
    state
}

#[test]
fn a_new_state_has_nothing_collapsed() {
    let state = ListState::new(3);
    assert_eq!(state.len(), 3);
    assert_eq!(marks(&state), vec![false, false, false]);
    assert_eq!(ListState::new(0).len(), 0);
}

#[test]
fn an_item_beyond_the_state_is_not_collapsed() {
    let mut state = state_of(&[true]);
    assert!(state.is_node_collapsed(0));
    assert!(!state.is_node_collapsed(1));
    assert!(!state.is_node_collapsed(usize::MAX));
    state.set_collapsed(5, true);
    assert_eq!(marks(&state), vec![true]);
}

#[test]
fn marks_are_swapped_added_and_removed() {
    let mut state = state_of(&[true, false, false]);
    state.swap(0, 2);
    assert_eq!(marks(&state), vec![false, false, true]);
    state.swap(1, 1);
    assert_eq!(marks(&state), vec![false, false, true]);
    state.add(0);
    assert_eq!(marks(&state), vec![false, false, false, true]);
    state.add(4);
    assert_eq!(marks(&state), vec![false, false, false, true, false]);
    state.remove(3);
    assert_eq!(marks(&state), vec![false, false, false, false]);
}

#[test]
fn neighbours_change_places() {
    let mut items = vec!["a", "b", "c"];
    swap_with_next(&mut items, 1);
    assert_eq!(items, vec!["a", "c", "b"]);
    swap_with_next(&mut items, 0);
    assert_eq!(items, vec!["c", "a", "b"]);
}

#[test]
fn add_puts_a_default_item_at_the_index() {
    let mut data = vec![5u32, 6];
    let mut state = state_of(&[true, true]);
    let event: ListEvent<()> = handle_list_event(ListEvent::Add(1), &mut data, &mut state);
    assert!(matches!(event, ListEvent::Add(1)));
    assert_eq!(data, vec![5, 0, 6]);
    assert_eq!(marks(&state), vec![true, false, true]);
    handle_list_event(ListEvent::<()>::Add(3), &mut data, &mut state);
    assert_eq!(data, vec![5, 0, 6, 0]);
    handle_list_event(ListEvent::<()>::Add(0), &mut data, &mut state);
    assert_eq!(data, vec![0, 5, 0, 6, 0]);
    assert_eq!(marks(&state), vec![false, true, false, true, false]);
}

#[test]
fn remove_takes_the_item_at_the_index() {
    let mut data = vec![5u32, 6, 7];
    let mut state = state_of(&[true, false, true]);
    let event = handle_list_event(ListEvent::<()>::Remove(1), &mut data, &mut state);
    assert!(matches!(event, ListEvent::Remove(1)));
    assert_eq!(data, vec![5, 7]);
    assert_eq!(marks(&state), vec![true, true]);
}

#[test]
fn moving_up_changes_places_with_the_item_before() {
    let mut data = vec![5u32, 6, 7];
    let mut state = state_of(&[true, false, false]);
    handle_list_event(ListEvent::<()>::Move(MoveDirection::Up, 1), &mut data, &mut state);
    assert_eq!(data, vec![6, 5, 7]);
    assert_eq!(marks(&state), vec![false, true, false]);
    handle_list_event(ListEvent::<()>::Move(MoveDirection::Up, 0), &mut data, &mut state);
    assert_eq!(data, vec![6, 5, 7]);
    assert_eq!(marks(&state), vec![false, true, false]);
}

#[test]
fn moving_down_changes_places_with_the_item_after() {
    let mut data = vec![5u32, 6, 7];
    let mut state = state_of(&[true, false, false]);
    handle_list_event(ListEvent::<()>::Move(MoveDirection::Down, 0), &mut data, &mut state);
    assert_eq!(data, vec![6, 5, 7]);
    assert_eq!(marks(&state), vec![false, true, false]);
    handle_list_event(ListEvent::<()>::Move(MoveDirection::Down, 2), &mut data, &mut state);
    assert_eq!(data, vec![6, 5, 7]);
    handle_list_event(ListEvent::<()>::Move(MoveDirection::Down, 9), &mut data, &mut state);
    assert_eq!(data, vec![6, 5, 7]);
    assert_eq!(marks(&state), vec![false, true, false]);
}

#[test]
fn collapse_and_edit_leave_the_items() {
    let mut data = vec![5u32, 6];
    let mut state = state_of(&[false, false]);
    handle_list_event(ListEvent::<()>::Collapse(1, true), &mut data, &mut state);
    assert_eq!(data, vec![5, 6]);
    assert_eq!(marks(&state), vec![false, true]);
    handle_list_event(ListEvent::<()>::Collapse(7, true), &mut data, &mut state);
    assert_eq!(marks(&state), vec![false, true]);
    let event = handle_list_event(ListEvent::Edit("new", 0), &mut data, &mut state);
    assert!(matches!(event, ListEvent::Edit("new", 0)));
    assert_eq!(data, vec![5, 6]);
    assert_eq!(marks(&state), vec![false, true]);
}

#[test]
fn a_dropdown_follows_its_events() {
    let mut state = DropdownState::new(FormatType::Single);
    assert_eq!(state.selected, FormatType::Single);
    assert!(!state.expanded);
    handle_dropdown_event(DropdownEvent::Expand, &mut state);
    assert!(state.expanded);
    handle_dropdown_event(DropdownEvent::Expand, &mut state);
    assert!(!state.expanded);
    handle_dropdown_event(DropdownEvent::Expand, &mut state);
    handle_dropdown_event(DropdownEvent::Select(FormatType::Range), &mut state);
    assert_eq!(state.selected, FormatType::Range);
    assert!(!state.expanded);
    handle_dropdown_event(DropdownEvent::Expand, &mut state);
    handle_dropdown_event(DropdownEvent::Dismiss, &mut state);
    assert_eq!(state.selected, FormatType::Range);
    assert!(!state.expanded);
    handle_dropdown_event(DropdownEvent::Dismiss, &mut state);
    assert!(!state.expanded);
}

#[test]
fn dropdowns_offer_their_values() {
    assert_eq!(TextType::variants(), vec![TextType::String, TextType::Object]);
    assert_eq!(FormatType::variants(), vec![FormatType::Single, FormatType::Range]);
    assert_eq!(<DatapackFormat as DropdownOption>::variants().len(), 10);
    assert_eq!(TextType::default(), TextType::String);
    assert_eq!(FormatType::default(), FormatType::Single);
}

#[test]
fn an_event_is_checked_against_the_list() {
    let add = |i| ListEvent::<()>::Add(i);
    assert!(list_event_applies(&add(0), 0, 0));
    assert!(list_event_applies(&add(2), 2, 2));
    assert!(!list_event_applies(&add(3), 2, 3));
    assert!(!list_event_applies(&add(3), 3, 2));
    let remove = |i| ListEvent::<()>::Remove(i);
    assert!(list_event_applies(&remove(1), 2, 2));
    assert!(!list_event_applies(&remove(2), 2, 2));
    assert!(!list_event_applies(&remove(0), 0, 0));
    assert!(!list_event_applies(&remove(1), 2, 1));
    let up = |i| ListEvent::<()>::Move(MoveDirection::Up, i);
    assert!(list_event_applies(&up(0), 0, 0));
    assert!(list_event_applies(&up(1), 2, 2));
    assert!(!list_event_applies(&up(2), 2, 2));
    assert!(!list_event_applies(&up(1), 2, 1));
    let down = |i| ListEvent::<()>::Move(MoveDirection::Down, i);
    assert!(!list_event_applies(&down(0), 0, 0));
    assert!(list_event_applies(&down(0), 2, 2));
    assert!(list_event_applies(&down(1), 2, 2));
    assert!(list_event_applies(&down(9), 2, 0));
    assert!(!list_event_applies(&down(0), 2, 1));
    assert!(!list_event_applies(&down(0), 2, 0));
    assert!(list_event_applies(&ListEvent::<()>::Collapse(9, true), 0, 0));
    assert!(list_event_applies(&ListEvent::Edit((), 9), 0, 0));
}
