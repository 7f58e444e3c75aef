//! The editor's state for the manifest of a datapack, and what an input
//! does to the datapack and to that state.

use crate::format::DatapackFormat;
use crate::manifest::OverlayView;
use crate::overlay::Overlay;
use crate::pack::editor_overlay_views;
use crate::pack::Datapack;
use crate::pack::DatapackView;
use crate::text::flag;
use crate::text::text_views;
use crate::text::RichText;
use crate::text::Text;
use crate::widgets::dropdown_after;
use crate::widgets::handle_dropdown_event;
use crate::widgets::handle_list_event;
use crate::widgets::items_after;
use crate::widgets::list_event_applies;
use crate::widgets::list_event_fits;
use crate::widgets::marks_after;
use crate::widgets::moved;
use crate::widgets::swap_with_next;
use crate::widgets::swapped;
use crate::widgets::DropdownEvent;
use crate::widgets::DropdownOption;
use crate::widgets::DropdownState;
use crate::widgets::ListEvent;
use crate::widgets::ListState;
use crate::widgets::MoveDirection;
use vstd::prelude::*;

verus! {

/// How a node of the description is written: as a bare string, or as an
/// object with styling.
#[derive(Debug, Clone, Copy, PartialEq, Eq, Structural)]
pub enum TextType {
    String,
    Object,
}

impl Default for TextType {
    fn default() -> (r: Self)
        ensures
            r == TextType::String,
    {
        TextType::String
    }
}

impl DropdownOption for TextType {
    fn variants() -> (r: Vec<Self>)
        ensures
            r@ == seq![TextType::String, TextType::Object],
    {
        let r = vec![TextType::String, TextType::Object];
        assert(r@ =~= seq![TextType::String, TextType::Object]);
        r
    }
}

/// Whether a pack, or an overlay, is for one format or for a range.
#[derive(Debug, Clone, Copy, PartialEq, Eq, Structural)]
pub enum FormatType {
    Single,
    Range,
}

impl Default for FormatType {
    fn default() -> (r: Self)
        ensures
            r == FormatType::Single,
    {
        FormatType::Single
    }
}

impl DropdownOption for FormatType {
    fn variants() -> (r: Vec<Self>)
        ensures
            r@ == seq![FormatType::Single, FormatType::Range],
    {
        let r = vec![FormatType::Single, FormatType::Range];
        assert(r@ =~= seq![FormatType::Single, FormatType::Range]);
        r
    }
}

impl DropdownOption for DatapackFormat {
    fn variants() -> (r: Vec<Self>)
        ensures
            r@ == crate::format::all_formats(),
    {
        DatapackFormat::variants()
    }
}

/// An edit of one node of the description.
#[derive(Debug, Clone)]
pub enum TextEditEvent {
    Text(String),
    Bold(Option<bool>),
    Italic(Option<bool>),
    Underlined(Option<bool>),
    Strikethrough(Option<bool>),
    Obfuscated(Option<bool>),
}

/// What a user did to the description: to the list of its nodes, or to the
/// dropdown that says how the node at an index is written.
#[derive(Debug, Clone)]
pub enum DescriptionEvent {
    Content(ListEvent<TextEditEvent>),
    Type(usize, DropdownEvent<TextType>),
}

/// What a user did to a format selector: to the dropdown of its kind, or to
/// the dropdown of one of its formats, which are counted from 0.
#[derive(Debug, Clone, Copy)]
pub enum FormatEvent {
    Type(DropdownEvent<FormatType>),
    Format(usize, DropdownEvent<DatapackFormat>),
}

/// An edit of one overlay.
#[derive(Debug, Clone)]
pub enum OverlayEditEvent {
    Name(String),
    Format(FormatEvent),
}

/// What a user did to the manifest.
#[derive(Debug, Clone)]
pub enum DatapackCallbackType {
    DatapackName(String),
    Description(DescriptionEvent),
    Format(FormatEvent),
    Overlay(ListEvent<OverlayEditEvent>),
}

/// The state of the description's editor: which nodes are collapsed, and how
/// each node is written.
#[derive(Debug, Clone)]
pub struct DescriptionState {
    pub collapsed_state: ListState,
    pub text_type_state: Vec<DropdownState<TextType>>,
}

/// The state of the pack's format selector.
#[derive(Debug, Clone, Copy)]
pub struct DatapackFormatState {
    pub format_type: DropdownState<FormatType>,
    pub root: DropdownState<DatapackFormat>,
    pub min: DropdownState<DatapackFormat>,
    pub max: DropdownState<DatapackFormat>,
}

/// The state of one overlay's format selector.
#[derive(Debug, Clone, Copy)]
pub struct OverlayFormatState {
    pub format_type: DropdownState<FormatType>,
    pub min: DropdownState<DatapackFormat>,
    pub max: DropdownState<DatapackFormat>,
}

/// The state of the overlays' editor.
#[derive(Debug, Clone)]
pub struct OverlayState {
    pub list_state: ListState,
    pub overlay_format_states: Vec<OverlayFormatState>,
}

/// The state of the manifest's editor.
#[derive(Debug, Clone)]
pub struct PackInfoState {
    pub description_state: DescriptionState,
    pub format_state: DatapackFormatState,
    pub overlay_state: OverlayState,
}

/// The kind of a selector for the given bounds: one format where they are
/// the same, else a range.
pub open spec fn format_type_of(min: DatapackFormat, max: DatapackFormat) -> FormatType {
    if min == max {
        FormatType::Single
    } else {
        FormatType::Range
    }
}

/// A closed dropdown with the given value selected.
pub open spec fn closed_dropdown<T: DropdownOption>(selected: T) -> DropdownState<T> {
    DropdownState { selected, expanded: false }
}

/// The selector state of an overlay: all dropdowns closed, on the overlay's
/// formats.
pub open spec fn overlay_format_state_of(overlay: OverlayView) -> OverlayFormatState {
    OverlayFormatState {
        format_type: closed_dropdown(format_type_of(overlay.formats.min, overlay.formats.max)),
        min: closed_dropdown(overlay.formats.min),
        max: closed_dropdown(overlay.formats.max),
    }
}

impl DescriptionState {
    /// The state for a description of `count` nodes: none collapsed, all
    /// written as bare strings.
    pub fn new(count: usize) -> (r: Self)
        ensures
            r.collapsed_state@ == Seq::new(count as nat, |i: int| false),
            r.text_type_state@ == Seq::new(count as nat, |i: int| closed_dropdown(TextType::String)),
    {
        let mut text_type_state: Vec<DropdownState<TextType>> = Vec::new();
        let mut i: usize = 0;
        while i < count
            invariant
                i <= count,
                text_type_state@ == Seq::new(i as nat, |k: int| closed_dropdown(TextType::String)),
            decreases count - i,
        {
            text_type_state.push(DropdownState::new(TextType::String));
            i += 1;
            assert(text_type_state@ =~= Seq::new(
                i as nat,
                |k: int| closed_dropdown(TextType::String),
            ));
        }
        Self { collapsed_state: ListState::new(count), text_type_state }
    }
}

impl DatapackFormatState {
    /// The state for a datapack: all dropdowns closed, on the datapack's
    /// formats.
    pub fn new(datapack: &Datapack) -> (r: Self)
        ensures
            r == (DatapackFormatState {
                format_type: closed_dropdown(
                    format_type_of(datapack.min_format, datapack.max_format),
                ),
                root: closed_dropdown(datapack.root_format),
                min: closed_dropdown(datapack.min_format),
                max: closed_dropdown(datapack.max_format),
            }),
    {
        let root = datapack.root_format();
        let min = datapack.min_format();
        let max = datapack.max_format();
        let format_type = if min == max {
            FormatType::Single
        } else {
            FormatType::Range
        };
        Self {
            format_type: DropdownState::new(format_type),
            root: DropdownState::new(root),
            min: DropdownState::new(min),
            max: DropdownState::new(max),
        }
    }
}

impl OverlayFormatState {
    /// The state for an overlay: all dropdowns closed, on the overlay's
    /// formats.
    pub fn new(overlay: &Overlay) -> (r: Self)
        ensures
            r == overlay_format_state_of(overlay@),
    {
        let min = overlay.min_format;
        let max = overlay.max_format;
        let format_type = if min == max {
            FormatType::Single
        } else {
            FormatType::Range
        };
        Self {
            format_type: DropdownState::new(format_type),
            min: DropdownState::new(min),
            max: DropdownState::new(max),
        }
    }
}

impl OverlayState {
    /// The state for the overlays of a datapack: none collapsed, and one
    /// selector state for each.
    pub fn new(datapack: &Datapack) -> (r: Self)
        ensures
            r.list_state@ == Seq::new(datapack.overlays@.len(), |i: int| false),
            r.overlay_format_states@ == Seq::new(
                datapack.overlays@.len(),
                |i: int| overlay_format_state_of(datapack.overlays@[i]@),
            ),
    {
        let overlays = datapack.overlays();
        let mut overlay_format_states: Vec<OverlayFormatState> = Vec::new();
        let mut i: usize = 0;
        while i < overlays.len()
            invariant
                i <= overlays.len(),
                overlay_format_states@ == Seq::new(
                    i as nat,
                    |k: int| overlay_format_state_of(overlays@[k]@),
                ),
            decreases overlays.len() - i,
        {
            overlay_format_states.push(OverlayFormatState::new(&overlays[i]));
            i += 1;
            assert(overlay_format_states@ =~= Seq::new(
                i as nat,
                |k: int| overlay_format_state_of(overlays@[k]@),
            ));
        }
        Self { list_state: ListState::new(overlays.len()), overlay_format_states }
    }
}

/// Whether `state` is the state of the editor for a datapack that was just
/// opened: nothing is collapsed, every node is written as a bare string, and
/// every dropdown is closed on the format that the datapack has.
pub open spec fn fresh_state(datapack: Datapack, state: PackInfoState) -> bool {
    &&& state.description_state.collapsed_state@ == Seq::new(
        datapack.description@.len(),
        |i: int| false,
    )
    &&& state.description_state.text_type_state@ == Seq::new(
        datapack.description@.len(),
        |i: int| closed_dropdown(TextType::String),
    )
    &&& state.format_state == (DatapackFormatState {
        format_type: closed_dropdown(format_type_of(datapack.min_format, datapack.max_format)),
        root: closed_dropdown(datapack.root_format),
        min: closed_dropdown(datapack.min_format),
        max: closed_dropdown(datapack.max_format),
    })
    &&& state.overlay_state.list_state@ == Seq::new(datapack.overlays@.len(), |i: int| false)
    &&& state.overlay_state.overlay_format_states@ == Seq::new(
        datapack.overlays@.len(),
        |i: int| overlay_format_state_of(datapack.overlays@[i]@),
    )
}

impl PackInfoState {
    /// The state of the editor for a datapack that was just opened.
    pub fn new(datapack: &Datapack) -> (r: Self)
        ensures
            fresh_state(*datapack, r),
    {
        Self {
            description_state: DescriptionState::new(datapack.description().len()),
            format_state: DatapackFormatState::new(datapack),
            overlay_state: OverlayState::new(datapack),
        }
    }
}

/// Whether the pack's selector is set to one format.
pub fn is_single_format(pack_info_state: &PackInfoState) -> (r: bool)
    ensures
        r == (pack_info_state.format_state.format_type.selected == FormatType::Single),
{
    pack_info_state.format_state.format_type.selected == FormatType::Single
}

/// A node after an edit: the text is replaced, or one flag is set, where a
/// flag that is not given counts as `false`.
pub open spec fn edited_text(text: RichText, event: TextEditEvent) -> RichText {
    match event {
        TextEditEvent::Text(s) => RichText { text: s@, ..text },
        TextEditEvent::Bold(b) => RichText { is_bold: flag(b), ..text },
        TextEditEvent::Italic(b) => RichText { is_italic: flag(b), ..text },
        TextEditEvent::Underlined(b) => RichText { is_underlined: flag(b), ..text },
        TextEditEvent::Strikethrough(b) => RichText { is_strikethrough: flag(b), ..text },
        TextEditEvent::Obfuscated(b) => RichText { is_obfuscated: flag(b), ..text },
    }
}

/// The pack's selector after an event: the dropdown 0 is that of the root
/// format, 1 that of the first format, and every other that of the last.
pub open spec fn format_state_after(state: DatapackFormatState, event: FormatEvent)
    -> DatapackFormatState {
    match event {
        FormatEvent::Type(e) => DatapackFormatState {
            format_type: dropdown_after(state.format_type, e),
            ..state
        },
        FormatEvent::Format(index, e) => if index == 0 {
            DatapackFormatState { root: dropdown_after(state.root, e), ..state }
        } else if index == 1 {
            DatapackFormatState { min: dropdown_after(state.min, e), ..state }
        } else {
            DatapackFormatState { max: dropdown_after(state.max, e), ..state }
        },
    }
}

/// An overlay's selector after an event: the dropdown 0 is that of the
/// first format, and every other that of the last.
pub open spec fn overlay_format_state_after(state: OverlayFormatState, event: FormatEvent)
    -> OverlayFormatState {
    match event {
        FormatEvent::Type(e) => OverlayFormatState {
            format_type: dropdown_after(state.format_type, e),
            ..state
        },
        FormatEvent::Format(index, e) => if index == 0 {
            OverlayFormatState { min: dropdown_after(state.min, e), ..state }
        } else {
            OverlayFormatState { max: dropdown_after(state.max, e), ..state }
        },
    }
}

/// Whether the datapack and the state can take the input: the indices that
/// it names are there.
pub open spec fn update_fits(
    datapack: Datapack,
    callback_type: DatapackCallbackType,
    state: PackInfoState,
) -> bool {
    match callback_type {
        DatapackCallbackType::DatapackName(_) => true,
        DatapackCallbackType::Description(DescriptionEvent::Content(event)) => {
            let types = state.description_state.text_type_state@.len();
            &&& list_event_fits(
                event,
                datapack.description@.len() as int,
                state.description_state.collapsed_state@.len() as int,
            )
            &&& match event {
                ListEvent::Add(index) => index <= types,
                ListEvent::Remove(index) => index < types,
                ListEvent::Move(MoveDirection::Up, index) => index > 0 ==> index < types,
                ListEvent::Move(MoveDirection::Down, _) => types > 0,
                ListEvent::Collapse(_, _) => true,
                ListEvent::Edit(_, index) => index < datapack.description@.len(),
            }
        },
        DatapackCallbackType::Description(DescriptionEvent::Type(index, _)) => index
            < state.description_state.text_type_state@.len(),
        DatapackCallbackType::Format(_) => true,
        DatapackCallbackType::Overlay(event) => {
            &&& list_event_fits(
                event,
                datapack.overlays@.len() as int,
                state.overlay_state.list_state@.len() as int,
            )
            &&& match event {
                ListEvent::Edit(OverlayEditEvent::Name(_), index) => index
                    < datapack.overlays@.len(),
                ListEvent::Edit(OverlayEditEvent::Format(_), index) => index
                    < datapack.overlays@.len() && index
                    < state.overlay_state.overlay_format_states@.len(),
                _ => true,
            }
        },
    }
}

/// Whether the datapack and the state can take the input.
pub fn update_applies(
    datapack: &Datapack,
    callback_type: &DatapackCallbackType,
    state: &PackInfoState,
) -> (r: bool)
    ensures
        r == update_fits(*datapack, *callback_type, *state),
{
    match callback_type {
        DatapackCallbackType::DatapackName(_) => true,
        DatapackCallbackType::Description(DescriptionEvent::Content(event)) => {
            let types = state.description_state.text_type_state.len();
            list_event_applies(
                event,
                datapack.description.len(),
                state.description_state.collapsed_state.len(),
            ) && match event {
                ListEvent::Add(index) => *index <= types,
                ListEvent::Remove(index) => *index < types,
                ListEvent::Move(MoveDirection::Up, index) => *index == 0 || *index < types,
                ListEvent::Move(MoveDirection::Down, _) => types > 0,
                ListEvent::Collapse(_, _) => true,
                ListEvent::Edit(_, index) => *index < datapack.description.len(),
            }
        },
        DatapackCallbackType::Description(DescriptionEvent::Type(index, _)) => *index
            < state.description_state.text_type_state.len(),
        DatapackCallbackType::Format(_) => true,
        DatapackCallbackType::Overlay(event) => {
            list_event_applies(
                event,
                datapack.overlays.len(),
                state.overlay_state.list_state.len(),
            ) && match event {
                ListEvent::Edit(OverlayEditEvent::Name(_), index) => *index
                    < datapack.overlays.len(),
                ListEvent::Edit(OverlayEditEvent::Format(_), index) => *index
                    < datapack.overlays.len() && *index
                    < state.overlay_state.overlay_format_states.len(),
                _ => true,
            }
        },
    }
}

/// Whether `after` is what the nodes of the description become by the
/// input.
pub open spec fn description_after(
    before: Seq<RichText>,
    callback_type: DatapackCallbackType,
    after: Seq<RichText>,
) -> bool {
    match callback_type {
        DatapackCallbackType::Description(DescriptionEvent::Content(event)) => match event {
            ListEvent::Add(index) => after == before.insert(
                index as int,
                crate::text::plain_text(Seq::empty()),
            ),
            ListEvent::Remove(index) => after == before.remove(index as int),
            ListEvent::Move(direction, index) => after == moved(
                before,
                direction,
                index as int,
                before.len() as int,
            ),
            ListEvent::Collapse(_, _) => after == before,
            ListEvent::Edit(edit, index) => after == before.update(
                index as int,
                edited_text(before[index as int], edit),
            ),
        },
        _ => after == before,
    }
}

/// Whether `after` is what the overlays become by the input. Editing the
/// formats of an overlay changes its selector, not the overlay.
pub open spec fn overlays_after(
    before: Seq<OverlayView>,
    callback_type: DatapackCallbackType,
    after: Seq<OverlayView>,
) -> bool {
    match callback_type {
        DatapackCallbackType::Overlay(event) => match event {
            ListEvent::Add(index) => after == before.insert(
                index as int,
                OverlayView {
                    formats: crate::range::FormatRange {
                        min: DatapackFormat::Format18,
                        max: DatapackFormat::Format18,
                    },
                    directory: Seq::empty(),
                },
            ),
            ListEvent::Remove(index) => after == before.remove(index as int),
            ListEvent::Move(direction, index) => after == moved(
                before,
                direction,
                index as int,
                before.len() as int,
            ),
            ListEvent::Collapse(_, _) => after == before,
            ListEvent::Edit(OverlayEditEvent::Name(name), index) => after == before.update(
                index as int,
                OverlayView { directory: name@, ..before[index as int] },
            ),
            ListEvent::Edit(OverlayEditEvent::Format(_), _) => after == before,
        },
        _ => after == before,
    }
}

/// The text-type dropdowns of the description after the input.
pub open spec fn text_types_after(
    before: Seq<DropdownState<TextType>>,
    callback_type: DatapackCallbackType,
) -> Seq<DropdownState<TextType>> {
    match callback_type {
        DatapackCallbackType::Description(DescriptionEvent::Content(event)) => match event {
            ListEvent::Add(index) => before.insert(index as int, closed_dropdown(TextType::String)),
            ListEvent::Remove(index) => before.remove(index as int),
            ListEvent::Move(direction, index) => moved(
                before,
                direction,
                index as int,
                before.len() as int,
            ),
            _ => before,
        },
        DatapackCallbackType::Description(DescriptionEvent::Type(index, event)) => before.update(
            index as int,
            dropdown_after(before[index as int], event),
        ),
        _ => before,
    }
}

/// The collapse marks of the description after the input.
pub open spec fn description_marks_after(
    before: Seq<bool>,
    callback_type: DatapackCallbackType,
    length: int,
) -> Seq<bool> {
    match callback_type {
        DatapackCallbackType::Description(DescriptionEvent::Content(event)) => marks_after(
            before,
            event,
            length,
        ),
        _ => before,
    }
}

/// The collapse marks of the overlays after the input.
pub open spec fn overlay_marks_after(
    before: Seq<bool>,
    callback_type: DatapackCallbackType,
    length: int,
) -> Seq<bool> {
    match callback_type {
        DatapackCallbackType::Overlay(event) => marks_after(before, event, length),
        _ => before,
    }
}

/// The selectors of the overlays after the input. Adding, removing or moving
/// an overlay leaves them as they are.
pub open spec fn overlay_formats_after(
    before: Seq<OverlayFormatState>,
    callback_type: DatapackCallbackType,
) -> Seq<OverlayFormatState> {
    match callback_type {
        DatapackCallbackType::Overlay(ListEvent::Edit(OverlayEditEvent::Format(event), index)) =>
            before.update(index as int, overlay_format_state_after(before[index as int], event)),
        _ => before,
    }
}

/// Applies an edit to a node.
fn apply_text_edit(text: &mut Text, event: TextEditEvent)
    ensures
        final(text)@ == edited_text(old(text)@, event),
{
    match event {
        TextEditEvent::Text(s) => {
            text.text = s;
        },
        TextEditEvent::Bold(b) => {
            text.is_bold = unset_as_false(b);
        },
        TextEditEvent::Italic(b) => {
            text.is_italic = unset_as_false(b);
        },
        TextEditEvent::Underlined(b) => {
            text.is_underlined = unset_as_false(b);
        },
        TextEditEvent::Strikethrough(b) => {
            text.is_strikethrough = unset_as_false(b);
        },
        TextEditEvent::Obfuscated(b) => {
            text.is_obfuscated = unset_as_false(b);
        },
    }
}

/// A flag that is not given counts as `false`.
fn unset_as_false(b: Option<bool>) -> (r: bool)
    ensures
        r == flag(b),
{
    match b {
        Some(b) => b,
        None => false,
    }
}

/// Applies an event to the pack's selector.
fn apply_format_event(state: &mut DatapackFormatState, event: FormatEvent)
    ensures
        *final(state) == format_state_after(*old(state), event),
{
    match event {
        FormatEvent::Type(e) => {
            handle_dropdown_event(e, &mut state.format_type);
        },
        FormatEvent::Format(index, e) => {
            if index == 0 {
                handle_dropdown_event(e, &mut state.root);
            } else if index == 1 {
                handle_dropdown_event(e, &mut state.min);
            } else {
                handle_dropdown_event(e, &mut state.max);
            }
        },
    }
}

/// Applies an event to an overlay's selector.
fn apply_overlay_format_event(state: &mut OverlayFormatState, event: FormatEvent)
    ensures
        *final(state) == overlay_format_state_after(*old(state), event),
{
    match event {
        FormatEvent::Type(e) => {
            handle_dropdown_event(e, &mut state.format_type);
        },
        FormatEvent::Format(index, e) => {
            if index == 0 {
                handle_dropdown_event(e, &mut state.min);
            } else {
                handle_dropdown_event(e, &mut state.max);
            }
        },
    }
}

/// Applies a list event to the text-type dropdowns of the description.
fn apply_to_text_types(types: &mut Vec<DropdownState<TextType>>, event: &ListEvent<TextEditEvent>)
    requires
        match *event {
            ListEvent::Add(index) => index <= old(types)@.len(),
            ListEvent::Remove(index) => index < old(types)@.len(),
            ListEvent::Move(MoveDirection::Up, index) => index > 0 ==> index < old(types)@.len(),
            ListEvent::Move(MoveDirection::Down, _) => old(types)@.len() > 0,
            _ => true,
        },
    ensures
        final(types)@ == text_types_after(
            old(types)@,
            DatapackCallbackType::Description(DescriptionEvent::Content(*event)),
        ),
{
    match event {
        ListEvent::Add(index) => {
            types.insert(*index, DropdownState::new(TextType::String));
        },
        ListEvent::Remove(index) => {
            types.remove(*index);
        },
        ListEvent::Move(direction, index) => {
            match direction {
                MoveDirection::Up => {
                    if *index > 0 {
                        swap_with_next(types, *index - 1);
                        assert(types@ =~= swapped(old(types)@, *index as int, *index - 1));
                    }
                },
                MoveDirection::Down => {
                    if *index < types.len() - 1 {
                        swap_with_next(types, *index);
                    }
                },
            }
        },
        _ => {},
    }
}

/// Applies an edit to the node at `index`.
fn edit_text_at(description: &mut Vec<Text>, index: usize, event: TextEditEvent)
    requires
        index < old(description)@.len(),
    ensures
        text_views(final(description)@) == text_views(old(description)@).update(
            index as int,
            edited_text(old(description)@[index as int]@, event),
        ),
{
    let mut text = description.remove(index);
    apply_text_edit(&mut text, event);
    description.insert(index, text);
    assert(text_views(description@) =~= text_views(old(description)@).update(
        index as int,
        edited_text(old(description)@[index as int]@, event),
    ));
}

/// Gives the overlay at `index` another name.
fn rename_overlay_at(overlays: &mut Vec<Overlay>, index: usize, name: String)
    requires
        index < old(overlays)@.len(),
    ensures
        editor_overlay_views(final(overlays)@) == editor_overlay_views(old(overlays)@).update(
            index as int,
            OverlayView { directory: name@, ..old(overlays)@[index as int]@ },
        ),
{
    let mut overlay = overlays.remove(index);
    overlay.name = name;
    overlays.insert(index, overlay);
    assert(editor_overlay_views(overlays@) =~= editor_overlay_views(old(overlays)@).update(
        index as int,
        OverlayView { directory: name@, ..old(overlays)@[index as int]@ },
    ));
}

/// Applies a format event to the selector of the overlay at `index`.
fn apply_to_overlay_formats(states: &mut Vec<OverlayFormatState>, index: usize, event: FormatEvent)
    requires
        index < old(states)@.len(),
    ensures
        final(states)@ == old(states)@.update(
            index as int,
            overlay_format_state_after(old(states)@[index as int], event),
        ),
{
    let mut state = states[index];
    apply_overlay_format_event(&mut state, event);
    states.set(index, state);
}

/// The nodes of a description follow its items through a list event.
proof fn lemma_description_follows(
    before: Seq<Text>,
    event: ListEvent<TextEditEvent>,
    after: Seq<Text>,
)
    requires
        items_after(before, event, after),
        list_event_fits(event, before.len() as int, before.len() as int),
        !(event is Edit),
    ensures
        description_after(
            text_views(before),
            DatapackCallbackType::Description(DescriptionEvent::Content(event)),
            text_views(after),
        ),
{
    let b = text_views(before);
    let a = text_views(after);
    match event {
        ListEvent::Add(index) => {
            assert(a =~= b.insert(index as int, crate::text::plain_text(Seq::empty())));
        },
        ListEvent::Remove(index) => {
            assert(a =~= b.remove(index as int));
        },
        ListEvent::Move(direction, index) => {
            assert(a =~= moved(b, direction, index as int, b.len() as int));
        },
        _ => {},
    }
}

/// The views of the overlays follow the overlays through a list event.
proof fn lemma_overlays_follow(
    before: Seq<Overlay>,
    event: ListEvent<OverlayEditEvent>,
    after: Seq<Overlay>,
)
    requires
        items_after(before, event, after),
        list_event_fits(event, before.len() as int, before.len() as int),
        !(event is Edit),
    ensures
        overlays_after(
            editor_overlay_views(before),
            DatapackCallbackType::Overlay(event),
            editor_overlay_views(after),
        ),
{
    let b = editor_overlay_views(before);
    let a = editor_overlay_views(after);
    match event {
        ListEvent::Add(index) => {
            assert(a =~= b.insert(
                index as int,
                OverlayView {
                    formats: crate::range::FormatRange {
                        min: DatapackFormat::Format18,
                        max: DatapackFormat::Format18,
                    },
                    directory: Seq::empty(),
                },
            ));
        },
        ListEvent::Remove(index) => {
            assert(a =~= b.remove(index as int));
        },
        ListEvent::Move(direction, index) => {
            assert(a =~= moved(b, direction, index as int, b.len() as int));
        },
        _ => {},
    }
}

/// Whether `after` and `r` are the datapack and the state that an input
/// makes of `before` and `state`: every part of both is what the input makes
/// of it, and what the input does not name stays.
pub open spec fn update_result(
    before: Datapack,
    callback_type: DatapackCallbackType,
    state: PackInfoState,
    after: Datapack,
    r: PackInfoState,
) -> bool {
    &&& after@.name == (match callback_type {
        DatapackCallbackType::DatapackName(name) => name@,
        _ => before@.name,
    })
    &&& after.min_format == before.min_format
    &&& after.max_format == before.max_format
    &&& after.root_format == before.root_format
    &&& description_after(before@.description, callback_type, after@.description)
    &&& overlays_after(before@.overlays, callback_type, after@.overlays)
    &&& r.description_state.collapsed_state@ == description_marks_after(
        state.description_state.collapsed_state@,
        callback_type,
        before.description@.len() as int,
    )
    &&& r.description_state.text_type_state@ == text_types_after(
        state.description_state.text_type_state@,
        callback_type,
    )
    &&& r.format_state == (match callback_type {
        DatapackCallbackType::Format(event) => format_state_after(state.format_state, event),
        _ => state.format_state,
    })
    &&& r.overlay_state.list_state@ == overlay_marks_after(
        state.overlay_state.list_state@,
        callback_type,
        before.overlays@.len() as int,
    )
    &&& r.overlay_state.overlay_format_states@ == overlay_formats_after(
        state.overlay_state.overlay_format_states@,
        callback_type,
    )
}

/// Applies an input of the manifest's editor to the datapack and to the
/// editor's state, and gives the new state.
///
/// A new name replaces the name. An event of the description's list changes
/// the nodes, their collapse marks and their text-type dropdowns together;
/// an edit changes the one node. A format event changes the pack's selector
/// only. An event of the overlays' list changes the overlays and their
/// collapse marks; an edit renames the one overlay, or changes its selector.
pub fn handle_datapack_update(
    datapack: &mut Datapack,
    callback_type: DatapackCallbackType,
    pack_info_state: PackInfoState,
) -> (r: PackInfoState)
    requires
        update_fits(*old(datapack), callback_type, pack_info_state),
    ensures
        update_result(*old(datapack), callback_type, pack_info_state, *final(datapack), r),
{
    let mut state = pack_info_state;
    match callback_type {
        DatapackCallbackType::DatapackName(name) => {
            datapack.name = name;
        },
        DatapackCallbackType::Description(event) => match event {
            DescriptionEvent::Content(list_event) => {
                let ghost before = datapack.description@;
                let list_event = handle_list_event(
                    list_event,
                    &mut datapack.description,
                    &mut state.description_state.collapsed_state,
                );
                apply_to_text_types(&mut state.description_state.text_type_state, &list_event);
                match list_event {
                    ListEvent::Edit(edit_event, index) => {
                        edit_text_at(&mut datapack.description, index, edit_event);
                    },
                    _ => {
                        proof {
                            lemma_description_follows(before, list_event, datapack.description@);
                        }
                    },
                }
            },
            DescriptionEvent::Type(index, type_event) => {
                let mut dropdown = state.description_state.text_type_state[index];
                handle_dropdown_event(type_event, &mut dropdown);
                state.description_state.text_type_state.set(index, dropdown);
            },
        },
        DatapackCallbackType::Format(format_event) => {
            apply_format_event(&mut state.format_state, format_event);
        },
        DatapackCallbackType::Overlay(list_event) => {
            let ghost before = datapack.overlays@;
            let list_event = handle_list_event(
                list_event,
                &mut datapack.overlays,
                &mut state.overlay_state.list_state,
            );
            match list_event {
                ListEvent::Edit(edit_event, index) => match edit_event {
                    OverlayEditEvent::Name(name) => {
                        rename_overlay_at(&mut datapack.overlays, index, name);
                    },
                    OverlayEditEvent::Format(format_event) => {
                        apply_to_overlay_formats(
                            &mut state.overlay_state.overlay_format_states,
                            index,
                            format_event,
                        );
                    },
                },
                _ => {
                    proof {
                        lemma_overlays_follow(before, list_event, datapack.overlays@);
                    }
                },
            }
        },
    }
    state
}

} // verus!
