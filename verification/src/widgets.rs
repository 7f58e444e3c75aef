//! The state of the editor's lists and dropdowns, and what an event does to
//! it.

use crate::pack_info::DatapackCallbackType;
use vstd::prelude::*;

verus! {

/// The part of the editor that an input is for.
#[derive(Debug, Clone)]
pub enum WidgetCallbackChannel {
    PackInfo(DatapackCallbackType),
}

/// A type whose values a dropdown offers.
pub trait DropdownOption: Copy + Sized {
    /// Every value that the dropdown offers, in the order in which it lists
    /// them.
    fn variants() -> Vec<Self>;
}

/// What a user did to a dropdown.
#[derive(Debug, Clone, Copy)]
pub enum DropdownEvent<T: DropdownOption> {
    Select(T),
    Expand,
    Dismiss,
}

/// A dropdown: the value that is selected, and whether the list is open.
#[derive(Debug, Clone, Copy)]
pub struct DropdownState<T: DropdownOption> {
    pub selected: T,
    pub expanded: bool,
}

impl<T: DropdownOption> DropdownState<T> {
    /// A closed dropdown with the given value selected.
    pub fn new(t: T) -> (r: Self)
        ensures
            r.selected == t,
            !r.expanded,
    {
        Self { selected: t, expanded: false }
    }
}

/// The dropdown after an event: a selection takes the value and closes the
/// list, a dismissal closes it, and `Expand` opens a closed list and closes
/// an open one.
pub open spec fn dropdown_after<T: DropdownOption>(
    state: DropdownState<T>,
    event: DropdownEvent<T>,
) -> DropdownState<T> {
    match event {
        DropdownEvent::Select(t) => DropdownState { selected: t, expanded: false },
        DropdownEvent::Dismiss => DropdownState { selected: state.selected, expanded: false },
        DropdownEvent::Expand => DropdownState {
            selected: state.selected,
            expanded: !state.expanded,
        },
    }
}

/// Applies an event to a dropdown.
pub fn handle_dropdown_event<T: DropdownOption>(
    dropdown_event: DropdownEvent<T>,
    state: &mut DropdownState<T>,
)
    ensures
        *final(state) == dropdown_after(*old(state), dropdown_event),
{
    match dropdown_event {
        DropdownEvent::Select(t) => {
            state.selected = t;
            state.expanded = false;
        },
        DropdownEvent::Dismiss => {
            state.expanded = false;
        },
        DropdownEvent::Expand => {
            state.expanded = !state.expanded;
        },
    }
}

/// The direction in which an item of a list is moved.
#[derive(Debug, Clone, Copy, PartialEq, Eq, Structural)]
pub enum MoveDirection {
    Up,
    Down,
}

/// What a user did to a list: added an item at an index, removed the item
/// at an index, moved it, collapsed or opened it, or edited it.
#[derive(Debug, Clone)]
pub enum ListEvent<T> {
    Add(usize),
    Remove(usize),
    Move(MoveDirection, usize),
    Collapse(usize, bool),
    Edit(T, usize),
}

/// `s` with the items at `i` and `j` exchanged.
pub open spec fn swapped<T>(s: Seq<T>, i: int, j: int) -> Seq<T> {
    s.update(i, s[j]).update(j, s[i])
}

/// The items of a list after a move: an item that is moved up changes
/// places with the one before it, unless it is the first; one that is moved
/// down, with the one after it, unless it is the last or beyond.
pub open spec fn moved<T>(s: Seq<T>, direction: MoveDirection, index: int, length: int) -> Seq<T> {
    match direction {
        MoveDirection::Up => if index > 0 {
            swapped(s, index, index - 1)
        } else {
            s
        },
        MoveDirection::Down => if index < length - 1 {
            swapped(s, index, index + 1)
        } else {
            s
        },
    }
}

/// Exchanges the items at `i` and `i + 1`.
pub fn swap_with_next<T>(items: &mut Vec<T>, i: usize)
    requires
        i + 1 < old(items).len(),
    ensures
        final(items)@ == swapped(old(items)@, i as int, i + 1),
{
    let item = items.remove(i);
    items.insert(i + 1, item);
    assert(items@ =~= swapped(old(items)@, i as int, i + 1));
}

/// Which items of a list are collapsed.
#[derive(Debug, Clone, PartialEq, Eq)]
pub struct ListState {
    collapsed: Vec<bool>,
}

impl View for ListState {
    type V = Seq<bool>;

    closed spec fn view(&self) -> Seq<bool> {
        self.collapsed@
    }
}

impl ListState {
    /// The state of a list of `count` items, none collapsed.
    pub fn new(count: usize) -> (r: Self)
        ensures
            r@ == Seq::new(count as nat, |i: int| false),
    {
        let mut collapsed: Vec<bool> = Vec::new();
        let mut i: usize = 0;
        while i < count
            invariant
                i <= count,
                collapsed@ == Seq::new(i as nat, |k: int| false),
            decreases count - i,
        {
            collapsed.push(false);
            i += 1;
            assert(collapsed@ =~= Seq::new(i as nat, |k: int| false));
        }
        Self { collapsed }
    }

    /// The number of items that the state covers.
    pub fn len(&self) -> (r: usize)
        ensures
            r == self@.len(),
    {
        self.collapsed.len()
    }

    /// Exchanges the marks of the items at `i` and `j`.
    pub fn swap(&mut self, i: usize, j: usize)
        requires
            i < old(self)@.len(),
            j < old(self)@.len(),
        ensures
            final(self)@ == swapped(old(self)@, i as int, j as int),
    {
        let a = self.collapsed[i];
        let b = self.collapsed[j];
        self.collapsed.set(i, b);
        self.collapsed.set(j, a);
        assert(self@ =~= swapped(old(self)@, i as int, j as int));
    }

    /// Whether the item at `index` is collapsed; an item that the state does
    /// not cover is not.
    pub fn is_node_collapsed(&self, index: usize) -> (r: bool)
        ensures
            r == (index < self@.len() && self@[index as int]),
    {
        if index < self.collapsed.len() {
            self.collapsed[index]
        } else {
            false
        }
    }

    /// Marks the item at `index` as collapsed or open; nothing changes for
    /// an item that the state does not cover.
    pub fn set_collapsed(&mut self, index: usize, collapsed: bool)
        ensures
            final(self)@ == (if index < old(self)@.len() {
                old(self)@.update(index as int, collapsed)
            } else {
                old(self)@
            }),
    {
        if index < self.collapsed.len() {
            self.collapsed.set(index, collapsed);
        }
    }

    /// Makes room at `index` for a new item, which is not collapsed.
    pub fn add(&mut self, index: usize)
        requires
            index <= old(self)@.len(),
        ensures
            final(self)@ == old(self)@.insert(index as int, false),
    {
        self.collapsed.insert(index, false);
    }

    /// Drops the mark of the item at `index`.
    pub fn remove(&mut self, index: usize)
        requires
            index < old(self)@.len(),
        ensures
            final(self)@ == old(self)@.remove(index as int),
    {
        self.collapsed.remove(index);
    }
}

/// Whether a list of `length` items, whose state covers `marks` items, can
/// take the event: the indices that the event names are there.
pub open spec fn list_event_fits<E>(event: ListEvent<E>, length: int, marks: int) -> bool {
    match event {
        ListEvent::Add(index) => index <= length && index <= marks,
        ListEvent::Remove(index) => index < length && index < marks,
        ListEvent::Move(MoveDirection::Up, index) => index > 0 ==> index < length && index < marks,
        ListEvent::Move(MoveDirection::Down, index) => length > 0 && (index < length - 1 ==> index
            + 1 < marks),
        ListEvent::Collapse(_, _) => true,
        ListEvent::Edit(_, _) => true,
    }
}

/// Whether a list of `length` items, whose state covers `marks` items, can
/// take the event.
pub fn list_event_applies<E>(event: &ListEvent<E>, length: usize, marks: usize) -> (r: bool)
    ensures
        r == list_event_fits(*event, length as int, marks as int),
{
    match event {
        ListEvent::Add(index) => *index <= length && *index <= marks,
        ListEvent::Remove(index) => *index < length && *index < marks,
        ListEvent::Move(MoveDirection::Up, index) => *index == 0 || (*index < length && *index
            < marks),
        ListEvent::Move(MoveDirection::Down, index) => length > 0 && (*index >= length - 1 || (
        marks > 0 && *index < marks - 1)),
        ListEvent::Collapse(_, _) => true,
        ListEvent::Edit(_, _) => true,
    }
}

/// The marks of a list after an event.
pub open spec fn marks_after<E>(marks: Seq<bool>, event: ListEvent<E>, length: int) -> Seq<bool> {
    match event {
        ListEvent::Add(index) => marks.insert(index as int, false),
        ListEvent::Remove(index) => marks.remove(index as int),
        ListEvent::Move(direction, index) => moved(marks, direction, index as int, length),
        ListEvent::Collapse(index, collapsed) => if index < marks.len() {
            marks.update(index as int, collapsed)
        } else {
            marks
        },
        ListEvent::Edit(_, _) => marks,
    }
}

/// Whether `after` is what the items `before` become by an event: an added
/// item is a default value at its index, and nothing else changes but what
/// the event names.
pub open spec fn items_after<T: Default, E>(before: Seq<T>, event: ListEvent<E>, after: Seq<T>)
    -> bool {
    match event {
        ListEvent::Add(index) => after.len() == before.len() + 1 && call_ensures(
            T::default,
            (),
            after[index as int],
        ) && after == before.insert(index as int, after[index as int]),
        ListEvent::Remove(index) => after == before.remove(index as int),
        ListEvent::Move(direction, index) => after == moved(
            before,
            direction,
            index as int,
            before.len() as int,
        ),
        ListEvent::Collapse(_, _) => after == before,
        ListEvent::Edit(_, _) => after == before,
    }
}

/// Applies an event to a list and to its state, and hands the event back.
/// An edit changes nothing here: the caller applies it to the item.
pub fn handle_list_event<T: Default, Event>(
    list_event: ListEvent<Event>,
    data: &mut Vec<T>,
    state: &mut ListState,
) -> (r: ListEvent<Event>)
    requires
        list_event_fits(list_event, old(data)@.len() as int, old(state)@.len() as int),
    ensures
        r == list_event,
        items_after(old(data)@, list_event, final(data)@),
        final(state)@ == marks_after(old(state)@, list_event, old(data)@.len() as int),
{
    match &list_event {
        ListEvent::Add(index) => {
            let item = T::default();
            data.insert(*index, item);
            state.add(*index);
        },
        ListEvent::Remove(index) => {
            data.remove(*index);
            state.remove(*index);
        },
        ListEvent::Move(direction, index) => {
            match direction {
                MoveDirection::Up => {
                    if *index > 0 {
                        swap_with_next(data, *index - 1);
                        state.swap(*index, *index - 1);
                        assert(data@ =~= swapped(old(data)@, *index as int, *index - 1));
                    }
                },
                MoveDirection::Down => {
                    if *index < data.len() - 1 {
                        swap_with_next(data, *index);
                        state.swap(*index, *index + 1);
                        assert(data@ =~= swapped(old(data)@, *index as int, *index + 1));
                    }
                },
            }
        },
        ListEvent::Collapse(index, is_collapsed) => {
            state.set_collapsed(*index, *is_collapsed);
        },
        ListEvent::Edit(_, _) => {},
    }
    list_event
}

} // verus!
