//! The storage of one resource location: a value for the root content, and
//! one for each overlay that defines the location.

use crate::location::ResourceLocation;
use crate::manifest::OverlayView;
use crate::manifest::SerializableOverlayEntry;
use crate::table::Table;
use crate::table::TableKey;
use crate::text::location_option;
use vstd::prelude::*;

verus! {

impl TableKey for SerializableOverlayEntry {
    fn same_key(&self, other: &Self) -> (r: bool) {
        self.formats == other.formats && self.directory == other.directory
    }
}

impl TableKey for ResourceLocation {
    fn same_key(&self, other: &Self) -> (r: bool) {
        self.same(other)
    }
}

/// Where the content of an archive entry belongs: to the root, or to one
/// declared overlay.
#[derive(Debug, Clone, PartialEq, Eq)]
pub enum SerializableDataSource {
    Root,
    Overlay(SerializableOverlayEntry),
}

/// A data source, as a mathematical value.
pub enum SourceView {
    Root,
    Overlay(OverlayView),
}

impl View for SerializableDataSource {
    type V = SourceView;

    open spec fn view(&self) -> SourceView {
        match self {
            SerializableDataSource::Root => SourceView::Root,
            SerializableDataSource::Overlay(overlay) => SourceView::Overlay(overlay@),
        }
    }
}

impl SerializableDataSource {
    /// A copy of the data source.
    pub fn duplicate(&self) -> (r: SerializableDataSource)
        ensures
            r@ == self@,
    {
        match self {
            SerializableDataSource::Root => SerializableDataSource::Root,
            SerializableDataSource::Overlay(overlay) => SerializableDataSource::Overlay(
                overlay.duplicate(),
            ),
        }
    }
}

/// The values of one resource location: at most one for the root and at most
/// one for each overlay.
#[derive(Debug)]
pub struct SerializableDataHolder<T> {
    root_data: Option<T>,
    overlay_data: Table<SerializableOverlayEntry, T>,
    resource_location: Option<ResourceLocation>,
}

impl<T> SerializableDataHolder<T> {
    /// The value of the root slot.
    pub closed spec fn root(self) -> Option<T> {
        self.root_data
    }

    /// The values of the overlay slots, by their declarations.
    pub closed spec fn overlays(self) -> Map<OverlayView, T> {
        self.overlay_data.map()
    }

    /// The location that the holder is tagged with.
    pub closed spec fn location(self) -> Option<(Seq<char>, Seq<char>)> {
        location_option(self.resource_location)
    }

    /// The value of the slot that `source` selects.
    pub open spec fn slot(self, source: SourceView) -> Option<T> {
        match source {
            SourceView::Root => self.root(),
            SourceView::Overlay(overlay) => if self.overlays().contains_key(overlay) {
                Some(self.overlays()[overlay])
            } else {
                None
            },
        }
    }

    /// A holder without a location, with `data` in the slot that
    /// `data_source` selects and nothing in the others.
    pub fn anonymous(data_source: SerializableDataSource, data: T) -> (r: Box<Self>)
        ensures
            r.location() is None,
            r.slot(data_source@) == Some(data),
            forall|other: SourceView| other != data_source@ ==> r.slot(other) is None,
            data_source is Root ==> r.root() == Some(data) && r.overlays() == Map::<
                OverlayView,
                T,
            >::empty(),
            data_source matches SerializableDataSource::Overlay(overlay) ==> r.root() is None
                && r.overlays() == Map::<OverlayView, T>::empty().insert(overlay@, data),
    {
        match data_source {
            SerializableDataSource::Root => Box::new(
                SerializableDataHolder {
                    root_data: Some(data),
                    overlay_data: Table::new(),
                    resource_location: None,
                },
            ),
            SerializableDataSource::Overlay(overlay) => {
                let mut overlay_data: Table<SerializableOverlayEntry, T> = Table::new();
                overlay_data.insert(overlay, data);
                Box::new(
                    SerializableDataHolder { root_data: None, overlay_data, resource_location: None },
                )
            },
        }
    }

    /// A holder tagged with `resource_location`, with `data` in the slot that
    /// `data_source` selects and nothing in the others.
    pub fn named(resource_location: ResourceLocation, data_source: SerializableDataSource, data: T)
        -> (r: Box<Self>)
        ensures
            r.location() == Some(resource_location@),
            r.slot(data_source@) == Some(data),
            forall|other: SourceView| other != data_source@ ==> r.slot(other) is None,
            data_source is Root ==> r.root() == Some(data) && r.overlays() == Map::<
                OverlayView,
                T,
            >::empty(),
            data_source matches SerializableDataSource::Overlay(overlay) ==> r.root() is None
                && r.overlays() == Map::<OverlayView, T>::empty().insert(overlay@, data),
    {
        let holder = *SerializableDataHolder::anonymous(data_source, data);
        Box::new(
            SerializableDataHolder {
                root_data: holder.root_data,
                overlay_data: holder.overlay_data,
                resource_location: Some(resource_location),
            },
        )
    }

    /// Puts `data_element` in the slot that `data_source` selects, in place
    /// of what the slot held. The other slots and the location stay.
    pub fn add(&mut self, data_source: SerializableDataSource, data_element: Box<T>)
        ensures
            final(self).location() == old(self).location(),
            final(self).slot(data_source@) == Some(*data_element),
            forall|other: SourceView|
                other != data_source@ ==> final(self).slot(other) == old(self).slot(other),
            data_source is Root ==> final(self).root() == Some(*data_element) && final(self).overlays() == old(self).overlays(),
            data_source matches SerializableDataSource::Overlay(overlay) ==> final(self).root()
                == old(self).root() && final(self).overlays() == old(self).overlays().insert(
                overlay@,
                *data_element,
            ),
    {
        match data_source {
            SerializableDataSource::Root => {
                self.root_data = Some(*data_element);
            },
            SerializableDataSource::Overlay(overlay) => {
                self.overlay_data.insert(overlay, *data_element);
            },
        }
    }

    /// The value of the slot that `data_source` selects.
    pub fn get(&self, data_source: SerializableDataSource) -> (r: Option<&T>)
        ensures
            match r {
                Some(value) => self.slot(data_source@) == Some(*value),
                None => self.slot(data_source@) is None,
            },
    {
        match data_source {
            SerializableDataSource::Root => self.root_data.as_ref(),
            SerializableDataSource::Overlay(overlay) => self.overlay_data.get(&overlay),
        }
    }

    /// Empties the slot that `data_source` selects. The other slots and the
    /// location stay.
    pub fn remove(&mut self, data_source: SerializableDataSource)
        ensures
            final(self).location() == old(self).location(),
            final(self).slot(data_source@) is None,
            forall|other: SourceView|
                other != data_source@ ==> final(self).slot(other) == old(self).slot(other),
            data_source is Root ==> final(self).root() is None && final(self).overlays() == old(self).overlays(),
            data_source matches SerializableDataSource::Overlay(overlay) ==> final(self).root()
                == old(self).root() && final(self).overlays() == old(self).overlays().remove(
                overlay@,
            ),
    {
        match data_source {
            SerializableDataSource::Root => {
                self.root_data = None;
            },
            SerializableDataSource::Overlay(overlay) => {
                self.overlay_data.remove(&overlay);
            },
        }
    }

    /// The location that the holder is tagged with.
    pub fn resource_location(&self) -> (r: Option<&ResourceLocation>)
        ensures
            match r {
                Some(location) => self.location() == Some(location@),
                None => self.location() is None,
            },
    {
        self.resource_location.as_ref()
    }

    /// The number of overlay slots that hold a value.
    pub fn overlay_count(&self) -> (r: usize)
        ensures
            self.overlays().dom().finite(),
            r == self.overlays().dom().len(),
    {
        self.overlay_data.len()
    }
}

} // verus!
