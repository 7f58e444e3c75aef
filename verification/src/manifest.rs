//! The pack manifest: the declared formats, the description and the overlay
//! declarations, and the reading of them from the manifest's JSON.

use crate::error::DatapackError;
use crate::error::Fault;
use crate::format::DatapackFormat;
use crate::json::json_of_text;
use crate::json::json_views;
use crate::json::parse_json;
use crate::json::Json;
use crate::json::JsonValue;
use crate::range::range_of;
use crate::range::resolve_format;
use crate::range::format_from_json;
use crate::range::FormatRange;
use crate::strings::str_equal;
use crate::text::raw_nodes;
use crate::text::raw_text_of;
use crate::text::raw_texts_of;
use crate::text::rich_text;
use crate::text::RawText;
use crate::text::SerializableText;
use crate::text::Text;
use vstd::prelude::*;

verus! {

/// One overlay that a manifest declares: a directory, and the formats for
/// which its content replaces the root content.
#[derive(Debug, Clone, PartialEq, Eq, Hash)]
pub struct SerializableOverlayEntry {
    pub formats: FormatRange,
    pub directory: String,
}

/// An overlay declaration, as a mathematical value.
pub struct OverlayView {
    pub formats: FormatRange,
    pub directory: Seq<char>,
}

impl View for SerializableOverlayEntry {
    type V = OverlayView;

    open spec fn view(&self) -> OverlayView {
        OverlayView { formats: self.formats, directory: self.directory@ }
    }
}

impl SerializableOverlayEntry {
    /// A copy of the declaration.
    pub fn duplicate(&self) -> (r: SerializableOverlayEntry)
        ensures
            r@ == self@,
    {
        SerializableOverlayEntry { formats: self.formats, directory: self.directory.clone() }
    }
}

/// The overlay declarations of a manifest, in the order in which it lists
/// them.
#[derive(Debug, PartialEq, Eq)]
pub struct SerializablePackOverlays {
    pub entries: Vec<SerializableOverlayEntry>,
}

/// The declarations that a list of entries stands for.
pub open spec fn overlay_views(entries: Seq<SerializableOverlayEntry>) -> Seq<OverlayView> {
    Seq::new(entries.len(), |i: int| entries[i]@)
}

impl View for SerializablePackOverlays {
    type V = Seq<OverlayView>;

    open spec fn view(&self) -> Seq<OverlayView> {
        overlay_views(self.entries@)
    }
}

/// The description of a pack: one node, or a list of nodes.
#[derive(Debug, PartialEq, Eq)]
pub enum PackDescription {
    Text(SerializableText),
    Array(Vec<SerializableText>),
}

/// A description, as a mathematical value.
pub enum DescriptionView {
    Text(RawText),
    Array(Seq<RawText>),
}

impl View for PackDescription {
    type V = DescriptionView;

    open spec fn view(&self) -> DescriptionView {
        match self {
            PackDescription::Text(node) => DescriptionView::Text(node@),
            PackDescription::Array(nodes) => DescriptionView::Array(raw_nodes(nodes@)),
        }
    }
}

impl DescriptionView {
    /// The description as one node: a list stands for its first node,
    /// followed by the others.
    pub open spec fn node(self) -> RawText {
        match self {
            DescriptionView::Text(node) => node,
            DescriptionView::Array(nodes) => RawText::List(nodes),
        }
    }
}

/// The `pack` section of a manifest.
#[derive(Debug, PartialEq, Eq)]
pub struct SerializablePackData {
    pub pack_format: DatapackFormat,
    pub supported_formats: Option<FormatRange>,
    pub description: PackDescription,
}

/// A pack manifest.
#[derive(Debug, PartialEq, Eq)]
pub struct SerializablePackInfo {
    pub pack: SerializablePackData,
    pub overlays: Option<SerializablePackOverlays>,
}

/// A pack manifest, under its shorter name.
pub type PackInfo = SerializablePackInfo;

/// A pack manifest, as a mathematical value.
pub struct ManifestView {
    pub pack_format: DatapackFormat,
    pub supported_formats: Option<FormatRange>,
    pub description: DescriptionView,
    pub overlays: Option<Seq<OverlayView>>,
}

impl View for SerializablePackInfo {
    type V = ManifestView;

    open spec fn view(&self) -> ManifestView {
        ManifestView {
            pack_format: self.pack.pack_format,
            supported_formats: self.pack.supported_formats,
            description: self.pack.description@,
            overlays: match self.overlays {
                Some(overlays) => Some(overlays@),
                None => None,
            },
        }
    }
}

/// The first declaration among `entries[from..]` whose directory is `name`.
pub open spec fn find_overlay(entries: Seq<OverlayView>, name: Seq<char>, from: int) -> Option<
    OverlayView,
>
    decreases entries.len() - from,
{
    if from < 0 || from >= entries.len() {
        None
    } else if entries[from].directory == name {
        Some(entries[from])
    } else {
        find_overlay(entries, name, from + 1)
    }
}

/// What `find_overlay` finds is a declaration of the list, and it finds
/// nothing only where no declaration has the name.
pub proof fn lemma_find_overlay(entries: Seq<OverlayView>, name: Seq<char>, from: int)
    requires
        0 <= from,
    ensures
        match find_overlay(entries, name, from) {
            Some(found) => found.directory == name && exists|i: int|
                from <= i < entries.len() && entries[i] == found,
            None => forall|i: int| from <= i < entries.len() ==> entries[i].directory != name,
        },
    decreases entries.len() - from,
{
    if from < entries.len() {
        if entries[from].directory == name {
            assert(entries[from] == find_overlay(entries, name, from)->0);
        } else {
            lemma_find_overlay(entries, name, from + 1);
        }
    }
}

impl ManifestView {
    /// Whether the manifest keeps the rules: the supported formats and the
    /// formats of every overlay are allowed ranges, and the description is
    /// read as a node.
    pub open spec fn valid(self) -> bool {
        &&& self.supported_formats matches Some(range) ==> range.valid()
        &&& rich_text(self.description.node()) is Some
        &&& self.overlays matches Some(entries) ==> forall|i: int|
            0 <= i < entries.len() ==> (#[trigger] entries[i]).formats.valid()
    }

    /// The formats that the pack supports: the declared range, or the pack
    /// format alone.
    pub open spec fn formats(self) -> FormatRange {
        match self.supported_formats {
            Some(range) => range,
            None => FormatRange { min: self.pack_format, max: self.pack_format },
        }
    }

    /// The declaration of the overlay directory `name`, the first if several
    /// have that name.
    pub open spec fn overlay(self, name: Seq<char>) -> Option<OverlayView> {
        match self.overlays {
            Some(entries) => find_overlay(entries, name, 0),
            None => None,
        }
    }
}

impl SerializablePackOverlays {
    /// The declaration of the overlay directory `name`, the first if several
    /// have that name.
    pub fn get_overlay(&self, name: &str) -> (r: Option<SerializableOverlayEntry>)
        ensures
            match find_overlay(self@, name@, 0) {
                Some(found) => r matches Some(entry) && entry@ == found,
                None => r is None,
            },
    {
        let mut i: usize = 0;
        while i < self.entries.len()
            invariant
                i <= self.entries.len(),
                find_overlay(self@, name@, 0) == find_overlay(self@, name@, i as int),
            decreases self.entries.len() - i,
        {
            assert(self@[i as int] == self.entries@[i as int]@);
            if str_equal(self.entries[i].directory.as_str(), name) {
                return Some(
                    SerializableOverlayEntry {
                        formats: self.entries[i].formats,
                        directory: self.entries[i].directory.clone(),
                    },
                );
            }
            i += 1;
        }
        None
    }
}

impl SerializablePackInfo {
    /// The declaration of the overlay directory `name`, the first if several
    /// have that name.
    pub fn get_overlay(&self, name: &str) -> (r: Option<SerializableOverlayEntry>)
        ensures
            match self@.overlay(name@) {
                Some(found) => r matches Some(entry) && entry@ == found,
                None => r is None,
            },
    {
        match &self.overlays {
            Some(overlays) => overlays.get_overlay(name),
            None => None,
        }
    }

    /// The format that the pack declares for its root content.
    pub fn pack_format(&self) -> (r: DatapackFormat)
        ensures
            r == self@.pack_format,
    {
        self.pack.pack_format
    }

    /// The formats that the pack supports: the declared range, or the pack
    /// format alone.
    pub fn supported_formats(&self) -> (r: FormatRange)
        ensures
            r == self@.formats(),
    {
        match self.pack.supported_formats {
            Some(range) => range,
            None => FormatRange::single(self.pack.pack_format),
        }
    }
}

/// The overlay that a document declares: an object with the string
/// `directory` and the range `formats`. A `Deserialize` fault where a member
/// is missing or has the wrong shape, a `Format` fault where a bound is no
/// known code, and an `Overlay` fault that names the directory where the
/// range is not allowed.
pub open spec fn overlay_of(j: Json) -> Result<OverlayView, Fault> {
    match (j.member("directory"@), j.member("formats"@)) {
        (Some(Json::String(directory)), Some(formats)) => match range_of(formats) {
            Err(fault) => Err(fault),
            Ok(range) => if range.valid() {
                Ok(OverlayView { formats: range, directory })
            } else {
                Err(Fault::Overlay(directory))
            },
        },
        _ => Err(Fault::Deserialize),
    }
}

/// The overlays that `entries[from..]` declare, in order, or the fault of the
/// first entry that has one.
pub open spec fn overlays_of(entries: Seq<Json>, from: int) -> Result<Seq<OverlayView>, Fault>
    decreases entries.len() - from,
{
    if from < 0 || from >= entries.len() {
        Ok(Seq::empty())
    } else {
        match overlay_of(entries[from]) {
            Err(fault) => Err(fault),
            Ok(first) => match overlays_of(entries, from + 1) {
                Err(fault) => Err(fault),
                Ok(rest) => Ok(seq![first] + rest),
            },
        }
    }
}

/// The overlays that a manifest declares in `overlays.entries`; none where
/// the section is absent or `null`.
pub open spec fn declared_overlays(j: Json) -> Result<Option<Seq<OverlayView>>, Fault> {
    match j.member("overlays"@) {
        None => Ok(None),
        Some(Json::Null) => Ok(None),
        Some(section) => match section.member("entries"@) {
            Some(Json::Array(entries)) => match overlays_of(entries, 0) {
                Ok(list) => Ok(Some(list)),
                Err(fault) => Err(fault),
            },
            _ => Err(Fault::Deserialize),
        },
    }
}

/// The description that a document writes: a list of nodes for an array,
/// else one node. A `Deserialize` fault where the document denotes no node,
/// or a node that is rejected (an empty list, a text object without `text`
/// and `translate`, an unknown colour).
pub open spec fn description_of(j: Json) -> Result<DescriptionView, Fault> {
    let written = match j {
        Json::Array(items) => match raw_texts_of(items, 0) {
            Some(nodes) => Some(DescriptionView::Array(nodes)),
            None => None,
        },
        _ => match raw_text_of(j) {
            Some(node) => Some(DescriptionView::Text(node)),
            None => None,
        },
    };
    match written {
        Some(description) => if rich_text(description.node()) is Some {
            Ok(description)
        } else {
            Err(Fault::Deserialize)
        },
        None => Err(Fault::Deserialize),
    }
}

/// The supported formats that a `pack` section declares; none where the
/// member is absent or `null`. A range that is not allowed is a
/// `Deserialize` fault.
pub open spec fn supported_formats_of(pack: Json) -> Result<Option<FormatRange>, Fault> {
    match pack.member("supported_formats"@) {
        None => Ok(None),
        Some(Json::Null) => Ok(None),
        Some(written) => match range_of(written) {
            Err(fault) => Err(fault),
            Ok(range) => if range.valid() {
                Ok(Some(range))
            } else {
                Err(Fault::Deserialize)
            },
        },
    }
}

/// The manifest that a document writes, or the first fault found, in this
/// order: the pack format, the supported formats, the description, the
/// overlays in their order.
pub open spec fn manifest_of(j: Json) -> Result<ManifestView, Fault> {
    match j.member("pack"@) {
        None => Err(Fault::Deserialize),
        Some(pack) => match pack.member("pack_format"@) {
            None => Err(Fault::Deserialize),
            Some(code) => match code.integer() {
                None => Err(Fault::Deserialize),
                Some(n) => match resolve_format(n) {
                    Err(fault) => Err(fault),
                    Ok(pack_format) => match supported_formats_of(pack) {
                        Err(fault) => Err(fault),
                        Ok(supported_formats) => match pack.member("description"@) {
                            None => Err(Fault::Deserialize),
                            Some(written) => match description_of(written) {
                                Err(fault) => Err(fault),
                                Ok(description) => match declared_overlays(j) {
                                    Err(fault) => Err(fault),
                                    Ok(overlays) => Ok(
                                        ManifestView {
                                            pack_format,
                                            supported_formats,
                                            description,
                                            overlays,
                                        },
                                    ),
                                },
                            },
                        },
                    },
                },
            },
        },
    }
}

/// The manifest that a text writes: a `Deserialize` fault where the text is
/// no JSON document, else what the document writes.
pub open spec fn manifest_of_text(text: Seq<char>) -> Result<ManifestView, Fault> {
    match json_of_text(text) {
        None => Err(Fault::Deserialize),
        Some(document) => manifest_of(document),
    }
}

/// `rest` with `front` before it.
pub open spec fn overlays_after(front: Seq<OverlayView>, rest: Result<Seq<OverlayView>, Fault>) -> Result<
    Seq<OverlayView>,
    Fault,
> {
    match rest {
        Ok(rest) => Ok(front + rest),
        Err(fault) => Err(fault),
    }
}

impl SerializableOverlayEntry {
    /// Reads one overlay declaration.
    pub fn from_json(j: &JsonValue) -> (r: Result<SerializableOverlayEntry, DatapackError>)
        ensures
            crate::error::agrees(r, overlay_of(j@)),
    {
        let directory = match j.get("directory") {
            Some(JsonValue::String(s)) => s.clone(),
            _ => {
                return Err(DatapackError::Deserialize("directory".to_owned()));
            },
        };
        let formats = match j.get("formats") {
            Some(written) => FormatRange::from_json(written)?,
            None => {
                return Err(DatapackError::Deserialize("formats".to_owned()));
            },
        };
        if formats.is_valid() {
            Ok(SerializableOverlayEntry { formats, directory })
        } else {
            Err(DatapackError::Overlay(directory))
        }
    }
}

impl SerializablePackOverlays {
    /// Reads the overlay declarations of an `entries` array, in order.
    pub fn from_json(entries: &Vec<JsonValue>) -> (r: Result<SerializablePackOverlays, DatapackError>)
        ensures
            crate::error::agrees(r, overlays_of(json_views(entries@), 0)),
    {
        let ghost docs = json_views(entries@);
        let mut list: Vec<SerializableOverlayEntry> = Vec::new();
        let mut i: usize = 0;
        assert(overlay_views(list@) =~= Seq::empty());
        assert(overlays_after(overlay_views(list@), overlays_of(docs, 0)) =~= overlays_of(docs, 0)) by {
            if let Ok(rest) = overlays_of(docs, 0) {
                assert(Seq::<OverlayView>::empty() + rest =~= rest);
            }
        }
        while i < entries.len()
            invariant
                i <= entries.len(),
                docs == json_views(entries@),
                overlays_of(docs, 0) == overlays_after(
                    overlay_views(list@),
                    overlays_of(docs, i as int),
                ),
            decreases entries.len() - i,
        {
            let ghost before = overlay_views(list@);
            assert(docs[i as int] == entries@[i as int]@);
            match SerializableOverlayEntry::from_json(&entries[i]) {
                Ok(entry) => {
                    list.push(entry);
                    proof {
                        assert(overlay_views(list@) =~= before.push(entry@));
                        if let Ok(rest) = overlays_of(docs, i + 1) {
                            assert(before + (seq![entry@] + rest) =~= before.push(entry@) + rest);
                        }
                    }
                },
                Err(e) => {
                    return Err(e);
                },
            }
            i += 1;
        }
        assert(overlay_views(list@) + Seq::<OverlayView>::empty() =~= overlay_views(list@));
        Ok(SerializablePackOverlays { entries: list })
    }
}

impl PackDescription {
    /// Reads a description, and checks that it is read as a node.
    pub fn from_json(j: &JsonValue) -> (r: Result<PackDescription, DatapackError>)
        ensures
            crate::error::agrees(r, description_of(j@)),
    {
        match j {
            JsonValue::Array(items) => {
                assert(j@->Array_0 =~= json_views(items@));
                let nodes = SerializableText::nodes_from_json(items)?;
                match Text::from_list(&nodes) {
                    Ok(_) => Ok(PackDescription::Array(nodes)),
                    Err(e) => Err(e),
                }
            },
            _ => {
                let node = SerializableText::from_json(j)?;
                match Text::from_serializable(&node) {
                    Ok(_) => Ok(PackDescription::Text(node)),
                    Err(e) => Err(e),
                }
            },
        }
    }

    /// The description as one node: a list stands for its first node,
    /// followed by the others.
    pub fn to_text(&self) -> (r: Result<Text, DatapackError>)
        ensures
            match rich_text(self@.node()) {
                Some(node) => r matches Ok(x) && x@ == node,
                None => r matches Err(e) && e.describes(Fault::Deserialize),
            },
    {
        match self {
            PackDescription::Text(node) => Text::from_serializable(node),
            PackDescription::Array(nodes) => Text::from_list(nodes),
        }
    }
}

impl SerializablePackInfo {
    /// Reads the supported formats of a `pack` section.
    fn supported_formats_from_json(pack: &JsonValue) -> (r: Result<
        Option<FormatRange>,
        DatapackError,
    >)
        ensures
            match supported_formats_of(pack@) {
                Ok(range) => r == Ok::<_, DatapackError>(range),
                Err(fault) => r matches Err(e) && e.describes(fault),
            },
    {
        match pack.get("supported_formats") {
            None => Ok(None),
            Some(written) => {
                if written.is_null() {
                    return Ok(None);
                }
                let range = FormatRange::from_json(written)?;
                if range.is_valid() {
                    Ok(Some(range))
                } else {
                    Err(DatapackError::Deserialize("supported_formats".to_owned()))
                }
            },
        }
    }

    /// Reads the overlay declarations of a manifest.
    fn overlays_from_json(j: &JsonValue) -> (r: Result<
        Option<SerializablePackOverlays>,
        DatapackError,
    >)
        ensures
            match declared_overlays(j@) {
                Ok(Some(list)) => r matches Ok(Some(x)) && x@ == list,
                Ok(None) => r matches Ok(None),
                Err(fault) => r matches Err(e) && e.describes(fault),
            },
    {
        match j.get("overlays") {
            None => Ok(None),
            Some(section) => {
                if section.is_null() {
                    return Ok(None);
                }
                match section.get("entries") {
                    Some(JsonValue::Array(entries)) => {
                        assert(section@.member("entries"@)->0->Array_0 =~= json_views(entries@));
                        let list = SerializablePackOverlays::from_json(entries)?;
                        Ok(Some(list))
                    },
                    _ => Err(DatapackError::Deserialize("overlays".to_owned())),
                }
            },
        }
    }

    /// Reads a manifest from its JSON document.
    pub fn from_json(j: &JsonValue) -> (r: Result<SerializablePackInfo, DatapackError>)
        ensures
            crate::error::agrees(r, manifest_of(j@)),
    {
        let pack = match j.get("pack") {
            Some(pack) => pack,
            None => {
                return Err(DatapackError::Deserialize("pack".to_owned()));
            },
        };
        let pack_format = match pack.get("pack_format") {
            Some(code) => format_from_json(code)?,
            None => {
                return Err(DatapackError::Deserialize("pack_format".to_owned()));
            },
        };
        let supported_formats = SerializablePackInfo::supported_formats_from_json(pack)?;
        let description = match pack.get("description") {
            Some(written) => PackDescription::from_json(written)?,
            None => {
                return Err(DatapackError::Deserialize("description".to_owned()));
            },
        };
        let overlays = SerializablePackInfo::overlays_from_json(j)?;
        Ok(
            SerializablePackInfo {
                pack: SerializablePackData { pack_format, supported_formats, description },
                overlays,
            },
        )
    }

    /// Reads a manifest from its text.
    pub fn parse(text: &str) -> (r: Result<SerializablePackInfo, DatapackError>)
        ensures
            crate::error::agrees(r, manifest_of_text(text@)),
    {
        let document = parse_json(text)?;
        SerializablePackInfo::from_json(&document)
    }
}

/// A manifest that was read keeps the rules.
pub proof fn lemma_manifest_valid(j: Json)
    requires
        manifest_of(j) is Ok,
    ensures
        manifest_of(j)->Ok_0.valid(),
{
    let m = manifest_of(j)->Ok_0;
    if let Some(entries) = m.overlays {
        let written = j.member("overlays"@)->0.member("entries"@)->0->Array_0;
        lemma_overlays_valid(written, 0);
    }
}

/// The overlays that were read have allowed ranges.
proof fn lemma_overlays_valid(entries: Seq<Json>, from: int)
    requires
        0 <= from,
        overlays_of(entries, from) is Ok,
    ensures
        forall|i: int|
            0 <= i < overlays_of(entries, from)->Ok_0.len() ==> (#[trigger] overlays_of(
                entries,
                from,
            )->Ok_0[i]).formats.valid(),
    decreases entries.len() - from,
{
    if from < entries.len() {
        lemma_overlays_valid(entries, from + 1);
    }
}

} // verus!
