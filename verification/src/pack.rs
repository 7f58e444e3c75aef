//! The datapack as the editor keeps it: its name, the nodes of its
//! description, its formats and its overlays.

use crate::datapack::SerializableDatapack;
use crate::error::DatapackError;
use crate::error::Fault;
use crate::format::DatapackFormat;
use crate::manifest::overlay_views;
use crate::manifest::DescriptionView;
use crate::manifest::ManifestView;
use crate::manifest::OverlayView;
use crate::manifest::PackDescription;
use crate::manifest::SerializableOverlayEntry;
use crate::manifest::SerializablePackInfo;
use crate::overlay::overlay_of_formats;
use crate::overlay::Overlay;
use crate::text::rich_nodes;
use crate::text::rich_text;
use crate::text::text_views;
use crate::text::RichText;
use crate::text::Text;
use vstd::prelude::*;

verus! {

/// A datapack as the editor keeps it.
#[derive(Debug, PartialEq, Eq)]
pub struct Datapack {
    pub name: String,
    pub description: Vec<Text>,
    /// The first format for which the pack has content, overlays included.
    pub min_format: DatapackFormat,
    /// The last format for which the pack has content, overlays included.
    pub max_format: DatapackFormat,
    /// The format of the root content.
    pub root_format: DatapackFormat,
    pub overlays: Vec<Overlay>,
}

/// A datapack as the editor keeps it, as a mathematical value.
pub struct DatapackView {
    pub name: Seq<char>,
    pub description: Seq<RichText>,
    pub min_format: DatapackFormat,
    pub max_format: DatapackFormat,
    pub root_format: DatapackFormat,
    pub overlays: Seq<OverlayView>,
}

/// The overlays that a list of [`Overlay`] stands for.
pub open spec fn editor_overlay_views(overlays: Seq<Overlay>) -> Seq<OverlayView> {
    Seq::new(overlays.len(), |i: int| overlays[i]@)
}

impl View for Datapack {
    type V = DatapackView;

    open spec fn view(&self) -> DatapackView {
        DatapackView {
            name: self.name@,
            description: text_views(self.description@),
            min_format: self.min_format,
            max_format: self.max_format,
            root_format: self.root_format,
            overlays: editor_overlay_views(self.overlays@),
        }
    }
}

/// The nodes of a description: the one node, or each node of the list; a
/// `Deserialize` fault where a node is rejected.
pub open spec fn description_nodes(description: DescriptionView) -> Result<Seq<RichText>, Fault> {
    match description {
        DescriptionView::Text(node) => match rich_text(node) {
            Some(node) => Ok(seq![node]),
            None => Err(Fault::Deserialize),
        },
        DescriptionView::Array(nodes) => match rich_nodes(nodes, 0) {
            Some(nodes) => Ok(nodes),
            None => Err(Fault::Deserialize),
        },
    }
}

/// The overlays of the declarations `entries[from..]`, in order, or the
/// fault of the first declaration whose range is not allowed.
pub open spec fn editor_overlays(entries: Seq<OverlayView>, from: int) -> Result<
    Seq<OverlayView>,
    Fault,
>
    decreases entries.len() - from,
{
    if from < 0 || from >= entries.len() {
        Ok(Seq::empty())
    } else {
        match overlay_of_formats(
            entries[from].directory,
            entries[from].formats.min,
            entries[from].formats.max,
        ) {
            Err(fault) => Err(fault),
            Ok(first) => match editor_overlays(entries, from + 1) {
                Err(fault) => Err(fault),
                Ok(rest) => Ok(seq![first] + rest),
            },
        }
    }
}

/// The datapack that the editor keeps for a name and a manifest: the
/// description first, then the overlays.
pub open spec fn datapack_of(name: Seq<char>, manifest: ManifestView) -> Result<DatapackView, Fault> {
    match description_nodes(manifest.description) {
        Err(fault) => Err(fault),
        Ok(description) => match (match manifest.overlays {
            Some(entries) => editor_overlays(entries, 0),
            None => Ok(Seq::empty()),
        }) {
            Err(fault) => Err(fault),
            Ok(overlays) => Ok(
                DatapackView {
                    name,
                    description,
                    min_format: manifest.formats().min,
                    max_format: manifest.formats().max,
                    root_format: manifest.pack_format,
                    overlays,
                },
            ),
        },
    }
}

/// `rest` with `front` before it.
pub open spec fn overlays_follow(front: Seq<OverlayView>, rest: Result<Seq<OverlayView>, Fault>)
    -> Result<Seq<OverlayView>, Fault> {
    match rest {
        Ok(rest) => Ok(front + rest),
        Err(fault) => Err(fault),
    }
}

impl Datapack {
    /// The nodes of a description.
    fn description_from(description: &PackDescription) -> (r: Result<Vec<Text>, DatapackError>)
        ensures
            match description_nodes(description@) {
                Ok(nodes) => r matches Ok(list) && text_views(list@) == nodes,
                Err(fault) => r matches Err(e) && e.describes(fault),
            },
    {
        match description {
            PackDescription::Text(node) => {
                let text = Text::from_serializable(node)?;
                let list = vec![text];
                assert(text_views(list@) =~= seq![text@]);
                Ok(list)
            },
            PackDescription::Array(nodes) => Text::from_nodes(nodes, 0),
        }
    }

    /// The overlays of a list of declarations.
    fn overlays_from(entries: &Vec<SerializableOverlayEntry>) -> (r: Result<
        Vec<Overlay>,
        DatapackError,
    >)
        ensures
            match editor_overlays(overlay_views(entries@), 0) {
                Ok(overlays) => r matches Ok(list) && editor_overlay_views(list@) == overlays,
                Err(fault) => r matches Err(e) && e.describes(fault),
            },
    {
        let ghost declared = overlay_views(entries@);
        let mut list: Vec<Overlay> = Vec::new();
        let mut i: usize = 0;
        assert(editor_overlay_views(list@) =~= Seq::empty());
        assert(overlays_follow(editor_overlay_views(list@), editor_overlays(declared, 0))
            == editor_overlays(declared, 0)) by {
            if let Ok(rest) = editor_overlays(declared, 0) {
                assert(Seq::<OverlayView>::empty() + rest =~= rest);
            }
        }
        while i < entries.len()
            invariant
                i <= entries.len(),
                declared == overlay_views(entries@),
                editor_overlays(declared, 0) == overlays_follow(
                    editor_overlay_views(list@),
                    editor_overlays(declared, i as int),
                ),
            decreases entries.len() - i,
        {
            let ghost before = editor_overlay_views(list@);
            assert(declared[i as int] == entries@[i as int]@);
            match Overlay::try_from(entries[i].duplicate()) {
                Ok(overlay) => {
                    list.push(overlay);
                    proof {
                        assert(editor_overlay_views(list@) =~= before.push(overlay@));
                        if let Ok(rest) = editor_overlays(declared, i + 1) {
                            assert(before + (seq![overlay@] + rest) =~= before.push(overlay@) + rest);
                        }
                    }
                },
                Err(e) => {
                    return Err(e);
                },
            }
            i += 1;
        }
        assert(editor_overlay_views(list@) + Seq::<OverlayView>::empty() =~= editor_overlay_views(
            list@,
        ));
        Ok(list)
    }

    /// The datapack that the editor keeps for a name and a manifest.
    pub fn from_pack_info(name: String, pack_info: &SerializablePackInfo) -> (r: Result<
        Datapack,
        DatapackError,
    >)
        ensures
            crate::error::agrees(r, datapack_of(name@, pack_info@)),
    {
        let description = Datapack::description_from(&pack_info.pack.description)?;
        let overlays = match &pack_info.overlays {
            Some(declared) => Datapack::overlays_from(&declared.entries)?,
            None => {
                let list: Vec<Overlay> = Vec::new();
                assert(editor_overlay_views(list@) =~= Seq::empty());
                list
            },
        };
        let formats = pack_info.supported_formats();
        Ok(
            Datapack {
                name,
                description,
                min_format: formats.min,
                max_format: formats.max,
                root_format: pack_info.pack_format(),
                overlays,
            },
        )
    }

    /// The datapack that the editor keeps for a datapack of an archive.
    pub fn try_from(serializable_datapack: SerializableDatapack) -> (r: Result<
        Datapack,
        DatapackError,
    >)
        ensures
            crate::error::agrees(
                r,
                datapack_of(serializable_datapack.name@, serializable_datapack.pack_info@),
            ),
    {
        Datapack::from_pack_info(serializable_datapack.name, &serializable_datapack.pack_info)
    }

    /// The name of the datapack.
    pub fn name(&self) -> (r: &String)
        ensures
            r@ == self@.name,
    {
        &self.name
    }

    /// Gives the datapack another name.
    pub fn set_name(&mut self, name: &str)
        ensures
            final(self)@ == (DatapackView { name: name@, ..old(self)@ }),
    {
        self.name = name.to_owned();
    }

    /// The nodes of the description.
    pub fn description(&self) -> (r: &Vec<Text>)
        ensures
            r == &self.description,
    {
        &self.description
    }

    /// The overlays.
    pub fn overlays(&self) -> (r: &Vec<Overlay>)
        ensures
            r == &self.overlays,
    {
        &self.overlays
    }

    /// The format of the root content.
    pub fn root_format(&self) -> (r: DatapackFormat)
        ensures
            r == self.root_format,
    {
        self.root_format
    }

    /// The first format for which the pack has content.
    pub fn min_format(&self) -> (r: DatapackFormat)
        ensures
            r == self.min_format,
    {
        self.min_format
    }

    /// The last format for which the pack has content.
    pub fn max_format(&self) -> (r: DatapackFormat)
        ensures
            r == self.max_format,
    {
        self.max_format
    }
}

/// The editor's datapack can be made of every manifest that keeps the rules.
pub proof fn lemma_valid_manifest_converts(name: Seq<char>, manifest: ManifestView)
    requires
        manifest.valid(),
    ensures
        datapack_of(name, manifest) is Ok,
{
    match manifest.description {
        DescriptionView::Text(node) => {},
        DescriptionView::Array(nodes) => {
            assert(rich_text(crate::text::RawText::List(nodes)) is Some);
            if nodes.len() == 1 {
                assert(rich_nodes(nodes, 1) == Some(Seq::<RichText>::empty()));
                assert(rich_nodes(nodes, 0) is Some);
            }
        },
    }
    if let Some(entries) = manifest.overlays {
        lemma_valid_overlays_convert(entries, 0);
    }
}

/// Declarations with allowed ranges all become overlays.
proof fn lemma_valid_overlays_convert(entries: Seq<OverlayView>, from: int)
    requires
        0 <= from,
        forall|i: int| 0 <= i < entries.len() ==> (#[trigger] entries[i]).formats.valid(),
    ensures
        editor_overlays(entries, from) is Ok,
    decreases entries.len() - from,
{
    if from < entries.len() {
        assert(entries[from].formats.valid());
        lemma_valid_overlays_convert(entries, from + 1);
    }
}

} // verus!
