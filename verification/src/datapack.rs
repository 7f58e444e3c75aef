//! The datapack: its manifest and, for each resource location, the biomes
//! that the root and the overlays define. An archive is scanned entry by
//! entry: each path is classified, and the file of a biome is read under the
//! pack format and stored in the slot that its data source selects.

use crate::biome::biome_of_text;
use crate::biome::BiomeElement;
use crate::biome::BiomeView;
use crate::error::DatapackError;
use crate::error::Fault;
use crate::holder::SerializableDataHolder;
use crate::holder::SerializableDataSource;
use crate::holder::SourceView;
use crate::location::is_name;
use crate::location::ResourceLocation;
use crate::manifest::manifest_of_text;
use crate::manifest::ManifestView;
use crate::manifest::SerializablePackInfo;
use crate::path::biome_id;
use crate::path::biome_id_of;
use crate::path::content_path;
use crate::path::content_path_of;
use crate::path::is_under_data;
use crate::path::namespace_of;
use crate::path::namespace_segment;
use crate::path::overlay_directory;
use crate::path::overlay_directory_of;
use crate::path::under_data;
use crate::table::Table;
use vstd::prelude::*;

verus! {

/// The slot of a datapack that a biome is stored in: a resource location and
/// a data source.
pub type Slot = ((Seq<char>, Seq<char>), SourceView);

/// The data source of a path: the overlay whose directory the path lies in,
/// which the manifest must declare, or the root where the path lies in no
/// overlay directory.
pub open spec fn data_source_of(manifest: ManifestView, path: Seq<char>) -> Result<SourceView, Fault> {
    match overlay_directory(path) {
        None => Ok(SourceView::Root),
        Some(directory) => match manifest.overlay(directory) {
            Some(overlay) => Ok(SourceView::Overlay(overlay)),
            None => Err(Fault::Overlay(directory)),
        },
    }
}

/// The resource location of the biome whose file a path names, once the
/// overlay directory is taken off. `Ok(None)` for a path that is not under
/// `data/`, or that names no biome file; a `Namespace` fault that carries the
/// path where it is under `data/` and its namespace is not allowed.
pub open spec fn biome_location_of(path: Seq<char>) -> Result<Option<(Seq<char>, Seq<char>)>, Fault> {
    let content = content_path(path);
    if !under_data(content) {
        Ok(None)
    } else if !is_name(namespace_segment(content)) {
        Err(Fault::Namespace(path))
    } else {
        match biome_id(content) {
            Some(id) => Ok(Some((namespace_segment(content), id))),
            None => Ok(None),
        }
    }
}

/// What a path asks for: nothing, or the reading of a biome into a slot. The
/// data source is settled first, then the namespace.
pub open spec fn entry_target(manifest: ManifestView, path: Seq<char>) -> Result<Option<Slot>, Fault> {
    match data_source_of(manifest, path) {
        Err(fault) => Err(fault),
        Ok(source) => match biome_location_of(path) {
            Err(fault) => Err(fault),
            Ok(None) => Ok(None),
            Ok(Some(location)) => Ok(Some((location, source))),
        },
    }
}

/// The biomes of a datapack after one more entry: the entry is skipped, or
/// its biome replaces what its slot held.
pub open spec fn after_entry(
    manifest: ManifestView,
    stored: Map<Slot, BiomeView>,
    path: Seq<char>,
    text: Seq<char>,
) -> Result<Map<Slot, BiomeView>, Fault> {
    match entry_target(manifest, path) {
        Err(fault) => Err(fault),
        Ok(None) => Ok(stored),
        Ok(Some(slot)) => match biome_of_text(manifest.pack_format, text) {
            None => Err(Fault::Deserialize),
            Some(data) => Ok(stored.insert(slot, BiomeView { name: slot.0, data })),
        },
    }
}

/// The biomes of a datapack after the entries `entries[from..]`, each a path
/// and the text of its file, or the fault of the first entry that has one.
pub open spec fn after_entries(
    manifest: ManifestView,
    stored: Map<Slot, BiomeView>,
    entries: Seq<(Seq<char>, Seq<char>)>,
    from: int,
) -> Result<Map<Slot, BiomeView>, Fault>
    decreases entries.len() - from,
{
    if from < 0 || from >= entries.len() {
        Ok(stored)
    } else {
        match after_entry(manifest, stored, entries[from].0, entries[from].1) {
            Err(fault) => Err(fault),
            Ok(next) => after_entries(manifest, next, entries, from + 1),
        }
    }
}

/// The biomes of the archive with the given manifest text and entries, or
/// the first fault: that of the manifest, else that of the first entry that
/// has one.
pub open spec fn scan(manifest_text: Seq<char>, entries: Seq<(Seq<char>, Seq<char>)>) -> Result<
    (ManifestView, Map<Slot, BiomeView>),
    Fault,
> {
    match manifest_of_text(manifest_text) {
        Err(fault) => Err(fault),
        Ok(manifest) => match after_entries(manifest, Map::empty(), entries, 0) {
            Err(fault) => Err(fault),
            Ok(stored) => Ok((manifest, stored)),
        },
    }
}

/// The text `pack.mcmeta`, the path of the manifest.
pub open spec fn manifest_path() -> Seq<char> {
    seq!['p', 'a', 'c', 'k', '.', 'm', 'c', 'm', 'e', 't', 'a']
}

/// The text of the first of `entries[from..]` whose path is that of the
/// manifest.
pub open spec fn find_manifest(entries: Seq<(Seq<char>, Seq<char>)>, from: int) -> Option<Seq<char>>
    decreases entries.len() - from,
{
    if from < 0 || from >= entries.len() {
        None
    } else if entries[from].0 == manifest_path() {
        Some(entries[from].1)
    } else {
        find_manifest(entries, from + 1)
    }
}

/// The biomes of an archive whose manifest is one of its entries: a `File`
/// fault where no entry at the root is the manifest, else the scan with the
/// manifest's text.
pub open spec fn scan_archive(entries: Seq<(Seq<char>, Seq<char>)>) -> Result<
    (ManifestView, Map<Slot, BiomeView>),
    Fault,
> {
    match find_manifest(entries, 0) {
        None => Err(Fault::File),
        Some(manifest_text) => scan(manifest_text, entries),
    }
}

/// The paths and texts that a list of entries stands for.
pub open spec fn entry_views(entries: Seq<(String, String)>) -> Seq<(Seq<char>, Seq<char>)> {
    Seq::new(entries.len(), |i: int| (entries[i].0@, entries[i].1@))
}

/// What the scan of an archive does next for an entry.
#[derive(Debug)]
pub enum EntryAction {
    /// The entry holds nothing that the library reads.
    Skip,
    /// The entry is the file of a biome: its text is to be read and handed
    /// to [`SerializableDatapack::import_biome`] with this location and data
    /// source.
    ReadBiome { location: ResourceLocation, source: SerializableDataSource },
}

/// A datapack as its archive holds it.
#[derive(Debug)]
pub struct SerializableDatapack {
    pub name: String,
    pub pack_info: SerializablePackInfo,
    pub biomes: Table<ResourceLocation, SerializableDataHolder<BiomeElement>>,
}

impl SerializableDatapack {
    /// The name of the datapack.
    pub open spec fn name_view(self) -> Seq<char> {
        self.name@
    }

    /// The holders of the biomes, by location.
    pub open spec fn holders(self) -> Map<(Seq<char>, Seq<char>), SerializableDataHolder<BiomeElement>> {
        self.biomes.map()
    }

    /// Whether the slot holds a biome.
    pub open spec fn holds(self, slot: Slot) -> bool {
        self.holders().contains_key(slot.0) && self.holders()[slot.0].slot(slot.1) is Some
    }

    /// The biomes of the datapack, by slot.
    pub open spec fn stored(self) -> Map<Slot, BiomeView> {
        Map::new(|slot: Slot| self.holds(slot), |slot: Slot| self.holders()[slot.0].slot(slot.1)->0@)
    }

    /// A datapack of the given name and manifest, without content.
    pub fn empty(name: String, pack_info: SerializablePackInfo) -> (r: SerializableDatapack)
        ensures
            r.name_view() == name@,
            r.pack_info == pack_info,
            r.stored() == Map::<Slot, BiomeView>::empty(),
    {
        let r = SerializableDatapack { name, pack_info, biomes: Table::new() };
        assert(r.stored() =~= Map::<Slot, BiomeView>::empty());
        r
    }

    /// The name of the datapack.
    pub fn name(&self) -> (r: &String)
        ensures
            r@ == self.name_view(),
    {
        &self.name
    }

    /// The number of resource locations that have a biome.
    pub fn biome_count(&self) -> (r: usize)
        ensures
            self.holders().dom().finite(),
            r == self.holders().dom().len(),
    {
        self.biomes.len()
    }

    /// The holder of the biomes of a location, if the datapack has one.
    pub fn biome_holder(&self, location: &ResourceLocation) -> (r: Option<
        &SerializableDataHolder<BiomeElement>,
    >)
        ensures
            match r {
                Some(holder) => self.holders().contains_key(location@) && self.holders()[location@]
                    == *holder,
                None => !self.holders().contains_key(location@),
            },
    {
        self.biomes.get(location)
    }

    /// The biome of a slot, if the datapack has one.
    pub fn biome(&self, location: &ResourceLocation, source: SerializableDataSource) -> (r: Option<
        &BiomeElement,
    >)
        ensures
            match r {
                Some(biome) => self.stored().contains_key((location@, source@)) && self.stored()[(
                    location@,
                    source@,
                )] == biome@,
                None => !self.stored().contains_key((location@, source@)),
            },
    {
        match self.biomes.get(location) {
            Some(holder) => holder.get(source),
            None => None,
        }
    }

    /// The data source of the entry with the given path.
    pub fn get_data_source(path: &str, datapack: &SerializableDatapack) -> (r: Result<
        SerializableDataSource,
        DatapackError,
    >)
        ensures
            crate::error::agrees(r, data_source_of(datapack.pack_info@, path@)),
    {
        match overlay_directory_of(path) {
            None => Ok(SerializableDataSource::Root),
            Some(directory) => match datapack.pack_info.get_overlay(directory.as_str()) {
                Some(overlay) => Ok(SerializableDataSource::Overlay(overlay)),
                None => Err(DatapackError::Overlay(directory)),
            },
        }
    }

    /// The resource location of the biome whose file a path names, if it
    /// names one.
    pub fn biome_location(path: &str) -> (r: Result<Option<ResourceLocation>, DatapackError>)
        ensures
            match biome_location_of(path@) {
                Ok(Some(location)) => r matches Ok(Some(x)) && x@ == location,
                Ok(None) => r matches Ok(None),
                Err(fault) => r matches Err(e) && e.describes(fault),
            },
    {
        let content = content_path_of(path);
        if !is_under_data(content.as_str()) {
            return Ok(None);
        }
        let namespace = match namespace_of(content.as_str()) {
            Some(namespace) => namespace,
            None => {
                return Err(DatapackError::Namespace(path.to_owned()));
            },
        };
        match biome_id_of(content.as_str()) {
            Some(id) => Ok(Some(ResourceLocation::new(namespace, id))),
            None => Ok(None),
        }
    }

    /// What the entry with the given path asks for.
    pub fn classify(&self, path: &str) -> (r: Result<EntryAction, DatapackError>)
        ensures
            match entry_target(self.pack_info@, path@) {
                Ok(Some(slot)) => r matches Ok(EntryAction::ReadBiome { location, source })
                    && location@ == slot.0 && source@ == slot.1,
                Ok(None) => r matches Ok(EntryAction::Skip),
                Err(fault) => r matches Err(e) && e.describes(fault),
            },
    {
        let source = SerializableDatapack::get_data_source(path, self)?;
        match SerializableDatapack::biome_location(path)? {
            Some(location) => Ok(EntryAction::ReadBiome { location, source }),
            None => Ok(EntryAction::Skip),
        }
    }

    /// Stores a biome in its slot, in place of what the slot held. Every
    /// other slot, the name and the manifest stay.
    pub fn store_biome(&mut self, source: SerializableDataSource, biome: BiomeElement)
        ensures
            final(self).stored() == old(self).stored().insert((biome.name@, source@), biome@),
            final(self).name_view() == old(self).name_view(),
            final(self).pack_info == old(self).pack_info,
    {
        let ghost before = *self;
        let ghost slot: Slot = (biome.name@, source@);
        let ghost view = biome@;
        let location = biome.name.duplicate();
        let key = biome.name.duplicate();
        let holder = match self.biomes.remove(&location) {
            Some(holder) => {
                let mut holder = holder;
                holder.add(source, Box::new(biome));
                holder
            },
            None => *SerializableDataHolder::named(location, source, biome),
        };
        proof {
            assert(holder.slot(slot.1) is Some && holder.slot(slot.1)->0@ == view);
            assert(forall|other: SourceView|
                other != slot.1 ==> holder.slot(other) == (if before.holders().contains_key(slot.0) {
                    before.holders()[slot.0].slot(other)
                } else {
                    None
                }));
        }
        self.biomes.insert(key, holder);
        proof {
            let goal = before.stored().insert(slot, view);
            assert(self.holders() == before.holders().remove(slot.0).insert(slot.0, holder));
            assert forall|k: Slot| self.stored().contains_key(k) <==> goal.contains_key(k) by {
                if k.0 == slot.0 {
                    if k.1 != slot.1 {
                        assert(holder.slot(k.1) == (if before.holders().contains_key(slot.0) {
                            before.holders()[slot.0].slot(k.1)
                        } else {
                            None
                        }));
                    }
                }
            }
            assert forall|k: Slot| self.stored().contains_key(k) implies self.stored()[k]
                == goal[k] by {
                if k.0 == slot.0 {
                    if k.1 != slot.1 {
                        assert(holder.slot(k.1) == before.holders()[slot.0].slot(k.1));
                    }
                }
            }
            assert(self.stored() =~= goal);
        }
    }

    /// Reads the text of a biome file under the pack format and stores the
    /// biome in the given slot. Where the text is rejected, the datapack
    /// stays as it was.
    pub fn import_biome(
        &mut self,
        location: ResourceLocation,
        source: SerializableDataSource,
        text: &str,
    ) -> (r: Result<(), DatapackError>)
        ensures
            final(self).name_view() == old(self).name_view(),
            final(self).pack_info == old(self).pack_info,
            match biome_of_text(old(self).pack_info@.pack_format, text@) {
                Some(data) => r is Ok && final(self).stored() == old(self).stored().insert(
                    (location@, source@),
                    BiomeView { name: location@, data },
                ),
                None => r matches Err(e) && e.describes(Fault::Deserialize) && final(self).stored()
                    == old(self).stored(),
            },
    {
        let format = self.pack_info.pack_format();
        match BiomeElement::deserialize(location, &format, text) {
            Ok(biome) => {
                self.store_biome(source, *biome);
                Ok(())
            },
            Err(e) => Err(e),
        }
    }

    /// Takes one entry of the archive in: its path is checked, and where it
    /// names the file of a biome, the text is read and the biome stored for
    /// the given data source. Where the entry is rejected, the datapack stays
    /// as it was.
    pub fn import_data(
        path: &str,
        text: &str,
        datapack: &mut SerializableDatapack,
        data_source: SerializableDataSource,
    ) -> (r: Result<(), DatapackError>)
        ensures
            final(datapack).name_view() == old(datapack).name_view(),
            final(datapack).pack_info == old(datapack).pack_info,
            match biome_location_of(path@) {
                Err(fault) => r matches Err(e) && e.describes(fault) && final(datapack).stored()
                    == old(datapack).stored(),
                Ok(None) => r is Ok && final(datapack).stored() == old(datapack).stored(),
                Ok(Some(location)) => match biome_of_text(
                    old(datapack).pack_info@.pack_format,
                    text@,
                ) {
                    Some(data) => r is Ok && final(datapack).stored() == old(datapack).stored().insert((location, data_source@), BiomeView { name: location, data }),
                    None => r matches Err(e) && e.describes(Fault::Deserialize) && final(datapack).stored() == old(datapack).stored(),
                },
            },
    {
        match SerializableDatapack::biome_location(path)? {
            Some(location) => datapack.import_biome(location, data_source, text),
            None => Ok(()),
        }
    }

    /// Takes one entry of the archive in, with the data source that its path
    /// selects.
    pub fn import_entry(&mut self, path: &str, text: &str) -> (r: Result<(), DatapackError>)
        ensures
            final(self).name_view() == old(self).name_view(),
            final(self).pack_info == old(self).pack_info,
            match after_entry(old(self).pack_info@, old(self).stored(), path@, text@) {
                Ok(stored) => r is Ok && final(self).stored() == stored,
                Err(fault) => r matches Err(e) && e.describes(fault) && final(self).stored() == old(self).stored(),
            },
    {
        let source = SerializableDatapack::get_data_source(path, self)?;
        SerializableDatapack::import_data(path, text, self, source)
    }

    /// Builds a datapack from the entries of an archive, each a path and the
    /// text of its file, of which one must be the manifest `pack.mcmeta`. An
    /// archive without a manifest gives a `File` error.
    pub fn from_archive(name: String, entries: &Vec<(String, String)>) -> (r: Result<
        SerializableDatapack,
        DatapackError,
    >)
        ensures
            match scan_archive(entry_views(entries@)) {
                Ok((manifest, stored)) => r matches Ok(datapack) && datapack.name_view() == name@
                    && datapack.pack_info@ == manifest && datapack.stored() == stored,
                Err(fault) => r matches Err(e) && e.describes(fault),
            },
    {
        let ghost list = entry_views(entries@);
        proof {
            reveal_strlit("pack.mcmeta");
            assert("pack.mcmeta"@ =~= manifest_path());
        }
        let mut i: usize = 0;
        while i < entries.len()
            invariant
                i <= entries.len(),
                list == entry_views(entries@),
                "pack.mcmeta"@ == manifest_path(),
                find_manifest(list, 0) == find_manifest(list, i as int),
            decreases entries.len() - i,
        {
            assert(list[i as int] == (entries@[i as int].0@, entries@[i as int].1@));
            if crate::strings::str_equal(entries[i].0.as_str(), "pack.mcmeta") {
                return SerializableDatapack::from_entries(name, entries[i].1.as_str(), entries);
            }
            i += 1;
        }
        Err(DatapackError::File("pack.mcmeta".to_owned()))
    }

    /// Builds a datapack from the text of the manifest and the entries of
    /// the archive, each a path and the text of its file. The first entry
    /// that is rejected ends the scan with its error, and no datapack is
    /// returned.
    pub fn from_entries(name: String, manifest_text: &str, entries: &Vec<(String, String)>) -> (r:
        Result<SerializableDatapack, DatapackError>)
        ensures
            match scan(manifest_text@, entry_views(entries@)) {
                Ok((manifest, stored)) => r matches Ok(datapack) && datapack.name_view() == name@
                    && datapack.pack_info@ == manifest && datapack.stored() == stored,
                Err(fault) => r matches Err(e) && e.describes(fault),
            },
    {
        let pack_info = SerializablePackInfo::parse(manifest_text)?;
        let ghost manifest = pack_info@;
        let ghost list = entry_views(entries@);
        let mut datapack = SerializableDatapack::empty(name, pack_info);
        let mut i: usize = 0;
        while i < entries.len()
            invariant
                i <= entries.len(),
                list == entry_views(entries@),
                manifest_of_text(manifest_text@) == Ok::<ManifestView, Fault>(manifest),
                datapack.pack_info@ == manifest,
                datapack.name_view() == name@,
                after_entries(manifest, Map::empty(), list, 0) == after_entries(
                    manifest,
                    datapack.stored(),
                    list,
                    i as int,
                ),
            decreases entries.len() - i,
        {
            assert(list[i as int] == (entries@[i as int].0@, entries@[i as int].1@));
            match datapack.import_entry(entries[i].0.as_str(), entries[i].1.as_str()) {
                Ok(()) => {},
                Err(e) => {
                    return Err(e);
                },
            }
            i += 1;
        }
        Ok(datapack)
    }
}

/// A path in an overlay directory belongs to the overlay of that directory
/// exactly when the manifest declares it, and is an `Overlay` fault that
/// names the directory when it does not; every other path belongs to the
/// root.
pub proof fn lemma_data_source(manifest: ManifestView, path: Seq<char>)
    ensures
        data_source_of(manifest, path) == Ok::<SourceView, Fault>(SourceView::Root)
            <==> overlay_directory(path) is None,
        data_source_of(manifest, path) is Ok && data_source_of(manifest, path)->Ok_0 is Overlay
            <==> overlay_directory(path) is Some && manifest.overlay(overlay_directory(path)->0)
            is Some,
        data_source_of(manifest, path) is Err <==> overlay_directory(path) is Some
            && manifest.overlay(overlay_directory(path)->0) is None,
        data_source_of(manifest, path) is Err ==> data_source_of(manifest, path)->Err_0
            == Fault::Overlay(overlay_directory(path)->0),
        data_source_of(manifest, path) matches Ok(SourceView::Overlay(overlay))
            ==> overlay.directory == overlay_directory(path)->0,
{
    if let Some(directory) = overlay_directory(path) {
        if let Some(entries) = manifest.overlays {
            crate::manifest::lemma_find_overlay(entries, directory, 0);
        }
    }
}

/// A path under `data/` whose namespace segment holds a character that is
/// not allowed, or is empty, is a `Namespace` fault that carries the path;
/// a path that is not under `data/` is skipped.
pub proof fn lemma_namespace_checked(path: Seq<char>)
    ensures
        under_data(content_path(path)) && !is_name(namespace_segment(content_path(path)))
            ==> biome_location_of(path) == Err::<Option<(Seq<char>, Seq<char>)>, Fault>(
            Fault::Namespace(path),
        ),
        !under_data(content_path(path)) ==> biome_location_of(path) == Ok::<
            Option<(Seq<char>, Seq<char>)>,
            Fault,
        >(None),
        biome_location_of(path) is Err <==> under_data(content_path(path)) && !is_name(
            namespace_segment(content_path(path)),
        ),
        biome_location_of(path) matches Ok(Some(location)) ==> is_name(location.0)
            && crate::path::is_id_path(location.1),
{
}

/// An archive without a manifest at its root is a `File` fault, whatever
/// else it holds.
pub proof fn lemma_manifest_required(entries: Seq<(Seq<char>, Seq<char>)>)
    requires
        forall|i: int| 0 <= i < entries.len() ==> (#[trigger] entries[i]).0 != manifest_path(),
    ensures
        scan_archive(entries) == Err::<(ManifestView, Map<Slot, BiomeView>), Fault>(Fault::File),
{
    lemma_no_manifest(entries, 0);
}

proof fn lemma_no_manifest(entries: Seq<(Seq<char>, Seq<char>)>, from: int)
    requires
        0 <= from,
        forall|i: int| 0 <= i < entries.len() ==> (#[trigger] entries[i]).0 != manifest_path(),
    ensures
        find_manifest(entries, from) is None,
    decreases entries.len() - from,
{
    if from < entries.len() {
        lemma_no_manifest(entries, from + 1);
    }
}

/// An entry changes at most the slot that its path selects: every other
/// slot holds after it what it held before.
pub proof fn lemma_entry_touches_one_slot(
    manifest: ManifestView,
    stored: Map<Slot, BiomeView>,
    path: Seq<char>,
    text: Seq<char>,
    other: Slot,
)
    requires
        after_entry(manifest, stored, path, text) is Ok,
        entry_target(manifest, path) != Ok::<Option<Slot>, Fault>(Some(other)),
    ensures
        after_entry(manifest, stored, path, text)->Ok_0.contains_key(other) == stored.contains_key(
            other,
        ),
        stored.contains_key(other) ==> after_entry(manifest, stored, path, text)->Ok_0[other]
            == stored[other],
{
}

/// Two entries that select different slots can be taken in either order.
pub proof fn lemma_entries_commute(
    manifest: ManifestView,
    stored: Map<Slot, BiomeView>,
    first: (Seq<char>, Seq<char>),
    second: (Seq<char>, Seq<char>),
)
    requires
        entry_target(manifest, first.0) is Ok,
        entry_target(manifest, second.0) is Ok,
        entry_target(manifest, first.0) != entry_target(manifest, second.0) || entry_target(
            manifest,
            first.0,
        )->Ok_0 is None,
    ensures
        after_entries(manifest, stored, seq![first, second], 0) == after_entries(
            manifest,
            stored,
            seq![second, first],
            0,
        ),
{
    reveal_with_fuel(after_entries, 3);
    let a = after_entry(manifest, stored, first.0, first.1);
    let b = after_entry(manifest, stored, second.0, second.1);
    let one = seq![first, second];
    let two = seq![second, first];
    assert(one[0] == first && one[1] == second && one.len() == 2);
    assert(two[0] == second && two[1] == first && two.len() == 2);
    if a is Ok && b is Ok {
        let ab = after_entry(manifest, a->Ok_0, second.0, second.1);
        let ba = after_entry(manifest, b->Ok_0, first.0, first.1);
        assert(ab is Ok && ba is Ok);
        assert(ab->Ok_0 =~= ba->Ok_0);
    }
}

/// Whether the entry with the given path is the file of a biome that the
/// scan reads.
pub open spec fn reads_biome(manifest: ManifestView, path: Seq<char>) -> bool {
    entry_target(manifest, path) is Ok && entry_target(manifest, path)->Ok_0 is Some
}

/// A text that is no JSON document, in the manifest or in the file of a
/// biome, makes the scan fail: no datapack comes of it.
pub proof fn lemma_malformed_json_fails(
    manifest_text: Seq<char>,
    entries: Seq<(Seq<char>, Seq<char>)>,
    at: int,
)
    ensures
        crate::json::json_of_text(manifest_text) is None ==> scan(manifest_text, entries) is Err,
        manifest_of_text(manifest_text) is Ok && 0 <= at < entries.len() && reads_biome(
            manifest_of_text(manifest_text)->Ok_0,
            entries[at].0,
        ) && crate::json::json_of_text(entries[at].1) is None ==> scan(manifest_text, entries)
            is Err,
{
    if let Ok(manifest) = manifest_of_text(manifest_text) {
        if 0 <= at < entries.len() && reads_biome(manifest, entries[at].0)
            && crate::json::json_of_text(entries[at].1) is None {
            lemma_bad_entry_fails(manifest, Map::empty(), entries, 0, at);
        }
    }
}

/// An entry that is rejected makes the scan of the entries from any earlier
/// index fail.
proof fn lemma_bad_entry_fails(
    manifest: ManifestView,
    stored: Map<Slot, BiomeView>,
    entries: Seq<(Seq<char>, Seq<char>)>,
    from: int,
    at: int,
)
    requires
        0 <= from <= at < entries.len(),
        forall|any: Map<Slot, BiomeView>|
            (#[trigger] after_entry(manifest, any, entries[at].0, entries[at].1)) is Err,
    ensures
        after_entries(manifest, stored, entries, from) is Err,
    decreases at - from,
{
    if from < at {
        if let Ok(next) = after_entry(manifest, stored, entries[from].0, entries[from].1) {
            lemma_bad_entry_fails(manifest, next, entries, from + 1, at);
        }
    }
}

} // verus!
