use gaia::format::DatapackFormat;
use gaia::holder::{SerializableDataHolder, SerializableDataSource};
use gaia::location::ResourceLocation;
use gaia::manifest::SerializableOverlayEntry;
use gaia::range::FormatRange;
use gaia::table::Table;

fn overlay(directory: &str, format: DatapackFormat) -> SerializableDataSource {
    SerializableDataSource::Overlay(SerializableOverlayEntry {
        formats: FormatRange::single(format),
        directory: directory.to_string(),
    })
}

fn root() -> SerializableDataSource {
    SerializableDataSource::Root
}

#[test]
fn an_anonymous_holder_for_the_root_has_only_the_root_value() {
    let holder = SerializableDataHolder::anonymous(root(), 7);
    assert_eq!(holder.get(root()), Some(&7));
    assert_eq!(holder.get(overlay("a", DatapackFormat::Format18)), None);
    assert_eq!(holder.resource_location(), None);
    assert_eq!(holder.overlay_count(), 0);
}

#[test]
fn an_anonymous_holder_for_an_overlay_has_no_root_value() {
    let holder = SerializableDataHolder::anonymous(overlay("a", DatapackFormat::Format18), 7);
    assert_eq!(holder.get(root()), None);
    assert_eq!(holder.get(overlay("a", DatapackFormat::Format18)), Some(&7));
    assert_eq!(holder.get(overlay("b", DatapackFormat::Format18)), None);
    assert_eq!(holder.overlay_count(), 1);
}

#[test]
fn a_named_holder_is_tagged() {
    let at = ResourceLocation::new("minecraft".to_string(), "plains".to_string());
    let holder = SerializableDataHolder::named(at.duplicate(), root(), "x");
    assert_eq!(holder.resource_location(), Some(&at));
    assert_eq!(holder.get(root()), Some(&"x"));
}

#[test]
fn add_overwrites_the_slot_it_names() {
    let mut holder = *SerializableDataHolder::anonymous(root(), 1);
    holder.add(root(), Box::new(2));
    assert_eq!(holder.get(root()), Some(&2));
    holder.add(overlay("a", DatapackFormat::Format18), Box::new(3));
    holder.add(overlay("a", DatapackFormat::Format18), Box::new(4));
    assert_eq!(holder.get(overlay("a", DatapackFormat::Format18)), Some(&4));
    assert_eq!(holder.get(root()), Some(&2));
    assert_eq!(holder.overlay_count(), 1);
}

#[test]
fn slots_do_not_stand_in_for_one_another() {
    let mut holder = *SerializableDataHolder::anonymous(overlay("a", DatapackFormat::Format18), 1);
    holder.add(overlay("b", DatapackFormat::Format18), Box::new(2));
    assert_eq!(holder.get(root()), None);
    assert_eq!(holder.get(overlay("a", DatapackFormat::Format18)), Some(&1));
    assert_eq!(holder.get(overlay("b", DatapackFormat::Format18)), Some(&2));
    assert_eq!(holder.get(overlay("c", DatapackFormat::Format18)), None);
    assert_eq!(holder.overlay_count(), 2);
}

#[test]
fn an_overlay_slot_is_keyed_by_the_whole_declaration() {
    let mut holder = *SerializableDataHolder::anonymous(overlay("a", DatapackFormat::Format18), 1);
    assert_eq!(holder.get(overlay("a", DatapackFormat::Format26)), None);
    holder.add(overlay("a", DatapackFormat::Format26), Box::new(2));
    assert_eq!(holder.get(overlay("a", DatapackFormat::Format18)), Some(&1));
    assert_eq!(holder.get(overlay("a", DatapackFormat::Format26)), Some(&2));
}

#[test]
fn remove_empties_the_slot_it_names() {
    let mut holder = *SerializableDataHolder::anonymous(root(), 1);
    holder.add(overlay("a", DatapackFormat::Format18), Box::new(2));
    holder.add(overlay("b", DatapackFormat::Format18), Box::new(3));
    holder.remove(overlay("a", DatapackFormat::Format18));
    assert_eq!(holder.get(overlay("a", DatapackFormat::Format18)), None);
    assert_eq!(holder.get(overlay("b", DatapackFormat::Format18)), Some(&3));
    assert_eq!(holder.get(root()), Some(&1));
    holder.remove(root());
    assert_eq!(holder.get(root()), None);
    assert_eq!(holder.get(overlay("b", DatapackFormat::Format18)), Some(&3));
    holder.remove(overlay("never", DatapackFormat::Format18));
    holder.remove(root());
    assert_eq!(holder.overlay_count(), 1);
}

#[test]
fn a_data_source_is_copied_whole() {
    let source = overlay("a", DatapackFormat::Format26);
    assert_eq!(source.duplicate(), source);
    assert_eq!(root().duplicate(), root());
}

#[test]
fn a_table_keeps_one_value_for_each_key() {
    let mut table: Table<ResourceLocation, u32> = Table::new();
    let a = ResourceLocation::new("m".to_string(), "a".to_string());
    let b = ResourceLocation::new("m".to_string(), "b".to_string());
    assert_eq!(table.len(), 0);
    assert_eq!(table.get(&a), None);
    table.insert(a.duplicate(), 1);
    table.insert(b.duplicate(), 2);
    table.insert(a.duplicate(), 3);
    assert_eq!(table.len(), 2);
    assert_eq!(table.get(&a), Some(&3));
    assert_eq!(table.get(&b), Some(&2));
    assert!(table.contains_key(&a));
    assert_eq!(table.remove(&a), Some(3));
    assert_eq!(table.remove(&a), None);
    assert!(!table.contains_key(&a));
    assert_eq!(table.len(), 1);
    assert_eq!(table.entry(0), &(b, 2));
}
