//! What a category of content gives the scan of an archive: the recognition
//! of its files, and the reading of one file under a pack format.

use crate::biome::biome_of_text;
use crate::biome::BiomeElement;
use crate::biome::BiomeView;
use crate::error::DatapackError;
use crate::error::Fault;
use crate::format::DatapackFormat;
use crate::location::ResourceLocation;
use crate::path::biome_id;
use vstd::prelude::*;

verus! {

/// A category of content whose elements have a name and a file of their own.
pub trait NamedDataElement: Sized {
    /// Reads an element from the text of its file under a pack format.
    fn deserialize(name: ResourceLocation, format: &DatapackFormat, json: &str) -> Result<
        Box<Self>,
        DatapackError,
    >;

    /// The id of the element whose file a path names, if it names one of
    /// this category.
    fn match_file(path: &str) -> Option<String>;
}

impl NamedDataElement for BiomeElement {
    fn deserialize(name: ResourceLocation, format: &DatapackFormat, json: &str) -> (r: Result<
        Box<Self>,
        DatapackError,
    >)
        ensures
            match biome_of_text(*format, json@) {
                Some(data) => r matches Ok(biome) && biome@ == (BiomeView { name: name@, data }),
                None => r matches Err(e) && e.describes(Fault::Deserialize),
            },
    {
        BiomeElement::deserialize(name, format, json)
    }

    fn match_file(path: &str) -> (r: Option<String>)
        ensures
            match r {
                Some(id) => biome_id(path@) == Some(id@),
                None => biome_id(path@) is None,
            },
    {
        BiomeElement::match_file(path)
    }
}

} // verus!
