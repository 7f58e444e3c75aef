//! Biomes: the fields that every format has, the fields that depend on the
//! format, and the reading of a biome file under a given pack format.

use crate::error::DatapackError;
use crate::error::Fault;
use crate::format::DatapackFormat;
use crate::json::json_of_text;
use crate::json::optional_number;
use crate::json::optional_small_integer;
use crate::json::parse_json;
use crate::json::required_flag;
use crate::json::required_number;
use crate::json::required_small_integer;
use crate::json::Json;
use crate::json::JsonNumber;
use crate::json::JsonValue;
use crate::location::ResourceLocation;
use crate::strings::str_equal;
use vstd::prelude::*;

verus! {

/// How the temperature of a biome is adjusted.
#[derive(Debug, Clone, Copy, PartialEq, Eq, Structural)]
pub enum TemperatureModifier {
    /// No adjustment; files write it `none`.
    Plain,
    Frozen,
}

/// How the grass colour of a biome is adjusted.
#[derive(Debug, Clone, Copy, PartialEq, Eq, Structural)]
pub enum GrassColorModifier {
    /// No adjustment; files write it `none`.
    Plain,
    DarkForest,
    Swamp,
}

/// What falls in a biome, as the formats before the boolean wrote it.
#[derive(Debug, Clone, Copy, PartialEq, Eq, Structural)]
pub enum LegacyPrecipitationCategory {
    /// Nothing falls; files write it `none`.
    Dry,
    Rain,
    Snow,
}

impl Default for TemperatureModifier {
    fn default() -> (r: Self)
        ensures
            r == TemperatureModifier::Plain,
    {
        TemperatureModifier::Plain
    }
}

impl Default for GrassColorModifier {
    fn default() -> (r: Self)
        ensures
            r == GrassColorModifier::Plain,
    {
        GrassColorModifier::Plain
    }
}

impl Default for LegacyPrecipitationCategory {
    fn default() -> (r: Self)
        ensures
            r == LegacyPrecipitationCategory::Rain,
    {
        LegacyPrecipitationCategory::Rain
    }
}

/// The format-dependent fields of a biome from the boolean-precipitation
/// format on.
#[derive(Debug, Clone, Copy, PartialEq, Eq, Structural)]
pub struct BiomeDataFormat12 {
    pub has_precipitation: bool,
}

/// The format-dependent fields of a biome in format 10.
#[derive(Debug, Clone, Copy, PartialEq, Eq, Structural)]
pub struct BiomeDataFormat10 {
    pub precipitation: LegacyPrecipitationCategory,
}

/// The format-dependent fields of a biome in formats 8 and 9.
#[derive(Debug, Clone, Copy, PartialEq, Eq, Structural)]
pub struct BiomeDataFormat8 {
    pub precipitation: LegacyPrecipitationCategory,
}

/// The format-dependent fields of a biome in formats 6 and 7.
#[derive(Debug, Clone, Copy, PartialEq, Eq, Structural)]
pub struct BiomeDataFormat6 {
    pub player_spawn_friendly: bool,
    pub depth: i32,
    pub scale: i32,
    pub precipitation: LegacyPrecipitationCategory,
}

/// The format-dependent fields of a biome: exactly one of the four shapes.
#[derive(Debug, Clone, Copy, PartialEq, Eq, Structural)]
pub enum BiomeFormatData {
    Format6(BiomeDataFormat6),
    Format8(BiomeDataFormat8),
    Format10(BiomeDataFormat10),
    Format12(BiomeDataFormat12),
}

/// The four shapes of the format-dependent fields.
#[derive(Debug, Clone, Copy, PartialEq, Eq, Structural)]
pub enum BiomeVariant {
    Format6,
    Format8,
    Format10,
    Format12,
}

/// The colours of a biome.
#[derive(Debug, Clone, Copy, PartialEq, Eq, Structural)]
pub struct Effect {
    pub fog_color: i32,
    pub sky_color: i32,
    pub water_color: i32,
    pub water_fog_color: i32,
    pub foliage_color: Option<i32>,
    pub grass_color: Option<i32>,
    pub grass_color_modifier: GrassColorModifier,
}

/// The fields of a biome that every format has. The three measures are kept
/// as the JSON numbers that the file wrote.
#[derive(Debug, Clone, Copy, PartialEq, Eq, Structural)]
pub struct BiomeSharedData {
    pub temperature: JsonNumber,
    pub temperature_modifier: TemperatureModifier,
    pub downfall: JsonNumber,
    pub effects: Effect,
    pub creature_spawn_probability: Option<JsonNumber>,
}

/// The fields of a biome, without its name.
#[derive(Debug, Clone, Copy, PartialEq, Eq, Structural)]
pub struct BiomeData {
    pub shared_data: BiomeSharedData,
    pub format_data: BiomeFormatData,
}

/// A biome: its name, the fields that every format has, and the fields of
/// the one shape that its pack format selects.
#[derive(Debug, Clone, PartialEq, Eq)]
pub struct BiomeElement {
    pub name: ResourceLocation,
    pub shared_data: BiomeSharedData,
    pub format_data: BiomeFormatData,
}

/// A biome, as a mathematical value.
pub struct BiomeView {
    pub name: (Seq<char>, Seq<char>),
    pub data: BiomeData,
}

impl View for BiomeElement {
    type V = BiomeView;

    open spec fn view(&self) -> BiomeView {
        BiomeView {
            name: self.name@,
            data: BiomeData { shared_data: self.shared_data, format_data: self.format_data },
        }
    }
}

impl BiomeFormatData {
    /// The shape of the fields.
    pub open spec fn variant(self) -> BiomeVariant {
        match self {
            BiomeFormatData::Format6(_) => BiomeVariant::Format6,
            BiomeFormatData::Format8(_) => BiomeVariant::Format8,
            BiomeFormatData::Format10(_) => BiomeVariant::Format10,
            BiomeFormatData::Format12(_) => BiomeVariant::Format12,
        }
    }
}

/// The shape that a pack format selects: the table from formats to shapes.
pub open spec fn variant_of(format: DatapackFormat) -> BiomeVariant {
    if format.number() < 8 {
        BiomeVariant::Format6
    } else if format.number() < 10 {
        BiomeVariant::Format8
    } else if format.number() < 12 {
        BiomeVariant::Format10
    } else {
        BiomeVariant::Format12
    }
}

/// The temperature modifier that a text names.
pub open spec fn temperature_modifier_of(s: Seq<char>) -> Option<TemperatureModifier> {
    if s == "none"@ || s == "None"@ {
        Some(TemperatureModifier::Plain)
    } else if s == "frozen"@ || s == "Frozen"@ {
        Some(TemperatureModifier::Frozen)
    } else {
        None
    }
}

/// The grass colour modifier that a text names.
pub open spec fn grass_color_modifier_of(s: Seq<char>) -> Option<GrassColorModifier> {
    if s == "none"@ || s == "None"@ {
        Some(GrassColorModifier::Plain)
    } else if s == "dark_forest"@ || s == "DarkForest"@ {
        Some(GrassColorModifier::DarkForest)
    } else if s == "swamp"@ || s == "Swamp"@ {
        Some(GrassColorModifier::Swamp)
    } else {
        None
    }
}

/// The precipitation that a text names.
pub open spec fn precipitation_of(s: Seq<char>) -> Option<LegacyPrecipitationCategory> {
    if s == "none"@ || s == "None"@ {
        Some(LegacyPrecipitationCategory::Dry)
    } else if s == "rain"@ || s == "Rain"@ {
        Some(LegacyPrecipitationCategory::Rain)
    } else if s == "snow"@ || s == "Snow"@ {
        Some(LegacyPrecipitationCategory::Snow)
    } else {
        None
    }
}

/// The member `precipitation` of a biome, which the legacy shapes require.
pub open spec fn legacy_precipitation(j: Json) -> Option<LegacyPrecipitationCategory> {
    match j.member("precipitation"@) {
        Some(Json::String(s)) => precipitation_of(s),
        _ => None,
    }
}

/// The colours that a document writes: the four colours are required
/// integers, the two others optional, and the modifier is `Plain` where it is
/// absent.
pub open spec fn effect_of(j: Json) -> Option<Effect> {
    let modifier = match j.member("grass_color_modifier"@) {
        None => Some(GrassColorModifier::Plain),
        Some(Json::String(s)) => grass_color_modifier_of(s),
        Some(_) => None,
    };
    match (
        required_small_integer(j, "fog_color"@),
        required_small_integer(j, "sky_color"@),
        required_small_integer(j, "water_color"@),
        required_small_integer(j, "water_fog_color"@),
        optional_small_integer(j, "foliage_color"@),
        optional_small_integer(j, "grass_color"@),
        modifier,
    ) {
        (
            Some(fog_color),
            Some(sky_color),
            Some(water_color),
            Some(water_fog_color),
            Some(foliage_color),
            Some(grass_color),
            Some(grass_color_modifier),
        ) => Some(
            Effect {
                fog_color,
                sky_color,
                water_color,
                water_fog_color,
                foliage_color,
                grass_color,
                grass_color_modifier,
            },
        ),
        _ => None,
    }
}

/// The fields of every format that a document writes: `temperature`,
/// `downfall` and `effects` are required, the temperature modifier is `Plain`
/// where it is absent, and the spawn probability is optional.
pub open spec fn shared_data_of(j: Json) -> Option<BiomeSharedData> {
    let modifier = match j.member("temperature_modifier"@) {
        None => Some(TemperatureModifier::Plain),
        Some(Json::String(s)) => temperature_modifier_of(s),
        Some(_) => None,
    };
    let effects = match j.member("effects"@) {
        Some(written) => effect_of(written),
        None => None,
    };
    match (
        required_number(j, "temperature"@),
        modifier,
        required_number(j, "downfall"@),
        effects,
        optional_number(j, "creature_spawn_probability"@),
    ) {
        (
            Some(temperature),
            Some(temperature_modifier),
            Some(downfall),
            Some(effects),
            Some(creature_spawn_probability),
        ) => Some(
            BiomeSharedData {
                temperature,
                temperature_modifier,
                downfall,
                effects,
                creature_spawn_probability,
            },
        ),
        _ => None,
    }
}

/// The format-dependent fields that a document writes in the given shape.
/// Only the members of that shape are read: a document that has the members
/// of another shape alone writes nothing in this one.
pub open spec fn format_data_of(variant: BiomeVariant, j: Json) -> Option<BiomeFormatData> {
    match variant {
        BiomeVariant::Format6 => match (
            required_flag(j, "player_spawn_friendly"@),
            required_small_integer(j, "depth"@),
            required_small_integer(j, "scale"@),
            legacy_precipitation(j),
        ) {
            (Some(player_spawn_friendly), Some(depth), Some(scale), Some(precipitation)) => Some(
                BiomeFormatData::Format6(
                    BiomeDataFormat6 { player_spawn_friendly, depth, scale, precipitation },
                ),
            ),
            _ => None,
        },
        BiomeVariant::Format8 => match legacy_precipitation(j) {
            Some(precipitation) => Some(BiomeFormatData::Format8(BiomeDataFormat8 { precipitation })),
            None => None,
        },
        BiomeVariant::Format10 => match legacy_precipitation(j) {
            Some(precipitation) => Some(
                BiomeFormatData::Format10(BiomeDataFormat10 { precipitation }),
            ),
            None => None,
        },
        BiomeVariant::Format12 => match required_flag(j, "has_precipitation"@) {
            Some(has_precipitation) => Some(
                BiomeFormatData::Format12(BiomeDataFormat12 { has_precipitation }),
            ),
            None => None,
        },
    }
}

/// The biome that a document writes under a pack format: the shared fields,
/// and the format-dependent fields in the shape that the format selects.
/// `None` where either is not written.
pub open spec fn biome_of(format: DatapackFormat, j: Json) -> Option<BiomeData> {
    match (shared_data_of(j), format_data_of(variant_of(format), j)) {
        (Some(shared_data), Some(format_data)) => Some(BiomeData { shared_data, format_data }),
        _ => None,
    }
}

/// The biome that a text writes under a pack format; `None` where the text
/// is no JSON document or writes no biome.
pub open spec fn biome_of_text(format: DatapackFormat, text: Seq<char>) -> Option<BiomeData> {
    match json_of_text(text) {
        Some(document) => biome_of(format, document),
        None => None,
    }
}

/// Reads the name of a temperature modifier.
pub fn read_temperature_modifier(s: &str) -> (r: Option<TemperatureModifier>)
    ensures
        r == temperature_modifier_of(s@),
{
    if str_equal(s, "none") || str_equal(s, "None") {
        Some(TemperatureModifier::Plain)
    } else if str_equal(s, "frozen") || str_equal(s, "Frozen") {
        Some(TemperatureModifier::Frozen)
    } else {
        None
    }
}

/// Reads the name of a grass colour modifier.
pub fn read_grass_color_modifier(s: &str) -> (r: Option<GrassColorModifier>)
    ensures
        r == grass_color_modifier_of(s@),
{
    if str_equal(s, "none") || str_equal(s, "None") {
        Some(GrassColorModifier::Plain)
    } else if str_equal(s, "dark_forest") || str_equal(s, "DarkForest") {
        Some(GrassColorModifier::DarkForest)
    } else if str_equal(s, "swamp") || str_equal(s, "Swamp") {
        Some(GrassColorModifier::Swamp)
    } else {
        None
    }
}

/// Reads the name of a precipitation.
pub fn read_precipitation(s: &str) -> (r: Option<LegacyPrecipitationCategory>)
    ensures
        r == precipitation_of(s@),
{
    if str_equal(s, "none") || str_equal(s, "None") {
        Some(LegacyPrecipitationCategory::Dry)
    } else if str_equal(s, "rain") || str_equal(s, "Rain") {
        Some(LegacyPrecipitationCategory::Rain)
    } else if str_equal(s, "snow") || str_equal(s, "Snow") {
        Some(LegacyPrecipitationCategory::Snow)
    } else {
        None
    }
}

/// The shape that a pack format selects.
pub fn select_variant(format: &DatapackFormat) -> (r: BiomeVariant)
    ensures
        r == variant_of(*format),
{
    let n: u8 = format.format_number();
    if n < 8 {
        BiomeVariant::Format6
    } else if n < 10 {
        BiomeVariant::Format8
    } else if n < 12 {
        BiomeVariant::Format10
    } else {
        BiomeVariant::Format12
    }
}

/// Reads the member `precipitation` of a biome.
fn read_legacy_precipitation(j: &JsonValue) -> (r: Result<LegacyPrecipitationCategory, DatapackError>)
    ensures
        match legacy_precipitation(j@) {
            Some(p) => r == Ok::<_, DatapackError>(p),
            None => r matches Err(e) && e.describes(Fault::Deserialize),
        },
{
    match j.get("precipitation") {
        Some(JsonValue::String(s)) => match read_precipitation(s.as_str()) {
            Some(p) => Ok(p),
            None => Err(DatapackError::Deserialize("precipitation".to_owned())),
        },
        _ => Err(DatapackError::Deserialize("precipitation".to_owned())),
    }
}

impl Effect {
    /// Reads the colours of a biome.
    pub fn from_json(j: &JsonValue) -> (r: Result<Effect, DatapackError>)
        ensures
            match effect_of(j@) {
                Some(effect) => r == Ok::<_, DatapackError>(effect),
                None => r matches Err(e) && e.describes(Fault::Deserialize),
            },
    {
        let fog_color = j.small_integer_member("fog_color")?;
        let sky_color = j.small_integer_member("sky_color")?;
        let water_color = j.small_integer_member("water_color")?;
        let water_fog_color = j.small_integer_member("water_fog_color")?;
        let foliage_color = j.optional_small_integer_member("foliage_color")?;
        let grass_color = j.optional_small_integer_member("grass_color")?;
        let grass_color_modifier = match j.get("grass_color_modifier") {
            None => GrassColorModifier::Plain,
            Some(JsonValue::String(s)) => match read_grass_color_modifier(s.as_str()) {
                Some(m) => m,
                None => {
                    return Err(DatapackError::Deserialize("grass_color_modifier".to_owned()));
                },
            },
            Some(_) => {
                return Err(DatapackError::Deserialize("grass_color_modifier".to_owned()));
            },
        };
        Ok(
            Effect {
                fog_color,
                sky_color,
                water_color,
                water_fog_color,
                foliage_color,
                grass_color,
                grass_color_modifier,
            },
        )
    }
}

impl BiomeSharedData {
    /// Reads the fields of a biome that every format has.
    pub fn from_json(j: &JsonValue) -> (r: Result<BiomeSharedData, DatapackError>)
        ensures
            match shared_data_of(j@) {
                Some(data) => r == Ok::<_, DatapackError>(data),
                None => r matches Err(e) && e.describes(Fault::Deserialize),
            },
    {
        let temperature = j.number_member("temperature")?;
        let temperature_modifier = match j.get("temperature_modifier") {
            None => TemperatureModifier::Plain,
            Some(JsonValue::String(s)) => match read_temperature_modifier(s.as_str()) {
                Some(m) => m,
                None => {
                    return Err(DatapackError::Deserialize("temperature_modifier".to_owned()));
                },
            },
            Some(_) => {
                return Err(DatapackError::Deserialize("temperature_modifier".to_owned()));
            },
        };
        let downfall = j.number_member("downfall")?;
        let effects = match j.get("effects") {
            Some(written) => Effect::from_json(written)?,
            None => {
                return Err(DatapackError::Deserialize("effects".to_owned()));
            },
        };
        let creature_spawn_probability = j.optional_number_member("creature_spawn_probability")?;
        Ok(
            BiomeSharedData {
                temperature,
                temperature_modifier,
                downfall,
                effects,
                creature_spawn_probability,
            },
        )
    }
}

impl BiomeFormatData {
    /// Reads the format-dependent fields of a biome in the given shape.
    pub fn from_json(variant: BiomeVariant, j: &JsonValue) -> (r: Result<
        BiomeFormatData,
        DatapackError,
    >)
        ensures
            match format_data_of(variant, j@) {
                Some(data) => r == Ok::<_, DatapackError>(data),
                None => r matches Err(e) && e.describes(Fault::Deserialize),
            },
    {
        match variant {
            BiomeVariant::Format6 => {
                let player_spawn_friendly = j.bool_member("player_spawn_friendly")?;
                let depth = j.small_integer_member("depth")?;
                let scale = j.small_integer_member("scale")?;
                let precipitation = read_legacy_precipitation(j)?;
                Ok(
                    BiomeFormatData::Format6(
                        BiomeDataFormat6 { player_spawn_friendly, depth, scale, precipitation },
                    ),
                )
            },
            BiomeVariant::Format8 => {
                let precipitation = read_legacy_precipitation(j)?;
                Ok(BiomeFormatData::Format8(BiomeDataFormat8 { precipitation }))
            },
            BiomeVariant::Format10 => {
                let precipitation = read_legacy_precipitation(j)?;
                Ok(BiomeFormatData::Format10(BiomeDataFormat10 { precipitation }))
            },
            BiomeVariant::Format12 => {
                let has_precipitation = j.bool_member("has_precipitation")?;
                Ok(BiomeFormatData::Format12(BiomeDataFormat12 { has_precipitation }))
            },
        }
    }
}

impl BiomeElement {
    /// A biome of the given name and fields.
    pub fn new(name: ResourceLocation, shared_data: BiomeSharedData, format_data: BiomeFormatData)
        -> (r: BiomeElement)
        ensures
            r.name == name,
            r.shared_data == shared_data,
            r.format_data == format_data,
    {
        BiomeElement { name, shared_data, format_data }
    }

    /// A biome of the given name and fields, which are of one shape.
    pub fn from_single_format(
        name: ResourceLocation,
        shared_data: BiomeSharedData,
        format_data: BiomeFormatData,
    ) -> (r: BiomeElement)
        ensures
            r.name == name,
            r.shared_data == shared_data,
            r.format_data == format_data,
    {
        BiomeElement::new(name, shared_data, format_data)
    }

    /// Reads a biome from its JSON document under a pack format. The shape of
    /// the format-dependent fields is the one that the format selects; what
    /// the document has of the other shapes is not looked at.
    pub fn from_json(name: ResourceLocation, format: &DatapackFormat, j: &JsonValue) -> (r: Result<
        BiomeElement,
        DatapackError,
    >)
        ensures
            match biome_of(*format, j@) {
                Some(data) => r matches Ok(biome) && biome@ == (BiomeView { name: name@, data }),
                None => r matches Err(e) && e.describes(Fault::Deserialize),
            },
    {
        let shared_data = BiomeSharedData::from_json(j)?;
        let format_data = BiomeFormatData::from_json(select_variant(format), j)?;
        Ok(BiomeElement::from_single_format(name, shared_data, format_data))
    }

    /// Reads a biome from the text of its file under a pack format. A text
    /// that is no JSON document, or that writes no biome of the shape that
    /// the format selects, gives a `Deserialize` error.
    pub fn deserialize(name: ResourceLocation, format: &DatapackFormat, json: &str) -> (r: Result<
        Box<BiomeElement>,
        DatapackError,
    >)
        ensures
            match biome_of_text(*format, json@) {
                Some(data) => r matches Ok(biome) && biome@ == (BiomeView { name: name@, data }),
                None => r matches Err(e) && e.describes(Fault::Deserialize),
            },
    {
        let document = parse_json(json)?;
        let biome = BiomeElement::from_json(name, format, &document)?;
        Ok(Box::new(biome))
    }

    /// The id of the biome whose file a path names, if it names one.
    pub fn match_file(path: &str) -> (r: Option<String>)
        ensures
            match r {
                Some(id) => crate::path::biome_id(path@) == Some(id@),
                None => crate::path::biome_id(path@) is None,
            },
    {
        crate::path::biome_id_of(path)
    }
}

/// The shape of a biome that was read is the one that the pack format
/// selects.
pub proof fn lemma_variant_by_format(format: DatapackFormat, j: Json)
    requires
        biome_of(format, j) is Some,
    ensures
        biome_of(format, j)->0.format_data.variant() == variant_of(format),
        format.number() >= 12 <==> biome_of(format, j)->0.format_data is Format12,
{
}

/// Under the boolean-precipitation format or a later one, a document with
/// the boolean `has_precipitation` and the shared fields is read in that
/// shape, and one without it is rejected, whatever else it holds. Under an
/// older format the same holds of `precipitation`.
pub proof fn lemma_precipitation_by_format(format: DatapackFormat, j: Json)
    ensures
        format.number() >= 12 && required_flag(j, "has_precipitation"@) is None ==> biome_of(
            format,
            j,
        ) is None,
        format.number() >= 12 && shared_data_of(j) is Some ==> (biome_of(format, j) is Some
            <==> required_flag(j, "has_precipitation"@) is Some),
        format.number() >= 12 && biome_of(format, j) is Some ==> biome_of(format, j)->0.format_data
            == BiomeFormatData::Format12(
            BiomeDataFormat12 { has_precipitation: required_flag(j, "has_precipitation"@)->0 },
        ),
        format.number() < 12 && legacy_precipitation(j) is None ==> biome_of(format, j) is None,
        8 <= format.number() < 12 && shared_data_of(j) is Some ==> (biome_of(format, j) is Some
            <==> legacy_precipitation(j) is Some),
{
}

/// Reading the same document under the same format twice gives biomes with
/// the same view, or fails both times.
pub proof fn lemma_deserialize_repeatable(
    format: DatapackFormat,
    text: Seq<char>,
    name: (Seq<char>, Seq<char>),
    first: Result<Box<BiomeElement>, DatapackError>,
    second: Result<Box<BiomeElement>, DatapackError>,
)
    requires
        match biome_of_text(format, text) {
            Some(data) => first matches Ok(biome) && biome@ == (BiomeView { name, data }),
            None => first matches Err(e) && e.describes(Fault::Deserialize),
        },
        match biome_of_text(format, text) {
            Some(data) => second matches Ok(biome) && biome@ == (BiomeView { name, data }),
            None => second matches Err(e) && e.describes(Fault::Deserialize),
        },
    ensures
        first is Ok <==> second is Ok,
        first is Ok ==> first->Ok_0@ == second->Ok_0@,
        first is Err ==> first->Err_0.spec_kind() == second->Err_0.spec_kind(),
{
}

} // verus!
