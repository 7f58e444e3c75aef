//! Overlays as the editor keeps them: a directory name and the formats it
//! applies to.

use crate::error::DatapackError;
use crate::error::Fault;
use crate::format::DatapackFormat;
use crate::manifest::OverlayView;
use crate::manifest::SerializableOverlayEntry;
use crate::range::resolve_format;
use crate::range::FormatRange;
use crate::strings::decimal_string;
use vstd::prelude::*;

verus! {

/// An overlay: the name of its directory, and the first and last format for
/// which its content replaces the root content.
#[derive(Debug, PartialEq, Eq)]
pub struct Overlay {
    pub name: String,
    pub min_format: DatapackFormat,
    pub max_format: DatapackFormat,
}

impl View for Overlay {
    type V = OverlayView;

    open spec fn view(&self) -> OverlayView {
        OverlayView {
            formats: FormatRange { min: self.min_format, max: self.max_format },
            directory: self.name@,
        }
    }
}

/// The overlay of a name and two formats: an `Overlay` fault that names the
/// overlay where the formats are no allowed range.
pub open spec fn overlay_of_formats(name: Seq<char>, min: DatapackFormat, max: DatapackFormat)
    -> Result<OverlayView, Fault> {
    let formats = FormatRange { min, max };
    if formats.valid() {
        Ok(OverlayView { formats, directory: name })
    } else {
        Err(Fault::Overlay(name))
    }
}

/// The overlay of a name and two integer codes: each code is resolved by
/// itself, the lower bound first, and the formats must then be an allowed
/// range.
pub open spec fn overlay_of_codes(name: Seq<char>, min: int, max: int) -> Result<OverlayView, Fault> {
    match resolve_format(min) {
        Err(fault) => Err(fault),
        Ok(min_format) => match resolve_format(max) {
            Err(fault) => Err(fault),
            Ok(max_format) => overlay_of_formats(name, min_format, max_format),
        },
    }
}

/// Resolves an integer code; a code that is no known format gives a `Format`
/// error that carries it.
pub fn format_of_code(code: i32) -> (r: Result<DatapackFormat, DatapackError>)
    ensures
        match resolve_format(code as int) {
            Ok(format) => r == Ok::<_, DatapackError>(format),
            Err(fault) => r matches Err(e) && e.describes(fault),
        },
{
    match DatapackFormat::from_format_number(code as i64) {
        Some(format) => Ok(format),
        None => Err(DatapackError::Format(decimal_string(code as i64))),
    }
}

impl Overlay {
    /// The overlay of one format.
    pub fn from_single_format(name: String, format: DatapackFormat) -> (r: Result<
        Overlay,
        DatapackError,
    >)
        ensures
            r matches Ok(overlay) && overlay@ == (OverlayView {
                formats: FormatRange { min: format, max: format },
                directory: name@,
            }),
    {
        Overlay::from_formats(name, format, format)
    }

    /// The overlay of a range of formats. The range must be in order, and a
    /// range of more than one format must start at a format in which
    /// overlays exist; else an `Overlay` error that carries the name.
    pub fn from_formats(name: String, min_format: DatapackFormat, max_format: DatapackFormat) -> (r:
        Result<Overlay, DatapackError>)
        ensures
            crate::error::agrees(r, overlay_of_formats(name@, min_format, max_format)),
    {
        if min_format.format_number() > max_format.format_number() {
            return Err(DatapackError::Overlay(name));
        }
        if !min_format.supports_overlays() && min_format != max_format {
            return Err(DatapackError::Overlay(name));
        }
        Ok(Overlay { name, min_format, max_format })
    }

    /// The overlay of one integer code.
    pub fn from_single_int_format(name: String, format_int: i32) -> (r: Result<
        Overlay,
        DatapackError,
    >)
        ensures
            crate::error::agrees(r, overlay_of_codes(name@, format_int as int, format_int as int)),
    {
        Overlay::from_int_formats(name, format_int, format_int)
    }

    /// The overlay of two integer codes.
    pub fn from_int_formats(name: String, min_format_int: i32, max_format_int: i32) -> (r: Result<
        Overlay,
        DatapackError,
    >)
        ensures
            crate::error::agrees(
                r,
                overlay_of_codes(name@, min_format_int as int, max_format_int as int),
            ),
    {
        let min_format = format_of_code(min_format_int)?;
        let max_format = format_of_code(max_format_int)?;
        Overlay::from_formats(name, min_format, max_format)
    }

    /// The overlay that a manifest declares.
    pub fn try_from(value: SerializableOverlayEntry) -> (r: Result<Overlay, DatapackError>)
        ensures
            crate::error::agrees(
                r,
                overlay_of_formats(value.directory@, value.formats.min, value.formats.max),
            ),
    {
        Overlay::from_formats(value.directory, value.formats.min, value.formats.max)
    }

    /// The declaration that the overlay stands for.
    pub fn to_entry(&self) -> (r: SerializableOverlayEntry)
        ensures
            r@ == self@,
    {
        SerializableOverlayEntry {
            formats: FormatRange { min: self.min_format, max: self.max_format },
            directory: self.name.clone(),
        }
    }
}

impl Default for Overlay {
    /// An overlay without a name, for the threshold format alone.
    fn default() -> (r: Overlay)
        ensures
            r@ == (OverlayView {
                formats: FormatRange {
                    min: DatapackFormat::Format18,
                    max: DatapackFormat::Format18,
                },
                directory: Seq::empty(),
            }),
    {
        Overlay {
            name: String::new(),
            min_format: DatapackFormat::Format18,
            max_format: DatapackFormat::Format18,
        }
    }
}

/// An overlay of one format is accepted at every format; a range that
/// starts below the threshold format and ends at another format is rejected
/// with an `Overlay` fault, and so is a range out of order.
pub proof fn lemma_overlay_ranges(name: Seq<char>, min: DatapackFormat, max: DatapackFormat)
    ensures
        overlay_of_formats(name, min, min) is Ok,
        !min.overlays_supported() && min != max ==> overlay_of_formats(name, min, max) == Err::<
            OverlayView,
            _,
        >(Fault::Overlay(name)),
        min.number() > max.number() ==> overlay_of_formats(name, min, max) == Err::<OverlayView, _>(
            Fault::Overlay(name),
        ),
        overlay_of_formats(name, min, max) is Ok <==> (min == max || (min.overlays_supported()
            && min.number() < max.number())),
{
}

} // verus!
