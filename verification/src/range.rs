//! Format ranges: a pair of formats, written in a manifest as one integer,
//! as a pair of integers, or as an object with `min_inclusive` and
//! `max_inclusive`.

use crate::error::DatapackError;
use crate::error::Fault;
use crate::format::format_of_number;
use crate::format::DatapackFormat;
use crate::json::Json;
use crate::json::JsonNumber;
use crate::json::JsonValue;
use crate::strings::decimal_string;
use crate::strings::digits_string;
use vstd::prelude::*;

verus! {

/// An inclusive range of formats.
#[derive(Debug, Clone, Copy, PartialEq, Eq, Hash, Structural)]
pub struct FormatRange {
    pub min: DatapackFormat,
    pub max: DatapackFormat,
}

impl FormatRange {
    /// Whether the range is allowed: its bounds are in order, and a range of
    /// more than one format starts at a format in which overlays exist.
    pub open spec fn valid(self) -> bool {
        &&& self.min.number() <= self.max.number()
        &&& (self.min != self.max ==> self.min.overlays_supported())
    }

    /// The range of one format.
    pub fn single(format: DatapackFormat) -> (r: FormatRange)
        ensures
            r == (FormatRange { min: format, max: format }),
            r.valid(),
    {
        FormatRange { min: format, max: format }
    }

    /// Whether the range is allowed.
    pub fn is_valid(&self) -> (r: bool)
        ensures
            r == self.valid(),
    {
        let min: u8 = self.min.format_number();
        let max: u8 = self.max.format_number();
        min <= max && (min == max || self.min.supports_overlays())
    }

    /// Whether a format lies in the range.
    pub fn contains(&self, format: DatapackFormat) -> (r: bool)
        ensures
            r == (self.min.number() <= format.number() <= self.max.number()),
    {
        let n: u8 = format.format_number();
        self.min.format_number() <= n && n <= self.max.format_number()
    }
}

/// The two integers that a document writes a range with: `n` for the integer
/// `n` twice, `[a, b]`, or an object with the integers `min_inclusive` and
/// `max_inclusive`. Any other document writes no range.
pub open spec fn range_bounds(j: Json) -> Option<(int, int)> {
    match j {
        Json::Number(_) => match j.integer() {
            Some(n) => Some((n, n)),
            None => None,
        },
        Json::Array(items) => if items.len() == 2 {
            match (items[0].integer(), items[1].integer()) {
                (Some(a), Some(b)) => Some((a, b)),
                _ => None,
            }
        } else {
            None
        },
        Json::Object(_) => match (j.member("min_inclusive"@), j.member("max_inclusive"@)) {
            (Some(a), Some(b)) => match (a.integer(), b.integer()) {
                (Some(a), Some(b)) => Some((a, b)),
                _ => None,
            },
            _ => None,
        },
        _ => None,
    }
}

/// The format of an integer code, or the `Format` fault that names the code.
pub open spec fn resolve_format(n: int) -> Result<DatapackFormat, Fault> {
    match format_of_number(n) {
        Some(format) => Ok(format),
        None => Err(Fault::Format(n)),
    }
}

/// The range of two integer codes, each resolved by itself, the lower bound
/// first.
pub open spec fn resolve_range(bounds: (int, int)) -> Result<FormatRange, Fault> {
    match resolve_format(bounds.0) {
        Err(fault) => Err(fault),
        Ok(min) => match resolve_format(bounds.1) {
            Err(fault) => Err(fault),
            Ok(max) => Ok(FormatRange { min, max }),
        },
    }
}

/// The range that a document writes: a `Deserialize` fault where it writes
/// none, a `Format` fault where a bound is no known code. Whether the range
/// is allowed is not asked here.
pub open spec fn range_of(j: Json) -> Result<FormatRange, Fault> {
    match range_bounds(j) {
        None => Err(Fault::Deserialize),
        Some(bounds) => resolve_range(bounds),
    }
}

/// The integer of a JSON number, where it is one.
pub open spec fn number_integer(n: JsonNumber) -> Option<int> {
    Json::Number(n).integer()
}

/// Resolves the code that a JSON number holds. `None` for a number that is
/// no integer; an integer that is no known code gives a `Format` error that
/// carries it.
pub fn format_of_json_number(n: &JsonNumber) -> (r: Option<Result<DatapackFormat, DatapackError>>)
    ensures
        match number_integer(*n) {
            None => r is None,
            Some(k) => r matches Some(x) && match resolve_format(k) {
                Ok(format) => x == Ok::<_, DatapackError>(format),
                Err(fault) => x matches Err(e) && e.describes(fault),
            },
        },
{
    match n {
        JsonNumber::PosInt(u) => {
            if *u <= 41 {
                match DatapackFormat::from_format_number(*u as i64) {
                    Some(format) => Some(Ok(format)),
                    None => Some(Err(DatapackError::Format(digits_string(*u)))),
                }
            } else {
                Some(Err(DatapackError::Format(digits_string(*u))))
            }
        },
        JsonNumber::NegInt(i) => {
            match DatapackFormat::from_format_number(*i) {
                Some(format) => Some(Ok(format)),
                None => Some(Err(DatapackError::Format(decimal_string(*i)))),
            }
        },
        JsonNumber::Float(_) => None,
    }
}

/// The code that a document holds, resolved; a `Deserialize` error where the
/// document is no integer.
pub fn format_from_json(j: &JsonValue) -> (r: Result<DatapackFormat, DatapackError>)
    ensures
        match j@.integer() {
            None => r matches Err(e) && e.describes(Fault::Deserialize),
            Some(k) => match resolve_format(k) {
                Ok(format) => r == Ok::<_, DatapackError>(format),
                Err(fault) => r matches Err(e) && e.describes(fault),
            },
        },
{
    match j {
        JsonValue::Number(n) => match format_of_json_number(n) {
            Some(r) => r,
            None => Err(DatapackError::Deserialize("format".to_owned())),
        },
        _ => Err(DatapackError::Deserialize("format".to_owned())),
    }
}

impl FormatRange {
    /// Reads a range in any of its three forms.
    pub fn from_json(j: &JsonValue) -> (r: Result<FormatRange, DatapackError>)
        ensures
            match range_of(j@) {
                Ok(range) => r == Ok::<_, DatapackError>(range),
                Err(fault) => r matches Err(e) && e.describes(fault),
            },
    {
        match j {
            JsonValue::Number(_) => {
                let format = format_from_json(j)?;
                Ok(FormatRange { min: format, max: format })
            },
            JsonValue::Array(items) => {
                if items.len() != 2 {
                    return Err(DatapackError::Deserialize("formats".to_owned()));
                }
                assert(j@->Array_0[0] == items@[0]@);
                assert(j@->Array_0[1] == items@[1]@);
                FormatRange::from_bounds(&items[0], &items[1])
            },
            JsonValue::Object(_) => {
                match (j.get("min_inclusive"), j.get("max_inclusive")) {
                    (Some(a), Some(b)) => FormatRange::from_bounds(a, b),
                    _ => Err(DatapackError::Deserialize("formats".to_owned())),
                }
            },
            _ => Err(DatapackError::Deserialize("formats".to_owned())),
        }
    }

    /// Reads a range from its two bounds: both must be integers, and each is
    /// then resolved, the lower bound first.
    fn from_bounds(a: &JsonValue, b: &JsonValue) -> (r: Result<FormatRange, DatapackError>)
        ensures
            match (a@.integer(), b@.integer()) {
                (Some(x), Some(y)) => match resolve_range((x, y)) {
                    Ok(range) => r == Ok::<_, DatapackError>(range),
                    Err(fault) => r matches Err(e) && e.describes(fault),
                },
                _ => r matches Err(e) && e.describes(Fault::Deserialize),
            },
    {
        if a.as_whole().is_none() || b.as_whole().is_none() {
            return Err(DatapackError::Deserialize("formats".to_owned()));
        }
        let min = format_from_json(a)?;
        let max = format_from_json(b)?;
        Ok(FormatRange { min, max })
    }
}

/// The three ways of writing a range of one format say the same range.
pub proof fn lemma_range_forms_agree(n: int, single: Json, pair: Json, object: Json)
    requires
        single.integer() == Some(n),
        pair matches Json::Array(items) && items.len() == 2 && items[0].integer() == Some(n)
            && items[1].integer() == Some(n),
        object is Object,
        object.member("min_inclusive"@) matches Some(a) && a.integer() == Some(n),
        object.member("max_inclusive"@) matches Some(b) && b.integer() == Some(n),
    ensures
        range_of(single) == range_of(pair),
        range_of(single) == range_of(object),
        format_of_number(n) matches Some(format) ==> range_of(single) == Ok::<_, Fault>(
            FormatRange { min: format, max: format },
        ),
{
}

/// A range of one format is always allowed.
pub proof fn lemma_single_range_valid(format: DatapackFormat)
    ensures
        (FormatRange { min: format, max: format }).valid(),
{
}

/// A range of more than one format is allowed exactly when it is in order
/// and starts at the threshold format or later.
pub proof fn lemma_wide_range_valid(range: FormatRange)
    requires
        range.min != range.max,
    ensures
        range.valid() <==> (range.min.number() < range.max.number() && range.min.number() >= 18),
{
}

} // verus!
