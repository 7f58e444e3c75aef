//! The catalog of known pack formats, their integer codes, the game versions
//! they denote and their order.

use core::cmp::Ordering;
use vstd::prelude::*;
use vstd::std_specs::cmp::PartialOrdSpec;
use vstd::std_specs::cmp::PartialOrdSpecImpl;

verus! {

/// A known pack format. The variants are listed from the oldest to the newest.
#[derive(Debug, Clone, Copy, PartialEq, Eq, Ord, Hash, Structural)]
pub enum DatapackFormat {
    Format6,
    Format7,
    Format8,
    Format9,
    Format10,
    Format12,
    Format15,
    Format18,
    Format26,
    Format41,
}

/// A game version as `(major, minor)`, ordered lexicographically.
pub open spec fn version_before(a: (i32, i32), b: (i32, i32)) -> bool {
    a.0 < b.0 || (a.0 == b.0 && a.1 < b.1)
}

/// The format that an integer code denotes, if any.
pub open spec fn format_of_number(n: int) -> Option<DatapackFormat> {
    if n == 6 {
        Some(DatapackFormat::Format6)
    } else if n == 7 {
        Some(DatapackFormat::Format7)
    } else if n == 8 {
        Some(DatapackFormat::Format8)
    } else if n == 9 {
        Some(DatapackFormat::Format9)
    } else if n == 10 {
        Some(DatapackFormat::Format10)
    } else if n == 12 {
        Some(DatapackFormat::Format12)
    } else if n == 15 {
        Some(DatapackFormat::Format15)
    } else if n == 18 {
        Some(DatapackFormat::Format18)
    } else if n == 26 {
        Some(DatapackFormat::Format26)
    } else if n == 41 {
        Some(DatapackFormat::Format41)
    } else {
        None
    }
}

impl DatapackFormat {
    /// The integer code of the format.
    pub open spec fn number(self) -> u8 {
        match self {
            DatapackFormat::Format6 => 6,
            DatapackFormat::Format7 => 7,
            DatapackFormat::Format8 => 8,
            DatapackFormat::Format9 => 9,
            DatapackFormat::Format10 => 10,
            DatapackFormat::Format12 => 12,
            DatapackFormat::Format15 => 15,
            DatapackFormat::Format18 => 18,
            DatapackFormat::Format26 => 26,
            DatapackFormat::Format41 => 41,
        }
    }

    /// The oldest game version that the format denotes.
    pub open spec fn first_version(self) -> (i32, i32) {
        match self {
            DatapackFormat::Format6 => (16, 2),
            DatapackFormat::Format7 => (17, 0),
            DatapackFormat::Format8 => (18, 0),
            DatapackFormat::Format9 => (18, 2),
            DatapackFormat::Format10 => (19, 0),
            DatapackFormat::Format12 => (19, 4),
            DatapackFormat::Format15 => (20, 0),
            DatapackFormat::Format18 => (20, 2),
            DatapackFormat::Format26 => (20, 3),
            DatapackFormat::Format41 => (20, 5),
        }
    }

    /// The newest game version that the format denotes.
    pub open spec fn last_version(self) -> (i32, i32) {
        match self {
            DatapackFormat::Format6 => (16, 5),
            DatapackFormat::Format7 => (17, 1),
            DatapackFormat::Format8 => (18, 1),
            DatapackFormat::Format9 => (18, 2),
            DatapackFormat::Format10 => (19, 3),
            DatapackFormat::Format12 => (19, 4),
            DatapackFormat::Format15 => (20, 1),
            DatapackFormat::Format18 => (20, 2),
            DatapackFormat::Format26 => (20, 4),
            DatapackFormat::Format41 => (20, 5),
        }
    }

    /// Whether overlays exist in this format: it is the threshold format or a
    /// later one.
    pub open spec fn overlays_supported(self) -> bool {
        self.number() >= DatapackFormat::Format18.number()
    }

    /// The integer code of the format.
    pub fn format_number(&self) -> (n: u8)
        ensures
            n == self.number(),
    {
        match self {
            DatapackFormat::Format6 => 6,
            DatapackFormat::Format7 => 7,
            DatapackFormat::Format8 => 8,
            DatapackFormat::Format9 => 9,
            DatapackFormat::Format10 => 10,
            DatapackFormat::Format12 => 12,
            DatapackFormat::Format15 => 15,
            DatapackFormat::Format18 => 18,
            DatapackFormat::Format26 => 26,
            DatapackFormat::Format41 => 41,
        }
    }

    /// Resolves an integer code. A code that the catalog does not list gives
    /// `None`; it is never rounded to a neighbouring format.
    pub fn from_format_number(n: i64) -> (r: Option<DatapackFormat>)
        ensures
            r == format_of_number(n as int),
    {
        if n == 6 {
            Some(DatapackFormat::Format6)
        } else if n == 7 {
            Some(DatapackFormat::Format7)
        } else if n == 8 {
            Some(DatapackFormat::Format8)
        } else if n == 9 {
            Some(DatapackFormat::Format9)
        } else if n == 10 {
            Some(DatapackFormat::Format10)
        } else if n == 12 {
            Some(DatapackFormat::Format12)
        } else if n == 15 {
            Some(DatapackFormat::Format15)
        } else if n == 18 {
            Some(DatapackFormat::Format18)
        } else if n == 26 {
            Some(DatapackFormat::Format26)
        } else if n == 41 {
            Some(DatapackFormat::Format41)
        } else {
            None
        }
    }

    /// The inclusive span of game versions that the format denotes, oldest
    /// first.
    pub fn get_version_range(&self) -> (r: [(i32, i32); 2])
        ensures
            r[0] == self.first_version(),
            r[1] == self.last_version(),
    {
        match *self {
            DatapackFormat::Format6 => [(16, 2), (16, 5)],
            DatapackFormat::Format7 => [(17, 0), (17, 1)],
            DatapackFormat::Format8 => [(18, 0), (18, 1)],
            DatapackFormat::Format9 => [(18, 2), (18, 2)],
            DatapackFormat::Format10 => [(19, 0), (19, 3)],
            DatapackFormat::Format12 => [(19, 4), (19, 4)],
            DatapackFormat::Format15 => [(20, 0), (20, 1)],
            DatapackFormat::Format18 => [(20, 2), (20, 2)],
            DatapackFormat::Format26 => [(20, 3), (20, 4)],
            DatapackFormat::Format41 => [(20, 5), (20, 5)],
        }
    }

    /// The oldest format in which overlays exist.
    pub fn get_minimum_overlay_version() -> (r: DatapackFormat)
        ensures
            r == DatapackFormat::Format18,
    {
        DatapackFormat::Format18
    }

    /// Whether overlays exist in this format.
    pub fn supports_overlays(&self) -> (r: bool)
        ensures
            r == self.overlays_supported(),
    {
        self.format_number() >= DatapackFormat::get_minimum_overlay_version().format_number()
    }

    /// Every known format, from the oldest to the newest.
    pub fn variants() -> (r: Vec<DatapackFormat>)
        ensures
            r@ == all_formats(),
    {
        let r = vec![
            DatapackFormat::Format6,
            DatapackFormat::Format7,
            DatapackFormat::Format8,
            DatapackFormat::Format9,
            DatapackFormat::Format10,
            DatapackFormat::Format12,
            DatapackFormat::Format15,
            DatapackFormat::Format18,
            DatapackFormat::Format26,
            DatapackFormat::Format41,
        ];
        assert(r@ =~= all_formats());
        r
    }
}

/// Every known format, from the oldest to the newest.
pub open spec fn all_formats() -> Seq<DatapackFormat> {
    seq![
        DatapackFormat::Format6,
        DatapackFormat::Format7,
        DatapackFormat::Format8,
        DatapackFormat::Format9,
        DatapackFormat::Format10,
        DatapackFormat::Format12,
        DatapackFormat::Format15,
        DatapackFormat::Format18,
        DatapackFormat::Format26,
        DatapackFormat::Format41,
    ]
}

impl PartialOrd for DatapackFormat {
    /// Formats are ordered by their integer codes.
    fn partial_cmp(&self, other: &Self) -> (r: Option<Ordering>) {
        let a: u8 = self.format_number();
        let b: u8 = other.format_number();
        if a < b {
            Some(Ordering::Less)
        } else if a == b {
            Some(Ordering::Equal)
        } else {
            Some(Ordering::Greater)
        }
    }
}

impl PartialOrdSpecImpl for DatapackFormat {
    open spec fn obeys_partial_cmp_spec() -> bool {
        true
    }

    open spec fn partial_cmp_spec(&self, other: &Self) -> Option<Ordering> {
        if self.number() < other.number() {
            Some(Ordering::Less)
        } else if self.number() == other.number() {
            Some(Ordering::Equal)
        } else {
            Some(Ordering::Greater)
        }
    }
}

/// Resolving the code of a format gives that format back, and a code that
/// resolves is the code of what it resolves to.
pub proof fn lemma_format_number_round_trip(f: DatapackFormat, n: int)
    ensures
        format_of_number(f.number() as int) == Some(f),
        format_of_number(n) is Some ==> format_of_number(n).unwrap().number() == n,
{
}

/// Two formats with the same code are the same format: the order by codes has
/// no ties among distinct formats.
pub proof fn lemma_format_number_injective(a: DatapackFormat, b: DatapackFormat)
    ensures
        a.number() == b.number() <==> a == b,
{
}

/// The comparison operators on formats agree with the comparison of their
/// codes.
pub proof fn lemma_format_order_by_number(a: DatapackFormat, b: DatapackFormat)
    ensures
        PartialOrdSpec::partial_cmp_spec(&a, &b) == Some(Ordering::Less) <==> a.number() < b.number(),
        PartialOrdSpec::partial_cmp_spec(&a, &b) == Some(Ordering::Equal) <==> a.number() == b.number(),
        PartialOrdSpec::partial_cmp_spec(&a, &b) == Some(Ordering::Greater) <==> a.number() > b.number(),
        (PartialOrdSpec::partial_cmp_spec(&a, &b) matches Some(Ordering::Greater | Ordering::Equal)) <==> a.number()
            >= b.number(),
{
}

/// The order of formats is total and strict: of two formats exactly one is
/// before the other, or they are the same; and the order is transitive.
pub proof fn lemma_format_order_total(a: DatapackFormat, b: DatapackFormat, c: DatapackFormat)
    ensures
        PartialOrdSpec::partial_cmp_spec(&a, &b) is Some,
        PartialOrdSpec::partial_cmp_spec(&a, &b) == Some(Ordering::Equal) <==> a == b,
        PartialOrdSpec::partial_cmp_spec(&a, &b) == Some(Ordering::Less)
            <==> PartialOrdSpec::partial_cmp_spec(&b, &a) == Some(Ordering::Greater),
        PartialOrdSpec::partial_cmp_spec(&a, &b) == Some(Ordering::Less)
            && PartialOrdSpec::partial_cmp_spec(&b, &c) == Some(Ordering::Less)
            ==> PartialOrdSpec::partial_cmp_spec(&a, &c) == Some(Ordering::Less),
{
}

/// A format with a larger code denotes strictly later game versions.
pub proof fn lemma_format_recency(a: DatapackFormat, b: DatapackFormat)
    requires
        a.number() < b.number(),
    ensures
        version_before(a.last_version(), b.first_version()),
        !version_before(a.last_version(), a.first_version()),
{
}

/// Overlays exist in exactly the formats from the threshold format on, which
/// are the last three of the catalog.
pub proof fn lemma_overlay_threshold(f: DatapackFormat)
    ensures
        f.overlays_supported() <==> f.number() >= 18,
        f.overlays_supported() <==> (f == DatapackFormat::Format18 || f == DatapackFormat::Format26
            || f == DatapackFormat::Format41),
{
}

} // verus!
