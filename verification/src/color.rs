//! Text colours: one of sixteen names, or a number.

use crate::error::DatapackError;
use crate::error::Fault;
use crate::strings::parse_u32;
use crate::strings::str_equal;
use crate::strings::unsigned_value;
use vstd::prelude::*;

verus! {

/// The colour of a text: a number, or one of the sixteen names.
#[derive(Debug, Clone, PartialEq, Eq)]
pub enum Color {
    Hex(u32),
    Name(String),
}

/// A colour, as a mathematical value.
pub enum ColorView {
    Hex(u32),
    Name(Seq<char>),
}

impl View for Color {
    type V = ColorView;

    open spec fn view(&self) -> ColorView {
        match self {
            Color::Hex(value) => ColorView::Hex(*value),
            Color::Name(name) => ColorView::Name(name@),
        }
    }
}

/// The number of a named colour; `None` for a text that is none of the
/// sixteen names.
pub open spec fn named_color(name: Seq<char>) -> Option<u32> {
    if name == "black"@ {
        Some(0x000000)
    } else if name == "dark_blue"@ {
        Some(0x0000AA)
    } else if name == "dark_green"@ {
        Some(0x00AA00)
    } else if name == "dark_aqua"@ {
        Some(0x00AAAA)
    } else if name == "dark_red"@ {
        Some(0xAA0000)
    } else if name == "dark_purple"@ {
        Some(0xAA00AA)
    } else if name == "gold"@ {
        Some(0xFFAA00)
    } else if name == "gray"@ {
        Some(0xAAAAAA)
    } else if name == "dark_gray"@ {
        Some(0x555555)
    } else if name == "blue"@ {
        Some(0x5555FF)
    } else if name == "green"@ {
        Some(0x55FF55)
    } else if name == "aqua"@ {
        Some(0x55FFFF)
    } else if name == "red"@ {
        Some(0xFF5555)
    } else if name == "light_purple"@ {
        Some(0xFF55FF)
    } else if name == "yellow"@ {
        Some(0xFFFF55)
    } else if name == "white"@ {
        Some(0xFFFFFF)
    } else {
        None
    }
}

/// The colour that a text denotes: a number where the text is an unsigned
/// decimal of at most 32 bits, else a name where it is one of the sixteen.
pub open spec fn color_of_text(s: Seq<char>) -> Option<ColorView> {
    if unsigned_value(s) is Some && unsigned_value(s).unwrap() <= u32::MAX {
        Some(ColorView::Hex(unsigned_value(s).unwrap() as u32))
    } else if named_color(s) is Some {
        Some(ColorView::Name(s))
    } else {
        None
    }
}

impl ColorView {
    /// The number of the colour; `None` for a name that is none of the
    /// sixteen.
    pub open spec fn number(self) -> Option<u32> {
        match self {
            ColorView::Hex(value) => Some(value),
            ColorView::Name(name) => named_color(name),
        }
    }
}

impl Color {
    /// The number of the colour; `None` for a name that is none of the
    /// sixteen.
    pub fn get_color(&self) -> (r: Option<u32>)
        ensures
            r == self@.number(),
    {
        match self {
            Color::Hex(value) => Some(*value),
            Color::Name(name) => Color::get_color_from_str(name.as_str()),
        }
    }

    /// The number of a named colour.
    pub fn get_color_from_str(name: &str) -> (r: Option<u32>)
        ensures
            r == named_color(name@),
    {
        if str_equal(name, "black") {
            Some(0x000000)
        } else if str_equal(name, "dark_blue") {
            Some(0x0000AA)
        } else if str_equal(name, "dark_green") {
            Some(0x00AA00)
        } else if str_equal(name, "dark_aqua") {
            Some(0x00AAAA)
        } else if str_equal(name, "dark_red") {
            Some(0xAA0000)
        } else if str_equal(name, "dark_purple") {
            Some(0xAA00AA)
        } else if str_equal(name, "gold") {
            Some(0xFFAA00)
        } else if str_equal(name, "gray") {
            Some(0xAAAAAA)
        } else if str_equal(name, "dark_gray") {
            Some(0x555555)
        } else if str_equal(name, "blue") {
            Some(0x5555FF)
        } else if str_equal(name, "green") {
            Some(0x55FF55)
        } else if str_equal(name, "aqua") {
            Some(0x55FFFF)
        } else if str_equal(name, "red") {
            Some(0xFF5555)
        } else if str_equal(name, "light_purple") {
            Some(0xFF55FF)
        } else if str_equal(name, "yellow") {
            Some(0xFFFF55)
        } else if str_equal(name, "white") {
            Some(0xFFFFFF)
        } else {
            None
        }
    }

    /// Reads a colour: a decimal number, or one of the sixteen names. Any
    /// other text gives a `Deserialize` error.
    pub fn parse(s: &str) -> (r: Result<Color, DatapackError>)
        ensures
            match color_of_text(s@) {
                Some(color) => r matches Ok(c) && c@ == color,
                None => r matches Err(e) && e.describes(Fault::Deserialize) && e.spec_payload()
                    == s@,
            },
    {
        if let Some(value) = parse_u32(s) {
            Ok(Color::Hex(value))
        } else if Color::get_color_from_str(s).is_some() {
            Ok(Color::Name(s.to_owned()))
        } else {
            Err(DatapackError::Deserialize(s.to_owned()))
        }
    }
}

/// A colour that was read from a text has a number.
pub proof fn lemma_parsed_color_has_number(s: Seq<char>)
    requires
        color_of_text(s) is Some,
    ensures
        color_of_text(s).unwrap().number() is Some,
{
}

} // verus!
