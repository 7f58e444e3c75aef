//! Rich text: the nodes that a pack description is written in, as the
//! manifest holds them and as the library keeps them.

use crate::color::color_of_text;
use crate::color::Color;
use crate::color::ColorView;
use crate::error::DatapackError;
use crate::error::Fault;
use crate::json::json_views;
use crate::json::lemma_member_decreases;
use crate::json::optional_flag;
use crate::json::optional_text;
use crate::json::Json;
use crate::json::JsonValue;
use crate::location::ResourceLocation;
use vstd::prelude::*;

verus! {

/// A rich-text node as a manifest writes it: a bare string, a list of nodes,
/// or an object with optional members.
#[derive(Debug, PartialEq, Eq)]
pub enum SerializableText {
    String(String),
    List(Vec<SerializableText>),
    Object {
        text: Option<String>,
        translate: Option<String>,
        extra: Option<Vec<SerializableText>>,
        color: Option<String>,
        font: Option<ResourceLocation>,
        bold: Option<bool>,
        italic: Option<bool>,
        underlined: Option<bool>,
        strikethrough: Option<bool>,
        obfuscated: Option<bool>,
    },
}

/// A rich-text node as a manifest writes it, as a mathematical value.
pub enum RawText {
    String(Seq<char>),
    List(Seq<RawText>),
    Object {
        text: Option<Seq<char>>,
        translate: Option<Seq<char>>,
        extra: Option<Seq<RawText>>,
        color: Option<Seq<char>>,
        font: Option<(Seq<char>, Seq<char>)>,
        bold: Option<bool>,
        italic: Option<bool>,
        underlined: Option<bool>,
        strikethrough: Option<bool>,
        obfuscated: Option<bool>,
    },
}

/// A rich-text node: its text, its styling, and the nodes that follow it.
#[derive(Debug, PartialEq, Eq)]
pub struct Text {
    pub text: String,
    pub extra: Vec<Text>,
    pub should_translate: bool,
    pub color: Option<Color>,
    pub font: Option<ResourceLocation>,
    pub is_bold: bool,
    pub is_italic: bool,
    pub is_underlined: bool,
    pub is_strikethrough: bool,
    pub is_obfuscated: bool,
}

/// A rich-text node, as a mathematical value.
pub struct RichText {
    pub text: Seq<char>,
    pub extra: Seq<RichText>,
    pub should_translate: bool,
    pub color: Option<ColorView>,
    pub font: Option<(Seq<char>, Seq<char>)>,
    pub is_bold: bool,
    pub is_italic: bool,
    pub is_underlined: bool,
    pub is_strikethrough: bool,
    pub is_obfuscated: bool,
}

/// The view of an optional string.
pub open spec fn text_option(s: Option<String>) -> Option<Seq<char>> {
    match s {
        Some(s) => Some(s@),
        None => None,
    }
}

/// The view of an optional resource location.
pub open spec fn location_option(l: Option<ResourceLocation>) -> Option<(Seq<char>, Seq<char>)> {
    match l {
        Some(l) => Some(l@),
        None => None,
    }
}

/// The view of an optional colour.
pub open spec fn color_option(c: Option<Color>) -> Option<ColorView> {
    match c {
        Some(c) => Some(c@),
        None => None,
    }
}

/// The node that a [`SerializableText`] stands for.
pub open spec fn raw_view(value: SerializableText) -> RawText
    decreases value,
{
    match value {
        SerializableText::String(s) => RawText::String(s@),
        SerializableText::List(list) => RawText::List(
            Seq::new(
                list@.len(),
                |i: int|
                    if 0 <= i < list@.len() {
                        raw_view(list@[i])
                    } else {
                        RawText::String(Seq::empty())
                    },
            ),
        ),
        SerializableText::Object {
            text,
            translate,
            extra,
            color,
            font,
            bold,
            italic,
            underlined,
            strikethrough,
            obfuscated,
        } => RawText::Object {
            text: text_option(text),
            translate: text_option(translate),
            extra: match extra {
                Some(list) => Some(
                    Seq::new(
                        list@.len(),
                        |i: int|
                            if 0 <= i < list@.len() {
                                raw_view(list@[i])
                            } else {
                                RawText::String(Seq::empty())
                            },
                    ),
                ),
                None => None,
            },
            color: text_option(color),
            font: location_option(font),
            bold,
            italic,
            underlined,
            strikethrough,
            obfuscated,
        },
    }
}

impl View for SerializableText {
    type V = RawText;

    open spec fn view(&self) -> RawText {
        raw_view(*self)
    }
}

/// The node that a [`Text`] stands for.
pub open spec fn rich_view(value: Text) -> RichText
    decreases value,
{
    RichText {
        text: value.text@,
        extra: Seq::new(
            value.extra@.len(),
            |i: int|
                if 0 <= i < value.extra@.len() {
                    rich_view(value.extra@[i])
                } else {
                    plain_text(Seq::empty())
                },
        ),
        should_translate: value.should_translate,
        color: color_option(value.color),
        font: location_option(value.font),
        is_bold: value.is_bold,
        is_italic: value.is_italic,
        is_underlined: value.is_underlined,
        is_strikethrough: value.is_strikethrough,
        is_obfuscated: value.is_obfuscated,
    }
}

impl View for Text {
    type V = RichText;

    open spec fn view(&self) -> RichText {
        rich_view(*self)
    }
}

/// The node of a bare string: the text, with nothing set.
pub open spec fn plain_text(text: Seq<char>) -> RichText {
    RichText {
        text,
        extra: Seq::empty(),
        should_translate: false,
        color: None,
        font: None,
        is_bold: false,
        is_italic: false,
        is_underlined: false,
        is_strikethrough: false,
        is_obfuscated: false,
    }
}

/// A flag that is not set counts as `false`.
pub open spec fn flag(b: Option<bool>) -> bool {
    match b {
        Some(b) => b,
        None => false,
    }
}

impl RichText {
    /// The same node with other following nodes.
    pub open spec fn with_extra(self, extra: Seq<RichText>) -> RichText {
        RichText { extra, ..self }
    }
}

/// The node that a manifest's node is read as, or `None` where it is
/// rejected.
///
/// A bare string is its text. A list stands for its first node, followed by
/// the others; an empty list is rejected, and a list of one node is that
/// node. An object needs `text` or `translate` (`text` wins, `translate`
/// marks the node for translation); its `extra` nodes follow it; its colour
/// must be a colour; a flag that is absent is `false`. A node is rejected
/// where any node inside it is.
pub open spec fn rich_text(raw: RawText) -> Option<RichText>
    decreases raw, 0nat,
{
    match raw {
        RawText::String(s) => Some(plain_text(s)),
        RawText::List(list) => if list.len() == 0 {
            None
        } else if list.len() == 1 {
            rich_text(list[0])
        } else {
            match (rich_text(list[0]), rich_nodes(list, 1)) {
                (Some(root), Some(rest)) => Some(root.with_extra(rest)),
                _ => None,
            }
        },
        RawText::Object {
            text,
            translate,
            extra,
            color,
            font,
            bold,
            italic,
            underlined,
            strikethrough,
            obfuscated,
        } => {
            let following = match extra {
                Some(list) => rich_nodes(list, 0),
                None => Some(Seq::empty()),
            };
            if text is None && translate is None {
                None
            } else if following is None {
                None
            } else if color is Some && color_of_text(color->0) is None {
                None
            } else {
                Some(
                    RichText {
                        text: if text is Some {
                            text->0
                        } else {
                            translate->0
                        },
                        extra: following->0,
                        should_translate: text is None,
                        color: match color {
                            Some(c) => color_of_text(c),
                            None => None,
                        },
                        font,
                        is_bold: flag(bold),
                        is_italic: flag(italic),
                        is_underlined: flag(underlined),
                        is_strikethrough: flag(strikethrough),
                        is_obfuscated: flag(obfuscated),
                    },
                )
            }
        },
    }
}

/// The nodes that `list[from..]` is read as, in order, or `None` where one
/// of them is rejected.
pub open spec fn rich_nodes(list: Seq<RawText>, from: int) -> Option<Seq<RichText>>
    decreases list, list.len() - from,
{
    if from < 0 || from >= list.len() {
        Some(Seq::empty())
    } else {
        match (rich_text(list[from]), rich_nodes(list, from + 1)) {
            (Some(node), Some(rest)) => Some(seq![node] + rest),
            _ => None,
        }
    }
}

/// The nodes that a list of [`SerializableText`] stands for.
pub open spec fn raw_nodes(list: Seq<SerializableText>) -> Seq<RawText> {
    Seq::new(list.len(), |i: int| list[i]@)
}

/// The nodes that a list of [`Text`] stands for.
pub open spec fn text_views(list: Seq<Text>) -> Seq<RichText> {
    Seq::new(list.len(), |i: int| list[i]@)
}

/// `rest` with `front` before it.
pub open spec fn after(front: Seq<RichText>, rest: Option<Seq<RichText>>) -> Option<Seq<RichText>> {
    match rest {
        Some(rest) => Some(front + rest),
        None => None,
    }
}

impl Text {
    /// The node of a bare string.
    pub fn new(text: &str) -> (r: Text)
        ensures
            r@ == plain_text(text@),
    {
        let r = Text {
            text: text.to_owned(),
            extra: Vec::new(),
            should_translate: false,
            color: None,
            font: None,
            is_bold: false,
            is_italic: false,
            is_underlined: false,
            is_strikethrough: false,
            is_obfuscated: false,
        };
        assert(r@.extra =~= Seq::empty());
        r
    }

    /// Reads the nodes of `list` from `from` on, each by
    /// [`Text::from_serializable`]; fails where one of them is rejected.
    pub fn from_nodes(list: &Vec<SerializableText>, from: usize) -> (r: Result<
        Vec<Text>,
        DatapackError,
    >)
        requires
            from <= list.len(),
        ensures
            match rich_nodes(raw_nodes(list@), from as int) {
                Some(nodes) => r matches Ok(v) && text_views(v@) == nodes,
                None => r matches Err(e) && e.describes(Fault::Deserialize),
            },
        decreases list, 0nat,
    {
        let ghost raw = raw_nodes(list@);
        let mut nodes: Vec<Text> = Vec::new();
        let mut i: usize = from;
        assert(text_views(nodes@) =~= Seq::empty());
        assert(after(text_views(nodes@), rich_nodes(raw, i as int)) =~= rich_nodes(raw, i as int));
        while i < list.len()
            invariant
                from <= i <= list.len(),
                raw == raw_nodes(list@),
                rich_nodes(raw, from as int) == after(text_views(nodes@), rich_nodes(raw, i as int)),
            decreases list.len() - i,
        {
            let ghost before = text_views(nodes@);
            assert(raw[i as int] == list@[i as int]@);
            match Text::from_serializable(&list[i]) {
                Ok(node) => {
                    nodes.push(node);
                    proof {
                        assert(text_views(nodes@) =~= before.push(node@));
                        if let Some(rest) = rich_nodes(raw, i + 1) {
                            assert(before + (seq![node@] + rest) =~= before.push(node@) + rest);
                        }
                    }
                },
                Err(e) => {
                    return Err(e);
                },
            }
            i += 1;
        }
        assert(text_views(nodes@) + Seq::<RichText>::empty() =~= text_views(nodes@));
        Ok(nodes)
    }

    /// Reads a node of a manifest. A node that is rejected gives a
    /// `Deserialize` error.
    pub fn from_serializable(value: &SerializableText) -> (r: Result<Text, DatapackError>)
        ensures
            match rich_text(value@) {
                Some(node) => r matches Ok(x) && x@ == node,
                None => r matches Err(e) && e.describes(Fault::Deserialize),
            },
        decreases value, 2nat,
    {
        match value {
            SerializableText::String(s) => Ok(Text::new(s.as_str())),
            SerializableText::List(list) => {
                assert(value@ == RawText::List(raw_nodes(list@))) by {
                    assert(value@->List_0 =~= raw_nodes(list@));
                }
                Text::from_list(list)
            },
            SerializableText::Object {
                text,
                translate,
                extra,
                color,
                font,
                bold,
                italic,
                underlined,
                strikethrough,
                obfuscated,
            } => {
                let (label, should_translate) = match text {
                    Some(t) => (t.clone(), false),
                    None => match translate {
                        Some(t) => (t.clone(), true),
                        None => {
                            return Err(
                                DatapackError::Deserialize(
                                    "text object without 'text' or 'translate'".to_owned(),
                                ),
                            );
                        },
                    },
                };
                let nodes: Vec<Text> = match extra {
                    Some(list) => {
                        assert(value@->extra == Some(raw_nodes(list@))) by {
                            assert(value@->extra->0 =~= raw_nodes(list@));
                        }
                        match Text::from_nodes(list, 0) {
                            Ok(nodes) => nodes,
                            Err(e) => {
                                return Err(e);
                            },
                        }
                    },
                    None => Vec::new(),
                };
                let shade: Option<Color> = match color {
                    Some(c) => match Color::parse(c.as_str()) {
                        Ok(shade) => Some(shade),
                        Err(e) => {
                            return Err(e);
                        },
                    },
                    None => None,
                };
                let face: Option<ResourceLocation> = match font {
                    Some(f) => Some(
                        ResourceLocation { namespace: f.namespace.clone(), id: f.id.clone() },
                    ),
                    None => None,
                };
                let r = Text {
                    text: label,
                    extra: nodes,
                    should_translate,
                    color: shade,
                    font: face,
                    is_bold: unset_is_false(*bold),
                    is_italic: unset_is_false(*italic),
                    is_underlined: unset_is_false(*underlined),
                    is_strikethrough: unset_is_false(*strikethrough),
                    is_obfuscated: unset_is_false(*obfuscated),
                };
                proof {
                    let expected = rich_text(value@);
                    assert(r@.extra =~= text_views(r.extra@));
                    assert(expected is Some);
                    assert(r@.extra =~= expected->0.extra);
                }
                Ok(r)
            },
        }
    }

    /// Reads a list of nodes as one node: the first, followed by the others.
    /// An empty list, or a node that is rejected, gives a `Deserialize`
    /// error.
    pub fn from_list(list: &Vec<SerializableText>) -> (r: Result<Text, DatapackError>)
        ensures
            match rich_text(RawText::List(raw_nodes(list@))) {
                Some(node) => r matches Ok(x) && x@ == node,
                None => r matches Err(e) && e.describes(Fault::Deserialize),
            },
        decreases list, 1nat,
    {
        let ghost raw = raw_nodes(list@);
        if list.len() == 0 {
            Err(DatapackError::Deserialize("text as list cannot be empty".to_owned()))
        } else if list.len() == 1 {
            assert(raw[0] == list@[0]@);
            Text::from_serializable(&list[0])
        } else {
            assert(raw[0] == list@[0]@);
            let root = match Text::from_serializable(&list[0]) {
                Ok(root) => root,
                Err(e) => {
                    return Err(e);
                },
            };
            let rest = match Text::from_nodes(list, 1) {
                Ok(rest) => rest,
                Err(e) => {
                    return Err(e);
                },
            };
            let r = Text {
                text: root.text,
                extra: rest,
                should_translate: root.should_translate,
                color: root.color,
                font: root.font,
                is_bold: root.is_bold,
                is_italic: root.is_italic,
                is_underlined: root.is_underlined,
                is_strikethrough: root.is_strikethrough,
                is_obfuscated: root.is_obfuscated,
            };
            assert(r@.extra =~= text_views(r.extra@));
            Ok(r)
        }
    }
}

/// A flag that is not set counts as `false`.
fn unset_is_false(b: Option<bool>) -> (r: bool)
    ensures
        r == flag(b),
{
    match b {
        Some(b) => b,
        None => false,
    }
}

impl Default for Text {
    /// The node of the empty string.
    fn default() -> (r: Text)
        ensures
            r@ == plain_text(Seq::empty()),
    {
        proof {
            reveal_strlit("");
        }
        let r = Text::new("");
        assert(""@ =~= Seq::<char>::empty());
        r
    }
}

/// The optional font of a text object: an object with the strings
/// `namespace` and `id`. `Some(None)` where the member is absent or `null`,
/// `None` where it has another shape.
pub open spec fn optional_font(j: Json) -> Option<Option<(Seq<char>, Seq<char>)>> {
    match j.member("font"@) {
        None => Some(None),
        Some(Json::Null) => Some(None),
        Some(font) => match (font.member("namespace"@), font.member("id"@)) {
            (Some(Json::String(namespace)), Some(Json::String(id))) => Some(Some((namespace, id))),
            _ => None,
        },
    }
}

/// The node that a JSON document denotes, or `None` where it denotes none.
///
/// A string is a bare string; an array is a list of nodes; an object is a
/// text object, whose members `text`, `translate`, `color` are optional
/// strings, `bold`, `italic`, `underlined`, `strikethrough`, `obfuscated`
/// optional booleans, `extra` an optional array of nodes and `font` an
/// optional location. Other members are ignored; a member of the wrong
/// shape, or any other document, denotes no node.
pub open spec fn raw_text_of(j: Json) -> Option<RawText>
    decreases j, 0nat,
{
    match j {
        Json::String(s) => Some(RawText::String(s)),
        Json::Array(items) => match raw_texts_of(items, 0) {
            Some(list) => Some(RawText::List(list)),
            None => None,
        },
        Json::Object(_) => {
            let extra: Option<Option<Seq<RawText>>> = match j.member("extra"@) {
                None => Some(None),
                Some(Json::Null) => Some(None),
                Some(Json::Array(items)) => {
                    proof {
                        lemma_member_decreases(j, "extra"@);
                        let m = j.member("extra"@)->0;
                        assert(decreases_to!(m => m->Array_0));
                    }
                    match raw_texts_of(items, 0) {
                        Some(list) => Some(Some(list)),
                        None => None,
                    }
                },
                Some(_) => None,
            };
            let text = optional_text(j, "text"@);
            let translate = optional_text(j, "translate"@);
            let color = optional_text(j, "color"@);
            let font = optional_font(j);
            let bold = optional_flag(j, "bold"@);
            let italic = optional_flag(j, "italic"@);
            let underlined = optional_flag(j, "underlined"@);
            let strikethrough = optional_flag(j, "strikethrough"@);
            let obfuscated = optional_flag(j, "obfuscated"@);
            if text is Some && translate is Some && extra is Some && color is Some && font is Some
                && bold is Some && italic is Some && underlined is Some && strikethrough is Some
                && obfuscated is Some {
                Some(
                    RawText::Object {
                        text: text->0,
                        translate: translate->0,
                        extra: extra->0,
                        color: color->0,
                        font: font->0,
                        bold: bold->0,
                        italic: italic->0,
                        underlined: underlined->0,
                        strikethrough: strikethrough->0,
                        obfuscated: obfuscated->0,
                    },
                )
            } else {
                None
            }
        },
        _ => None,
    }
}

/// The nodes that `items[from..]` denote, in order, or `None` where one of
/// them denotes none.
pub open spec fn raw_texts_of(items: Seq<Json>, from: int) -> Option<Seq<RawText>>
    decreases items, items.len() - from,
{
    if from < 0 || from >= items.len() {
        Some(Seq::empty())
    } else {
        match (raw_text_of(items[from]), raw_texts_of(items, from + 1)) {
            (Some(node), Some(rest)) => Some(seq![node] + rest),
            _ => None,
        }
    }
}

/// `rest` with `front` before it.
pub open spec fn raw_after(front: Seq<RawText>, rest: Option<Seq<RawText>>) -> Option<Seq<RawText>> {
    match rest {
        Some(rest) => Some(front + rest),
        None => None,
    }
}

impl SerializableText {
    /// Reads the items of an array as nodes.
    pub fn nodes_from_json(items: &Vec<JsonValue>) -> (r: Result<Vec<SerializableText>, DatapackError>)
        ensures
            match raw_texts_of(json_views(items@), 0) {
                Some(nodes) => r matches Ok(v) && raw_nodes(v@) == nodes,
                None => r matches Err(e) && e.describes(Fault::Deserialize),
            },
        decreases json_views(items@), 0nat,
    {
        let ghost docs = json_views(items@);
        let mut nodes: Vec<SerializableText> = Vec::new();
        let mut i: usize = 0;
        assert(raw_nodes(nodes@) =~= Seq::empty());
        assert(raw_after(raw_nodes(nodes@), raw_texts_of(docs, 0)) =~= raw_texts_of(docs, 0));
        while i < items.len()
            invariant
                i <= items.len(),
                docs == json_views(items@),
                raw_texts_of(docs, 0) == raw_after(raw_nodes(nodes@), raw_texts_of(docs, i as int)),
            decreases items.len() - i,
        {
            let ghost before = raw_nodes(nodes@);
            assert(docs[i as int] == items@[i as int]@);
            match SerializableText::from_json(&items[i]) {
                Ok(node) => {
                    nodes.push(node);
                    proof {
                        assert(raw_nodes(nodes@) =~= before.push(node@));
                        if let Some(rest) = raw_texts_of(docs, i + 1) {
                            assert(before + (seq![node@] + rest) =~= before.push(node@) + rest);
                        }
                    }
                },
                Err(e) => {
                    return Err(e);
                },
            }
            i += 1;
        }
        assert(raw_nodes(nodes@) + Seq::<RawText>::empty() =~= raw_nodes(nodes@));
        Ok(nodes)
    }

    /// Reads the optional font of a text object.
    fn font_from_json(j: &JsonValue) -> (r: Result<Option<ResourceLocation>, DatapackError>)
        ensures
            match optional_font(j@) {
                Some(font) => r matches Ok(x) && location_option(x) == font,
                None => r matches Err(e) && e.describes(Fault::Deserialize),
            },
    {
        match j.get("font") {
            None => Ok(None),
            Some(font) => {
                if font.is_null() {
                    return Ok(None);
                }
                let namespace = match font.get("namespace") {
                    Some(JsonValue::String(s)) => s.clone(),
                    _ => {
                        return Err(DatapackError::Deserialize("font".to_owned()));
                    },
                };
                let id = match font.get("id") {
                    Some(JsonValue::String(s)) => s.clone(),
                    _ => {
                        return Err(DatapackError::Deserialize("font".to_owned()));
                    },
                };
                Ok(Some(ResourceLocation { namespace, id }))
            },
        }
    }

    /// Reads a rich-text node from a JSON document. A document that denotes
    /// no node gives a `Deserialize` error.
    pub fn from_json(j: &JsonValue) -> (r: Result<SerializableText, DatapackError>)
        ensures
            match raw_text_of(j@) {
                Some(node) => r matches Ok(x) && x@ == node,
                None => r matches Err(e) && e.describes(Fault::Deserialize),
            },
        decreases j@, 2nat,
    {
        match j {
            JsonValue::String(s) => Ok(SerializableText::String(s.clone())),
            JsonValue::Array(items) => {
                assert(j@->Array_0 =~= json_views(items@));
                match SerializableText::nodes_from_json(items) {
                    Ok(nodes) => {
                        let r = SerializableText::List(nodes);
                        assert(r@->List_0 =~= raw_nodes(nodes@));
                        Ok(r)
                    },
                    Err(e) => Err(e),
                }
            },
            JsonValue::Object(_) => {
                let extra: Option<Vec<SerializableText>> = match j.get("extra") {
                    None => None,
                    Some(member) => match member {
                        JsonValue::Null => None,
                        JsonValue::Array(items) => {
                            proof {
                                lemma_member_decreases(j@, "extra"@);
                                let m = j@.member("extra"@)->0;
                                assert(decreases_to!(m => m->Array_0));
                                assert(member@->Array_0 =~= json_views(items@));
                            }
                            match SerializableText::nodes_from_json(items) {
                                Ok(nodes) => Some(nodes),
                                Err(e) => {
                                    return Err(e);
                                },
                            }
                        },
                        _ => {
                            return Err(DatapackError::Deserialize("extra".to_owned()));
                        },
                    },
                };
                let text = j.optional_string("text")?;
                let translate = j.optional_string("translate")?;
                let color = j.optional_string("color")?;
                let font = SerializableText::font_from_json(j)?;
                let bold = j.optional_bool("bold")?;
                let italic = j.optional_bool("italic")?;
                let underlined = j.optional_bool("underlined")?;
                let strikethrough = j.optional_bool("strikethrough")?;
                let obfuscated = j.optional_bool("obfuscated")?;
                let r = SerializableText::Object {
                    text,
                    translate,
                    extra,
                    color,
                    font,
                    bold,
                    italic,
                    underlined,
                    strikethrough,
                    obfuscated,
                };
                proof {
                    if let Some(list) = r->extra {
                        assert(r@->extra->0 =~= raw_nodes(list@));
                    }
                }
                Ok(r)
            },
            _ => Err(DatapackError::Deserialize("text".to_owned())),
        }
    }
}

} // verus!
