//! The typed attribute values that the cell works with: colors, the
//! width domain (length, percentage or auto), and the tagged attribute
//! value stored in the element's attribute table.

use vstd::prelude::*;

verus! {

/// A color with 8-bit channels, as produced by legacy HTML color parsing.
/// The alpha channel is always fully opaque for parsed legacy colors.
#[derive(Clone, Copy, Debug, PartialEq, Eq, Structural)]
pub struct RGBA {
    pub red: u8,
    pub green: u8,
    pub blue: u8,
    pub alpha: u8,
}

/// The value domain of the `width` attribute: an absolute length in
/// pixels, a percentage, or "let layout decide".
#[derive(Clone, Copy, Debug, PartialEq, Eq, Structural)]
pub enum LengthOrPercentageOrAuto {
    Auto,
    Length(u32),
    Percentage(u32),
}

/// The mathematical content of an [`AttrValue`]: the raw text as a
/// character sequence together with the parsed form. Contracts speak
/// of attribute state through this view.
pub enum AttrValueView {
    String(Seq<char>),
    UInt(Seq<char>, u32),
    Color(Seq<char>, Option<RGBA>),
}

impl AttrValueView {
    /// The raw attribute text, whatever the tag.
    pub open spec fn text(self) -> Seq<char> {
        match self {
            AttrValueView::String(s) => s,
            AttrValueView::UInt(s, _) => s,
            AttrValueView::Color(s, _) => s,
        }
    }
}

/// A typed attribute value: the raw text as given by the document,
/// together with the parsed form chosen by the parsing dispatch.
#[derive(Debug)]
pub enum AttrValue {
    /// Plain text, for attributes with no special parser.
    String(String),
    /// Text parsed as an unsigned integer (used by `colspan`); the
    /// number is the parsed value, or the parser's default when the
    /// text does not parse.
    UInt(String, u32),
    /// Text parsed as a legacy HTML color (used by `bgcolor`); `None`
    /// when the text is not a recognized color.
    Color(String, Option<RGBA>),
}

impl View for AttrValue {
    type V = AttrValueView;

    open spec fn view(&self) -> AttrValueView {
        match self {
            AttrValue::String(s) => AttrValueView::String(s@),
            AttrValue::UInt(s, n) => AttrValueView::UInt(s@, *n),
            AttrValue::Color(s, c) => AttrValueView::Color(s@, *c),
        }
    }
}

impl AttrValue {
    /// The raw attribute text, whatever the tag.
    pub fn as_text(&self) -> (r: &str)
        ensures
            r@ == self@.text(),
    {
        match self {
            AttrValue::String(s) => s.as_str(),
            AttrValue::UInt(s, _) => s.as_str(),
            AttrValue::Color(s, _) => s.as_str(),
        }
    }

    /// The parsed unsigned integer, when this value was parsed as one.
    pub fn as_uint(&self) -> (r: Option<u32>)
        ensures
            r == (match self@ {
                AttrValueView::UInt(_, n) => Some(n),
                _ => None::<u32>,
            }),
    {
        match self {
            AttrValue::UInt(_, n) => Some(*n),
            _ => None,
        }
    }

    /// The parsed color, when this value was parsed as a legacy color.
    pub fn as_color(&self) -> (r: Option<RGBA>)
        ensures
            r == (match self@ {
                AttrValueView::Color(_, c) => c,
                _ => None::<RGBA>,
            }),
    {
        match self {
            AttrValue::Color(_, c) => *c,
            _ => None,
        }
    }

    /// Wraps `s` as a typed unsigned integer: the parsed value of the
    /// text, or `default` when the text does not parse.
    pub fn from_u32(s: String, default: u32) -> (r: AttrValue)
        ensures
            r@ == AttrValueView::UInt(
                s@,
                match crate::parse::spec_parse_unsigned(s@) {
                    Some(n) => n,
                    None => default,
                },
            ),
    {
        let n = match crate::parse::parse_unsigned_integer(s.as_str()) {
            Some(n) => n,
            None => default,
        };
        AttrValue::UInt(s, n)
    }

    /// Wraps `s` as a typed legacy color: the parsed color, or `None`
    /// when the text is not a recognized color.
    pub fn from_legacy_color(s: String) -> (r: AttrValue)
        ensures
            r@ == AttrValueView::Color(s@, crate::parse::spec_legacy_color(s@)),
    {
        let c = crate::parse::parse_legacy_color(s.as_str());
        AttrValue::Color(s, c)
    }
}

} // verus!
