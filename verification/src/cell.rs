//! The table-cell element: its cached width, the attribute-mutation
//! machine that keeps that cache consistent with the raw attribute
//! strings, and the public query/command surface.

use vstd::prelude::*;
use crate::element::{str_eq, HTMLElement};
use crate::parse::{
    parse_length, spec_dec_string, spec_legacy_color, spec_parse_length, spec_parse_unsigned,
    u32_to_dec_string,
};
use crate::values::{AttrValue, AttrValueView, LengthOrPercentageOrAuto, RGBA};

verus! {

broadcast use vstd::string::group_string_axioms;

/// The colspan used when the attribute is absent or does not parse.
pub const DEFAULT_COLSPAN: u32 = 1;

/// An attribute mutation event as delivered to the cell: a write
/// carrying the newly stored value, or a removal.
pub enum AttributeMutation<'a> {
    Assigned(&'a AttrValue),
    Removed,
}

impl<'a> AttributeMutation<'a> {
    /// The raw text of the attribute after the event, or `None` when
    /// the attribute was removed.
    pub open spec fn spec_new_text(&self) -> Option<Seq<char>> {
        match self {
            AttributeMutation::Assigned(v) => Some(v@.text()),
            AttributeMutation::Removed => None,
        }
    }

    /// The attribute value after the event, or `None` for a removal.
    pub fn new_value(&self) -> (r: Option<&'a AttrValue>)
        ensures
            match r {
                Some(v) => self.spec_new_text() == Some(v@.text()),
                None => self.spec_new_text() is None,
            },
    {
        match self {
            AttributeMutation::Assigned(v) => Some(*v),
            AttributeMutation::Removed => None,
        }
    }
}

/// The cached width after a mutation event: a `width` event replaces
/// the cache with the parse of the new text (or `Auto` on removal);
/// any other event leaves it untouched.
pub open spec fn spec_width_after(
    w: LengthOrPercentageOrAuto,
    name: Seq<char>,
    new_text: Option<Seq<char>>,
) -> LengthOrPercentageOrAuto {
    if name == "width"@ {
        match new_text {
            Some(t) => spec_parse_length(t),
            None => LengthOrPercentageOrAuto::Auto,
        }
    } else {
        w
    }
}

/// The attribute value produced by the parsing dispatch: `colspan`
/// parses as an unsigned integer with default, `bgcolor` as a legacy
/// color, everything else stays plain text.
pub open spec fn spec_parse_plain(name: Seq<char>, value: Seq<char>) -> AttrValueView {
    if name == "colspan"@ {
        AttrValueView::UInt(
            value,
            match spec_parse_unsigned(value) {
                Some(n) => n,
                None => DEFAULT_COLSPAN,
            },
        )
    } else if name == "bgcolor"@ {
        AttrValueView::Color(value, spec_legacy_color(value))
    } else {
        AttrValueView::String(value)
    }
}

/// The colspan read from an attribute map: the stored unsigned
/// integer, or the default when the attribute is absent or not typed
/// as one.
pub open spec fn spec_colspan(m: Map<Seq<char>, AttrValueView>) -> u32 {
    if m.contains_key("colspan"@) {
        match m["colspan"@] {
            AttrValueView::UInt(_, n) => n,
            _ => DEFAULT_COLSPAN,
        }
    } else {
        DEFAULT_COLSPAN
    }
}

/// The colspan as the layout pass reads it: `None` when the attribute
/// is absent or not typed as an unsigned integer.
pub open spec fn spec_layout_colspan(m: Map<Seq<char>, AttrValueView>) -> Option<u32> {
    if m.contains_key("colspan"@) {
        match m["colspan"@] {
            AttrValueView::UInt(_, n) => Some(n),
            _ => None,
        }
    } else {
        None
    }
}

/// The background color read from an attribute map: the stored parsed
/// color, or `None` when the attribute is absent, not typed as a
/// color, or did not parse as one.
pub open spec fn spec_background_color(m: Map<Seq<char>, AttrValueView>) -> Option<RGBA> {
    if m.contains_key("bgcolor"@) {
        match m["bgcolor"@] {
            AttrValueView::Color(_, c) => c,
            _ => None,
        }
    } else {
        None
    }
}

/// The attribute map after colspan is set to `v` as its canonical
/// typed representation.
pub open spec fn spec_after_set_colspan(m: Map<Seq<char>, AttrValueView>, v: u32) -> Map<
    Seq<char>,
    AttrValueView,
> {
    m.insert("colspan"@, AttrValueView::UInt(spec_dec_string(v as nat), v))
}

/// The table-cell element: the inherited base element and the owned
/// cache cell for the derived width value. The cache is written only
/// through the mutation machine, always as a whole-value replacement,
/// so a concurrent reader holding a shared borrow sees either the old
/// or the new value, never a partial one.
pub struct HTMLTableCellElement {
    pub htmlelement: HTMLElement,
    pub width: LengthOrPercentageOrAuto,
}

impl HTMLTableCellElement {
    /// The observable content of the cell's attribute table.
    pub open spec fn attrs(&self) -> Map<Seq<char>, AttrValueView> {
        self.htmlelement.attr_map()
    }

    /// A fresh cell with the given tag, no attributes, and the cached
    /// width at its default, `Auto`.
    pub fn new_inherited(tag_name: String, prefix: Option<String>) -> (r: HTMLTableCellElement)
        ensures
            r.htmlelement.tag_name == tag_name,
            r.htmlelement.prefix == prefix,
            r.attrs() == Map::<Seq<char>, AttrValueView>::empty(),
            !r.htmlelement.style_dirty,
            r.width == LengthOrPercentageOrAuto::Auto,
    {
        HTMLTableCellElement {
            htmlelement: HTMLElement::new_inherited(tag_name, prefix),
            width: LengthOrPercentageOrAuto::Auto,
        }
    }

    /// The inherited base element.
    pub fn htmlelement(&self) -> (r: &HTMLElement)
        ensures
            *r == self.htmlelement,
    {
        &self.htmlelement
    }

    /// The mutation machine: delegates to the inherited handler first,
    /// unconditionally, then recomputes the cached width when the
    /// event concerns the `width` attribute — one whole-value write to
    /// the cache for a `width` event, none otherwise.
    pub fn attribute_mutated(&mut self, name: &str, mutation: AttributeMutation<'_>)
        ensures
            final(self).htmlelement.attrs == old(self).htmlelement.attrs,
            final(self).htmlelement.tag_name == old(self).htmlelement.tag_name,
            final(self).htmlelement.prefix == old(self).htmlelement.prefix,
            final(self).htmlelement.style_dirty,
            final(self).width == spec_width_after(old(self).width, name@, mutation.spec_new_text()),
    {
        self.htmlelement.attribute_mutated();
        if str_eq(name, "width") {
            self.width = match mutation.new_value() {
                Some(value) => parse_length(value.as_text()),
                None => LengthOrPercentageOrAuto::Auto,
            };
        }
    }

    /// The parsing dispatch used when an attribute is assigned from
    /// plain text: `colspan` and `bgcolor` get their typed parsers,
    /// anything else falls back to the inherited plain parser.
    pub fn parse_plain_attribute(&self, local_name: &str, value: String) -> (r: AttrValue)
        ensures
            r@ == spec_parse_plain(local_name@, value@),
    {
        if str_eq(local_name, "colspan") {
            AttrValue::from_u32(value, DEFAULT_COLSPAN)
        } else if str_eq(local_name, "bgcolor") {
            AttrValue::from_legacy_color(value)
        } else {
            self.htmlelement.parse_plain_attribute(value)
        }
    }

    /// Sets an attribute from raw text: the text is parsed by the
    /// dispatch, stored, and the mutation machine is notified.
    pub fn set_attribute(&mut self, name: &str, value: String)
        ensures
            final(self).attrs() == old(self).attrs().insert(name@, spec_parse_plain(name@, value@)),
            final(self).width == spec_width_after(old(self).width, name@, Some(value@)),
            final(self).htmlelement.style_dirty,
            final(self).htmlelement.tag_name == old(self).htmlelement.tag_name,
            final(self).htmlelement.prefix == old(self).htmlelement.prefix,
    {
        let av = self.parse_plain_attribute(name, value);
        self.attribute_mutated(name, AttributeMutation::Assigned(&av));
        self.htmlelement.set_attribute_value(name, av);
    }

    /// Removes an attribute and notifies the mutation machine; a
    /// removed `width` resets the cached width to `Auto`.
    pub fn remove_attribute(&mut self, name: &str)
        ensures
            final(self).attrs() == old(self).attrs().remove(name@),
            final(self).width == spec_width_after(
                old(self).width,
                name@,
                None::<Seq<char>>,
            ),
            final(self).htmlelement.style_dirty,
            final(self).htmlelement.tag_name == old(self).htmlelement.tag_name,
            final(self).htmlelement.prefix == old(self).htmlelement.prefix,
    {
        self.htmlelement.remove_attribute_value(name);
        self.attribute_mutated(name, AttributeMutation::Removed);
    }

    /// The parsed colspan, or the default when the attribute is absent
    /// or unparsable. Never fails.
    pub fn get_colspan(&self) -> (r: u32)
        ensures
            r == spec_colspan(self.attrs()),
    {
        match self.htmlelement.get_attribute("colspan") {
            Some(v) => match v.as_uint() {
                Some(n) => n,
                None => DEFAULT_COLSPAN,
            },
            None => DEFAULT_COLSPAN,
        }
    }

    /// Writes colspan as its canonical typed representation and
    /// notifies the mutation machine; the cached width is untouched.
    pub fn set_colspan(&mut self, value: u32)
        ensures
            final(self).attrs() == spec_after_set_colspan(old(self).attrs(), value),
            final(self).width == old(self).width,
            final(self).htmlelement.style_dirty,
            final(self).htmlelement.tag_name == old(self).htmlelement.tag_name,
            final(self).htmlelement.prefix == old(self).htmlelement.prefix,
    {
        let text = u32_to_dec_string(value);
        let av = AttrValue::UInt(text, value);
        self.attribute_mutated("colspan", AttributeMutation::Assigned(&av));
        self.htmlelement.set_attribute_value("colspan", av);
        proof {
            reveal_strlit("colspan");
            reveal_strlit("width");
            assert("colspan"@.len() == 7);
            assert("width"@.len() == 5);
            assert("colspan"@ != "width"@);
        }
    }

    /// The parsed background color, or `None` when the attribute is
    /// absent or not a recognized color.
    pub fn get_background_color(&self) -> (r: Option<RGBA>)
        ensures
            r == spec_background_color(self.attrs()),
    {
        match self.htmlelement.get_attribute("bgcolor") {
            Some(v) => v.as_color(),
            None => None,
        }
    }

    /// Writes the bgcolor attribute from loosely formatted text, kept
    /// beside its parsed color; the cached width is untouched.
    pub fn set_background_color(&mut self, value: String)
        ensures
            final(self).attrs() == old(self).attrs().insert(
                "bgcolor"@,
                AttrValueView::Color(value@, spec_legacy_color(value@)),
            ),
            final(self).width == old(self).width,
            final(self).htmlelement.style_dirty,
            final(self).htmlelement.tag_name == old(self).htmlelement.tag_name,
            final(self).htmlelement.prefix == old(self).htmlelement.prefix,
    {
        let av = AttrValue::from_legacy_color(value);
        self.attribute_mutated("bgcolor", AttributeMutation::Assigned(&av));
        self.htmlelement.set_attribute_value("bgcolor", av);
        proof {
            reveal_strlit("bgcolor");
            reveal_strlit("width");
            assert("bgcolor"@.len() == 7);
            assert("width"@.len() == 5);
            assert("bgcolor"@ != "width"@);
        }
    }
}

/// An attribute text that does not parse as a non-negative integer
/// reads back as the default colspan once assigned.
pub proof fn lemma_invalid_colspan_defaults(m: Map<Seq<char>, AttrValueView>, t: Seq<char>)
    requires
        spec_parse_unsigned(t) is None,
    ensures
        spec_colspan(m.insert("colspan"@, spec_parse_plain("colspan"@, t))) == DEFAULT_COLSPAN,
{
}

/// Whatever the cached width held before, a `width` removal event
/// leaves the cache at `Auto`.
pub proof fn lemma_width_removal_resets(w: LengthOrPercentageOrAuto)
    ensures
        spec_width_after(w, "width"@, None::<Seq<char>>) == LengthOrPercentageOrAuto::Auto,
{
}

/// The cached width after a sequence of mutation events, each a name
/// and the new text (`None` for a removal), applied in order.
pub open spec fn spec_width_after_events(
    w: LengthOrPercentageOrAuto,
    events: Seq<(Seq<char>, Option<Seq<char>>)>,
) -> LengthOrPercentageOrAuto
    decreases events.len(),
{
    if events.len() == 0 {
        w
    } else {
        spec_width_after(
            spec_width_after_events(w, events.drop_last()),
            events.last().0,
            events.last().1,
        )
    }
}

/// Every sequence of mutation events that ends in the removal of
/// `width` leaves the cached width at `Auto`, regardless of the
/// intermediate values.
pub proof fn lemma_width_events_ending_in_removal(
    w: LengthOrPercentageOrAuto,
    events: Seq<(Seq<char>, Option<Seq<char>>)>,
)
    requires
        events.len() > 0,
        events.last() == ("width"@, None::<Seq<char>>),
    ensures
        spec_width_after_events(w, events) == LengthOrPercentageOrAuto::Auto,
{
}

/// Immediately after bgcolor is removed the background color reads as
/// `None`, whatever was stored before: no stale color survives.
pub proof fn lemma_bgcolor_removal_clears(m: Map<Seq<char>, AttrValueView>)
    ensures
        spec_background_color(m.remove("bgcolor"@)) is None,
{
}

/// Setting colspan twice to the same value leaves exactly the state a
/// single write leaves, and colspan then reads back as that value; in
/// particular, rewriting the currently read value changes nothing.
pub proof fn lemma_set_colspan_idempotent(m: Map<Seq<char>, AttrValueView>, v: u32)
    ensures
        spec_after_set_colspan(spec_after_set_colspan(m, v), v) == spec_after_set_colspan(m, v),
        spec_colspan(spec_after_set_colspan(m, v)) == v,
{
    assert(spec_after_set_colspan(spec_after_set_colspan(m, v), v) =~= spec_after_set_colspan(
        m,
        v,
    ));
}

} // verus!
