//! The base element the cell inherits from: tag identity, the
//! attribute table, and the shared mutation bookkeeping that every
//! attribute event passes through first.

use vstd::prelude::*;
use crate::values::{AttrValue, AttrValueView};

verus! {

/// The observable content of an attribute journal: each entry either
/// binds a name to a value or clears it, and later entries win.
pub open spec fn attr_journal_map(s: Seq<(String, Option<AttrValue>)>) -> Map<
    Seq<char>,
    AttrValueView,
>
    decreases s.len(),
{
    if s.len() == 0 {
        Map::empty()
    } else {
        let m = attr_journal_map(s.drop_last());
        match s.last().1 {
            Some(v) => m.insert(s.last().0@, v@),
            None => m.remove(s.last().0@),
        }
    }
}

/// Whether two texts are equal.
pub fn str_eq(a: &str, b: &str) -> (r: bool)
    ensures
        r == (a@ == b@),
{
    let na = a.unicode_len();
    let nb = b.unicode_len();
    if na != nb {
        return false;
    }
    let mut i: usize = 0;
    while i < na
        invariant
            i <= na,
            na == a@.len(),
            na == b@.len(),
            forall|t: int| 0 <= t < i ==> a@[t] == b@[t],
        decreases na - i,
    {
        if a.get_char(i) != b.get_char(i) {
            return false;
        }
        i = i + 1;
    }
    proof {
        assert(a@ =~= b@);
    }
    true
}

/// The base element: tag identity, the attribute table, and the shared
/// style-invalidation flag. The attribute table is kept as a journal
/// of writes and clears; its observable content is the map view, and
/// published values are only ever replaced whole, never edited in
/// place — the property the lock-free layout read relies on.
pub struct HTMLElement {
    pub tag_name: String,
    pub prefix: Option<String>,
    pub attrs: Vec<(String, Option<AttrValue>)>,
    pub style_dirty: bool,
}

impl HTMLElement {
    /// The observable content of the attribute table.
    pub open spec fn attr_map(&self) -> Map<Seq<char>, AttrValueView> {
        attr_journal_map(self.attrs@)
    }

    /// A fresh element with the given tag, no attributes, and a clean
    /// style flag.
    pub fn new_inherited(tag_name: String, prefix: Option<String>) -> (r: HTMLElement)
        ensures
            r.tag_name == tag_name,
            r.prefix == prefix,
            r.attr_map() == Map::<Seq<char>, AttrValueView>::empty(),
            !r.style_dirty,
    {
        let r = HTMLElement { tag_name, prefix, attrs: Vec::new(), style_dirty: false };
        proof {
            assert(r.attr_map() =~= Map::<Seq<char>, AttrValueView>::empty());
        }
        r
    }

    /// The current value bound to `name`, or `None` when the attribute
    /// is absent.
    pub fn get_attribute(&self, name: &str) -> (r: Option<&AttrValue>)
        ensures
            match r {
                Some(v) => self.attr_map().contains_key(name@) && v@ == self.attr_map()[name@],
                None => !self.attr_map().contains_key(name@),
            },
    {
        let n = self.attrs.len();
        let mut i: usize = n;
        proof {
            assert(self.attrs@.take(n as int) =~= self.attrs@);
        }
        while i > 0
            invariant
                i <= n,
                n == self.attrs@.len(),
                attr_journal_map(self.attrs@).contains_key(name@) == attr_journal_map(
                    self.attrs@.take(i as int),
                ).contains_key(name@),
                attr_journal_map(self.attrs@).contains_key(name@) ==> attr_journal_map(
                    self.attrs@.take(i as int),
                )[name@] == attr_journal_map(self.attrs@)[name@],
            decreases i,
        {
            let idx = i - 1;
            proof {
                assert(self.attrs@.take(i as int).drop_last() =~= self.attrs@.take(idx as int));
                assert(self.attrs@.take(i as int).last() == self.attrs@[idx as int]);
            }
            let entry = &self.attrs[idx];
            if str_eq(entry.0.as_str(), name) {
                match &entry.1 {
                    Some(v) => {
                        return Some(v);
                    },
                    None => {
                        return None;
                    },
                }
            }
            i = idx;
        }
        proof {
            assert(self.attrs@.take(0) =~= Seq::<(String, Option<AttrValue>)>::empty());
        }
        None
    }

    /// Binds `name` to `value`, replacing any earlier binding whole.
    pub fn set_attribute_value(&mut self, name: &str, value: AttrValue)
        ensures
            final(self).attr_map() == old(self).attr_map().insert(name@, value@),
            final(self).tag_name == old(self).tag_name,
            final(self).prefix == old(self).prefix,
            final(self).style_dirty == old(self).style_dirty,
    {
        let entry = (String::from_str(name), Some(value));
        self.attrs.push(entry);
        proof {
            assert(self.attrs@.drop_last() =~= old(self).attrs@);
        }
    }

    /// Clears any binding of `name`.
    pub fn remove_attribute_value(&mut self, name: &str)
        ensures
            final(self).attr_map() == old(self).attr_map().remove(name@),
            final(self).tag_name == old(self).tag_name,
            final(self).prefix == old(self).prefix,
            final(self).style_dirty == old(self).style_dirty,
    {
        let entry = (String::from_str(name), None);
        self.attrs.push(entry);
        proof {
            assert(self.attrs@.drop_last() =~= old(self).attrs@);
        }
    }

    /// The inherited mutation handler: the shared bookkeeping invoked
    /// first, unconditionally, on every attribute event.
    pub fn attribute_mutated(&mut self)
        ensures
            final(self).attrs == old(self).attrs,
            final(self).tag_name == old(self).tag_name,
            final(self).prefix == old(self).prefix,
            final(self).style_dirty,
    {
        self.style_dirty = true;
    }

    /// The inherited parsing fallback for attribute names the cell does
    /// not specially recognize: the text is kept as plain text.
    pub fn parse_plain_attribute(&self, value: String) -> (r: AttrValue)
        ensures
            r@ == AttrValueView::String(value@),
    {
        AttrValue::String(value)
    }
}

} // verus!
