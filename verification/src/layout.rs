//! The cross-thread read path: a read-only capability over a cell that
//! a layout pass holds while document mutation is fenced off. The
//! capability is a shared borrow, so the type system itself denies the
//! layout side any write: colspan and background color are recomputed
//! from the fully published attribute values, and the width comes from
//! the single-writer cache cell.

use vstd::prelude::*;
use crate::cell::{spec_background_color, spec_layout_colspan, HTMLTableCellElement};
use crate::values::{LengthOrPercentageOrAuto, RGBA};

verus! {

/// The read-only view of one cell handed to the layout pass.
pub struct LayoutSnapshot<'a> {
    pub cell: &'a HTMLTableCellElement,
}

/// The three read-only queries the layout pass may make of a cell; no
/// mutating operation crosses the thread boundary.
pub trait HTMLTableCellElementLayoutHelpers {
    /// The cell state this capability reads.
    spec fn cell_state(&self) -> HTMLTableCellElement;

    /// The parsed bgcolor attribute, or `None` when absent or not a
    /// recognized color.
    fn get_background_color(&self) -> (r: Option<RGBA>)
        ensures
            r == spec_background_color(self.cell_state().attrs()),
    ;

    /// The parsed colspan attribute, or `None` when absent.
    fn get_colspan(&self) -> (r: Option<u32>)
        ensures
            r == spec_layout_colspan(self.cell_state().attrs()),
    ;

    /// The cached width value.
    fn get_width(&self) -> (r: LengthOrPercentageOrAuto)
        ensures
            r == self.cell_state().width,
    ;
}

impl<'a> HTMLTableCellElementLayoutHelpers for LayoutSnapshot<'a> {
    open spec fn cell_state(&self) -> HTMLTableCellElement {
        *self.cell
    }

    fn get_background_color(&self) -> (r: Option<RGBA>) {
        match self.cell.htmlelement().get_attribute("bgcolor") {
            Some(v) => v.as_color(),
            None => None,
        }
    }

    fn get_colspan(&self) -> (r: Option<u32>) {
        match self.cell.htmlelement().get_attribute("colspan") {
            Some(v) => v.as_uint(),
            None => None,
        }
    }

    fn get_width(&self) -> (r: LengthOrPercentageOrAuto) {
        self.cell.width
    }
}

impl HTMLTableCellElement {
    /// Hands out the read-only capability for one layout pass.
    pub fn layout_snapshot<'a>(&'a self) -> (r: LayoutSnapshot<'a>)
        ensures
            r.cell_state() == *self,
    {
        LayoutSnapshot { cell: self }
    }
}

} // verus!
