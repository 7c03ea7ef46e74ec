//! A verified model of an HTML table-cell element: the attribute-mutation
//! machine that keeps the cached width value consistent with the raw
//! attribute strings, the lock-free read surface handed to a layout pass,
//! and the sibling-position (cell index) query over the document tree.

pub mod cell;
pub mod element;
pub mod layout;
pub mod parse;
pub mod tree;
pub mod values;
