//! Colors of a heuristic's icon.
use vstd::prelude::*;

verus! {

/// A pair of ANSI 8-bit color indexes: one for plain rows, one for the row
/// under the cursor.
#[derive(Debug, Clone, Copy, PartialEq, Eq, Hash, Structural)]
pub struct IconColor {
    /// Color on an ordinary row.
    pub normal: u8,
    /// Color on the highlighted row.
    pub selected: u8,
}

impl IconColor {
    /// A color pair.
    pub fn new(normal: u8, selected: u8) -> (c: Self)
        ensures
            c.normal == normal,
            c.selected == selected,
    {
        IconColor { normal, selected }
    }

    /// The same color for both kinds of row.
    pub fn uniform(index: u8) -> (c: Self)
        ensures
            c.normal == index,
            c.selected == index,
    {
        IconColor { normal: index, selected: index }
    }

    /// Color on an ordinary row.
    pub fn normal(&self) -> (c: u8)
        ensures
            c == self.normal,
    {
        self.normal
    }

    /// Color on the highlighted row.
    pub fn selected(&self) -> (c: u8)
        ensures
            c == self.selected,
    {
        self.selected
    }
}

} // verus!
