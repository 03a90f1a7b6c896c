//! The color tables of a pixmap description.

use vstd::prelude::*;

verus! {

/// One color of a pixmap description: the key that the pixel rows use for it,
/// and the color that the key stands for.
#[derive(Clone, Copy, Debug, PartialEq, Eq, Structural)]
pub struct XpmCol {
    pub name: i32,
    pub col: i32,
}

/// A color that can be asked for by its name.
pub struct ColName {
    pub name: String,
    pub color: i32,
}

/// The position of the first entry of `table` at or after `from` that has
/// the key `name`, or the length of the table where there is none.
pub open spec fn first_with_key(table: Seq<XpmCol>, name: i32, from: int) -> int
    decreases table.len() - from,
{
    if from < 0 || from >= table.len() {
        table.len() as int
    } else if table[from].name == name {
        from
    } else {
        first_with_key(table, name, from + 1)
    }
}

/// The color that a table gives for a key: that of the first entry with the
/// key, or `None` where no entry has it.
pub open spec fn color_of_key(table: Seq<XpmCol>, name: i32) -> Option<i32> {
    let at = first_with_key(table, name, 0);
    if at < table.len() {
        Some(table[at].col)
    } else {
        None
    }
}

/// Looks a key up in the color table of a pixmap description.
pub fn mlx_int_find_in_pcm(table: &Vec<XpmCol>, name: i32) -> (color: Option<i32>)
    ensures
        color == color_of_key(table@, name),
{
    let mut at: usize = 0;
    while at < table.len()
        invariant
            at <= table@.len(),
            first_with_key(table@, name, 0) == first_with_key(table@, name, at as int),
        decreases table@.len() - at,
    {
        if table[at].name == name {
            return Some(table[at].col);
        }
        at += 1;
    }
    None
}

} // verus!
