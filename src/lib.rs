use vstd::prelude::*;

pub mod cursor;
pub mod directory;
pub mod explorer;
pub mod input;
pub mod item;
pub mod key;
pub mod mode;
pub mod selection;

verus! {

} // verus!
