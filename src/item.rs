use vstd::prelude::*;

verus! {

/// One entry of a directory, as it stood when the listing was read.
pub struct Item {
    pub name: String,
    pub is_dir: bool,
}

impl Item {
    pub fn new(name: String, is_dir: bool) -> (r: Item)
        ensures
            r.name == name,
            r.is_dir == is_dir,
    {
        Item { name, is_dir }
    }

    /// An equal copy of this entry.
    pub fn duplicate(&self) -> (r: Item)
        ensures
            r == *self,
    {
        Item { name: self.name.clone(), is_dir: self.is_dir }
    }
}

} // verus!
