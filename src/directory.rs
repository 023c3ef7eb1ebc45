use vstd::prelude::*;

use crate::item::Item;

verus! {

broadcast use vstd::seq_lib::group_filter_ensures;

/// Why an operation on a listing did not happen.
#[derive(Clone, Copy, Debug, PartialEq, Eq, Structural)]
pub enum Error {
    /// The filesystem refused: unreadable directory, failed removal or rename.
    Io,
    /// The index or path no longer names an entry.
    NotFound,
    /// Removal of a directory through the file path, which is never done.
    InvalidOperation,
}

/// The directories of `s`, in their order.
pub open spec fn dir_entries(s: Seq<Item>) -> Seq<Item> {
    s.filter(|e: Item| e.is_dir)
}

/// The plain files of `s`, in their order.
pub open spec fn file_entries(s: Seq<Item>) -> Seq<Item> {
    s.filter(|e: Item| !e.is_dir)
}

/// `s` with every directory ahead of every file, each kind in the order it had.
pub open spec fn dirs_then_files(s: Seq<Item>) -> Seq<Item> {
    dir_entries(s) + file_entries(s)
}

/// No file stands before a directory.
pub open spec fn is_dirs_first(s: Seq<Item>) -> bool {
    forall|i: int, j: int| 0 <= i < j < s.len() && #[trigger] s[j].is_dir ==> #[trigger] s[i].is_dir
}

/// Whether some entry of `s` is called `name`.
pub open spec fn has_name(s: Seq<Item>, name: Seq<char>) -> bool {
    exists|k: int| 0 <= k < s.len() && #[trigger] s[k].name@ == name
}

/// The snapshot of one directory: where it is and what it held when last read.
pub struct Directory {
    /// The directory's path, one component per element, from the root.
    pub path: Vec<String>,
    pub count: usize,
    pub items: Vec<Item>,
}

/// An equal copy of a path.
pub fn copy_path(p: &Vec<String>) -> (r: Vec<String>)
    ensures
        r@ == p@,
{
    let mut r: Vec<String> = Vec::new();
    let mut i: usize = 0;
    while i < p.len()
        invariant
            i <= p.len(),
            r@ == p@.subrange(0, i as int),
        decreases p.len() - i,
    {
        r.push(p[i].clone());
        i = i + 1;
    }
    assert(r@ =~= p@);
    r
}

/// Reorders `entries` so that directories come first, keeping the order within each kind.
pub fn sort_dirs_first(entries: &Vec<Item>) -> (r: Vec<Item>)
    ensures
        r@ == dirs_then_files(entries@),
{
    let mut dirs: Vec<Item> = Vec::new();
    let mut files: Vec<Item> = Vec::new();
    let mut i: usize = 0;
    while i < entries.len()
        invariant
            i <= entries.len(),
            dirs@ == dir_entries(entries@.subrange(0, i as int)),
            files@ == file_entries(entries@.subrange(0, i as int)),
        decreases entries.len() - i,
    {
        let ghost before = entries@.subrange(0, i as int);
        let ghost after = entries@.subrange(0, i + 1);
        assert(after.drop_last() =~= before);
        assert(after.last() == entries@[i as int]);
        reveal(Seq::filter);
        let e = entries[i].duplicate();
        if e.is_dir {
            dirs.push(e);
        } else {
            files.push(e);
        }
        i = i + 1;
    }
    assert(entries@.subrange(0, entries.len() as int) =~= entries@);
    dirs.append(&mut files);
    dirs
}

/// Directories first is what the reordering gives, and no entry is gained or lost.
pub proof fn lemma_dirs_then_files(s: Seq<Item>)
    ensures
        is_dirs_first(dirs_then_files(s)),
        forall|x: Item| #[trigger] dirs_then_files(s).contains(x) <==> s.contains(x),
        dirs_then_files(s).len() == s.len(),
{
    let d = dir_entries(s);
    let f = file_entries(s);
    let r = dirs_then_files(s);
    assert forall|i: int, j: int| 0 <= i < j < r.len() && #[trigger] r[j].is_dir implies #[trigger] r[i].is_dir by {
        if i >= d.len() {
            assert(r[i] == f[i - d.len()]);
            assert(r[j] == f[j - d.len()]);
            assert(!f[j - d.len()].is_dir);
        } else {
            assert(r[i] == d[i]);
        }
    }
    assert forall|x: Item| #[trigger] r.contains(x) <==> s.contains(x) by {
        if r.contains(x) {
            let k = choose|k: int| 0 <= k < r.len() && r[k] == x;
            if k < d.len() {
                assert(d[k] == x);
                s.lemma_filter_contains_rev(|e: Item| e.is_dir, x);
            } else {
                assert(f[k - d.len()] == x);
                s.lemma_filter_contains_rev(|e: Item| !e.is_dir, x);
            }
        }
        if s.contains(x) {
            let k = choose|k: int| 0 <= k < s.len() && s[k] == x;
            if x.is_dir {
                assert(d.contains(s[k]));
                let m = choose|m: int| 0 <= m < d.len() && d[m] == x;
                assert(r[m] == x);
            } else {
                assert(f.contains(s[k]));
                let m = choose|m: int| 0 <= m < f.len() && f[m] == x;
                assert(r[d.len() + m] == x);
            }
        }
    }
    lemma_split_len(s);
}

/// Every entry is either a directory or a file.
proof fn lemma_split_len(s: Seq<Item>)
    ensures
        dir_entries(s).len() + file_entries(s).len() == s.len(),
    decreases s.len(),
{
    reveal(Seq::filter);
    if s.len() > 0 {
        lemma_split_len(s.drop_last());
    }
}

impl Directory {
    /// A snapshot is consistent: the count matches and directories come first.
    pub open spec fn wf(&self) -> bool {
        &&& self.count == self.items.len()
        &&& is_dirs_first(self.items@)
    }

    /// The full path of entry `index`.
    pub open spec fn path_at(&self, index: int) -> Seq<String> {
        self.path@.push(self.items@[index].name)
    }

    /// A listing of `path` that has not been read yet.
    pub fn new(path: Vec<String>) -> (r: Directory)
        ensures
            r.wf(),
            r.path == path,
            r.count == 0,
            r.items@.len() == 0,
    {
        Directory { path, count: 0, items: Vec::new() }
    }

    /// Replaces the entries with what reading the directory gave, directories
    /// first; a failed read leaves the snapshot as it was and is handed back.
    pub fn refresh(&mut self, listing: Result<Vec<Item>, Error>) -> (r: Result<(), Error>)
        requires
            old(self).wf(),
        ensures
            final(self).wf(),
            final(self).path == old(self).path,
            match listing {
                Ok(entries) => {
                    &&& r is Ok
                    &&& final(self).items@ == dirs_then_files(entries@)
                    &&& final(self).count == entries@.len()
                },
                Err(e) => r == Err::<(), Error>(e) && *final(self) == *old(self),
            },
    {
        match listing {
            Ok(entries) => {
                let sorted = sort_dirs_first(&entries);
                proof {
                    lemma_dirs_then_files(entries@);
                }
                self.count = sorted.len();
                self.items = sorted;
                Ok(())
            },
            Err(e) => Err(e),
        }
    }

    /// Moves to `path` and installs its listing; a failed read changes nothing.
    pub fn cd(&mut self, path: Vec<String>, listing: Result<Vec<Item>, Error>) -> (r: Result<
        (),
        Error,
    >)
        requires
            old(self).wf(),
        ensures
            final(self).wf(),
            match listing {
                Ok(entries) => {
                    &&& r is Ok
                    &&& final(self).path == path
                    &&& final(self).items@ == dirs_then_files(entries@)
                    &&& final(self).count == entries@.len()
                },
                Err(e) => r == Err::<(), Error>(e) && *final(self) == *old(self),
            },
    {
        match listing {
            Ok(entries) => {
                self.path = path;
                self.refresh(Ok(entries))
            },
            Err(e) => Err(e),
        }
    }

    /// The entry at `index`, or nothing past the end.
    pub fn item_at(&self, index: usize) -> (r: Option<&Item>)
        ensures
            r == (if index < self.items@.len() {
                Some(&self.items@[index as int])
            } else {
                None
            }),
    {
        if index < self.items.len() {
            Some(&self.items[index])
        } else {
            None
        }
    }

    /// The full path of the entry at `index`, or nothing past the end.
    pub fn path_of(&self, index: usize) -> (r: Option<Vec<String>>)
        ensures
            match r {
                Some(p) => index < self.items@.len() && p@ == self.path_at(index as int),
                None => index >= self.items@.len(),
            },
    {
        if index < self.items.len() {
            let mut p = copy_path(&self.path);
            p.push(self.items[index].name.clone());
            Some(p)
        } else {
            None
        }
    }

    /// The path of the directory that holds this one, or nothing at the root.
    pub fn parent(&self) -> (r: Option<Vec<String>>)
        ensures
            match r {
                Some(p) => self.path@.len() > 0 && p@ == self.path@.drop_last(),
                None => self.path@.len() == 0,
            },
    {
        if self.path.len() == 0 {
            None
        } else {
            let mut p = copy_path(&self.path);
            p.pop();
            assert(p@ =~= self.path@.drop_last());
            Some(p)
        }
    }

    /// The last component of the path, or nothing at the root.
    pub fn name(&self) -> (r: Option<&String>)
        ensures
            r == (if self.path@.len() > 0 {
                Some(&self.path@.last())
            } else {
                None
            }),
    {
        if self.path.len() == 0 {
            None
        } else {
            Some(&self.path[self.path.len() - 1])
        }
    }

    /// The first directory entry called `name`.
    pub fn position_of_dir(&self, name: &String) -> (r: Option<usize>)
        ensures
            match r {
                Some(i) => {
                    &&& i < self.items@.len()
                    &&& self.items@[i as int].is_dir
                    &&& self.items@[i as int].name@ == name@
                    &&& forall|j: int|
                        0 <= j < i ==> !(#[trigger] self.items@[j].is_dir && self.items@[j].name@
                            == name@)
                },
                None => forall|j: int|
                    0 <= j < self.items@.len() ==> !(#[trigger] self.items@[j].is_dir
                        && self.items@[j].name@ == name@),
            },
    {
        let mut i: usize = 0;
        while i < self.items.len()
            invariant
                i <= self.items@.len(),
                forall|j: int|
                    0 <= j < i ==> !(#[trigger] self.items@[j].is_dir && self.items@[j].name@
                        == name@),
            decreases self.items.len() - i,
        {
            if self.items[i].is_dir && self.items[i].name == *name {
                return Some(i);
            }
            i = i + 1;
        }
        None
    }

    /// Decides the removal of entry `index`: the path of the file to remove.
    /// Directories are never removed.
    pub fn delete_item(&self, index: usize) -> (r: Result<Vec<String>, Error>)
        ensures
            index >= self.items@.len() ==> r == Err::<Vec<String>, Error>(Error::NotFound),
            index < self.items@.len() && self.items@[index as int].is_dir ==> r == Err::<
                Vec<String>,
                Error,
            >(Error::InvalidOperation),
            index < self.items@.len() && !self.items@[index as int].is_dir ==> (r matches Ok(p)
                && p@ == self.path_at(index as int)),
    {
        match self.item_at(index) {
            None => Err(Error::NotFound),
            Some(item) => {
                if item.is_dir {
                    Err(Error::InvalidOperation)
                } else {
                    match self.path_of(index) {
                        Some(p) => Ok(p),
                        None => Err(Error::NotFound),
                    }
                }
            },
        }
    }

    /// Decides the rename of entry `index` to `to`: its path and the sibling path
    /// that it is to take.
    pub fn rename_item(&self, index: usize, to: String) -> (r: Result<
        (Vec<String>, Vec<String>),
        Error,
    >)
        ensures
            index >= self.items@.len() ==> r == Err::<(Vec<String>, Vec<String>), Error>(
                Error::NotFound,
            ),
            index < self.items@.len() ==> (r matches Ok((from, dest)) && from@ == self.path_at(
                index as int,
            ) && dest@ == self.path@.push(to)),
    {
        match self.path_of(index) {
            None => Err(Error::NotFound),
            Some(from) => {
                let mut dest = copy_path(&self.path);
                dest.push(to);
                Ok((from, dest))
            },
        }
    }
}

/// Renaming entry `index` to `to` and then reading the directory again gives a
/// listing that holds `to` and no longer holds the old name.
pub proof fn lemma_rename_round_trip(d: Directory, index: int, to: String, entries: Seq<Item>)
    requires
        d.wf(),
        0 <= index < d.items@.len(),
        to@ != d.items@[index].name@,
        forall|j: int|
            0 <= j < d.items@.len() && j != index ==> #[trigger] d.items@[j].name@
                != d.items@[index].name@,
        forall|x: Item|
            #[trigger] entries.contains(x) <==> d.items@.update(
                index,
                Item { name: to, is_dir: d.items@[index].is_dir },
            ).contains(x),
    ensures
        has_name(dirs_then_files(entries), to@),
        !has_name(dirs_then_files(entries), d.items@[index].name@),
{
    let old_name = d.items@[index].name@;
    let renamed = d.items@.update(index, Item { name: to, is_dir: d.items@[index].is_dir });
    let r = dirs_then_files(entries);
    lemma_dirs_then_files(entries);
    let x = renamed[index];
    assert(renamed.contains(x));
    assert(r.contains(x));
    let k = choose|k: int| 0 <= k < r.len() && r[k] == x;
    assert(r[k].name@ == to@);
    if has_name(r, old_name) {
        let m = choose|m: int| 0 <= m < r.len() && #[trigger] r[m].name@ == old_name;
        assert(r.contains(r[m]));
        assert(renamed.contains(r[m]));
        let j = choose|j: int| 0 <= j < renamed.len() && renamed[j] == r[m];
        if j == index {
            assert(false);
        } else {
            assert(renamed[j] == d.items@[j]);
            assert(false);
        }
    }
}

} // verus!
