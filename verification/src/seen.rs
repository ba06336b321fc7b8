//! The set of files that a walk has come across, by their identity.
use vstd::prelude::*;
use std::collections::HashMap;

verus! {

broadcast use vstd::std_specs::hash::group_hash_axioms;

/// What the operating system identifies a file by: the volume or device it
/// lives on, and its index or inode number there. Two paths with the same
/// key are the same file.
#[derive(Debug, Clone, Copy, PartialEq, Eq, Structural)]
pub struct FileKey {
    pub volume: u64,
    pub index: u128,
}

/// A set of file keys.
pub struct SeenFiles {
    /// For each index, the volumes on which a file of that index was seen.
    by_index: HashMap<u128, Vec<u64>>,
}

impl View for SeenFiles {
    type V = Set<FileKey>;

    closed spec fn view(&self) -> Set<FileKey> {
        Set::new(
            |k: FileKey|
                self.by_index@.contains_key(k.index) && self.by_index@[k.index]@.contains(k.volume),
        )
    }
}

impl SeenFiles {
    /// The empty set.
    pub fn new() -> (s: Self)
        ensures
            s@ == Set::<FileKey>::empty(),
    {
        let s = SeenFiles { by_index: HashMap::new() };
        s
    }

    /// Adds `key` to the set and tells whether it was new.
    pub fn insert(&mut self, key: FileKey) -> (fresh: bool)
        ensures
            fresh == !old(self)@.contains(key),
            final(self)@ == old(self)@.insert(key),
    {
        let mut volumes: Vec<u64> = match self.by_index.remove(&key.index) {
            Some(v) => v,
            None => Vec::new(),
        };
        let ghost known = volumes@;
        let mut found = false;
        let mut j: usize = 0;
        while j < volumes.len()
            invariant
                j <= volumes.len(),
                volumes@ == known,
                found == exists|i: int| 0 <= i < j && known[i] == key.volume,
            decreases volumes.len() - j,
        {
            if volumes[j] == key.volume {
                found = true;
            }
            j += 1;
        }
        if !found {
            volumes.push(key.volume);
        }
        let ghost listed = volumes@;
        proof {
            assert(listed.contains(key.volume)) by {
                if !found {
                    assert(listed[known.len() as int] == key.volume);
                } else {
                    let i = choose|i: int| 0 <= i < known.len() && known[i] == key.volume;
                }
            }
            assert forall|v: u64| v != key.volume implies listed.contains(v) == known.contains(v) by {
                if listed.contains(v) {
                    let i = choose|i: int| 0 <= i < listed.len() && listed[i] == v;
                }
                if known.contains(v) {
                    let i = choose|i: int| 0 <= i < known.len() && known[i] == v;
                    assert(listed[i] == v);
                }
            }
        }
        self.by_index.insert(key.index, volumes);
        !found
    }
}

} // verus!
