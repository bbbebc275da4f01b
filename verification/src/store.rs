//! The store of references: what a read of each relative path gives.

use vstd::prelude::*;
use crate::bytes::{same, to_vec};

verus! {

/// One path of a store with what a read of it gives: the content, or
/// nothing where the read fails.
#[derive(Clone, Debug)]
pub struct Entry {
    pub path: Vec<u8>,
    pub content: Option<Vec<u8>>,
}

impl Entry {
    /// The content in contracts.
    pub open spec fn content_view(&self) -> Option<Seq<u8>> {
        match self.content {
            Some(bytes) => Some(bytes@),
            None => None,
        }
    }
}

/// The map that a list of entries stands for: a later entry replaces an
/// earlier one of the same path.
pub open spec fn entries_map(entries: Seq<Entry>) -> Map<Seq<u8>, Option<Seq<u8>>>
    decreases entries.len(),
{
    if entries.len() == 0 {
        Map::empty()
    } else {
        entries_map(entries.drop_last()).insert(
            entries.last().path@,
            entries.last().content_view(),
        )
    }
}

/// A snapshot of the stored references, by relative path.
#[derive(Clone, Debug)]
pub struct Store {
    entries: Vec<Entry>,
}

impl View for Store {
    type V = Map<Seq<u8>, Option<Seq<u8>>>;

    closed spec fn view(&self) -> Map<Seq<u8>, Option<Seq<u8>>> {
        entries_map(self.entries@)
    }
}

proof fn lemma_last_match(entries: Seq<Entry>, path: Seq<u8>, at: int)
    requires
        0 <= at < entries.len(),
        entries[at].path@ == path,
        forall|j: int| at < j < entries.len() ==> (#[trigger] entries[j]).path@ != path,
    ensures
        entries_map(entries).contains_key(path),
        entries_map(entries)[path] == entries[at].content_view(),
    decreases entries.len(),
{
    if at + 1 < entries.len() {
        lemma_last_match(entries.drop_last(), path, at);
    }
}

proof fn lemma_no_match(entries: Seq<Entry>, path: Seq<u8>)
    requires
        forall|j: int| 0 <= j < entries.len() ==> (#[trigger] entries[j]).path@ != path,
    ensures
        !entries_map(entries).contains_key(path),
    decreases entries.len(),
{
    if entries.len() > 0 {
        lemma_no_match(entries.drop_last(), path);
    }
}

impl Store {
    /// What a read of `path` gives: `None` where nothing is stored there,
    /// `Some(None)` where the read fails, else the content.
    pub open spec fn lookup(&self, path: Seq<u8>) -> Option<Option<Seq<u8>>> {
        if self@.contains_key(path) {
            Some(self@[path])
        } else {
            None
        }
    }

    /// A store that holds nothing.
    pub fn new() -> (store: Store)
        ensures
            store@ == Map::<Seq<u8>, Option<Seq<u8>>>::empty(),
    {
        Store { entries: Vec::new() }
    }

    /// Stores `content` at `path`, in place of what was there.
    pub fn insert(&mut self, path: &[u8], content: &[u8])
        ensures
            final(self)@ == old(self)@.insert(path@, Some(content@)),
    {
        let entry = Entry { path: to_vec(path), content: Some(to_vec(content)) };
        self.entries.push(entry);
        assert(self.entries@.drop_last() == old(self).entries@);
    }

    /// Marks `path` as present with a read that fails.
    pub fn insert_unreadable(&mut self, path: &[u8])
        ensures
            final(self)@ == old(self)@.insert(path@, None),
    {
        let entry = Entry { path: to_vec(path), content: None };
        self.entries.push(entry);
        assert(self.entries@.drop_last() == old(self).entries@);
    }

    /// Whether anything is stored at `path`.
    pub fn contains(&self, path: &[u8]) -> (found: bool)
        ensures
            found == self@.contains_key(path@),
    {
        self.read(path).is_some()
    }

    /// Reads what is stored at `path`: `None` where nothing is, `Some(None)`
    /// where the read fails, else the content.
    pub fn read(&self, path: &[u8]) -> (r: Option<Option<&[u8]>>)
        ensures
            match r {
                None => self.lookup(path@) is None,
                Some(None) => self.lookup(path@) == Some(None::<Seq<u8>>),
                Some(Some(content)) => self.lookup(path@) == Some(Some(content@)),
            },
    {
        let mut i: usize = self.entries.len();
        while i > 0
            invariant
                i <= self.entries.len(),
                forall|j: int| i <= j < self.entries.len() ==> (#[trigger] self.entries[j]).path@ != path@,
            decreases i,
        {
            i -= 1;
            if same(self.entries[i].path.as_slice(), path) {
                proof {
                    lemma_last_match(self.entries@, path@, i as int);
                }
                return match &self.entries[i].content {
                    Some(bytes) => Some(Some(bytes.as_slice())),
                    None => Some(None),
                };
            }
        }
        proof {
            lemma_no_match(self.entries@, path@);
        }
        None
    }
}

} // verus!
