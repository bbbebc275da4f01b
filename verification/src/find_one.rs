//! Lookup of a partial name: its candidate paths in order of priority, and
//! the first of them that the store holds.

use vstd::prelude::*;
use crate::bytes::{append, starts_with, to_vec};
use crate::decode::{decode_spec, DecodeError, DecodeFault};
use crate::reference::{Record, Reference, Resolved};
use crate::safe_name::SafePartialName;
use crate::store::Store;
use crate::validate::{
    fault_of, is_partial_name, is_standalone, partial_name_verdict, NameError, NameFault,
    UNDERSCORE,
};

verus! {

/// Why the record at a path cannot be had, in contracts.
pub enum AccessFault {
    Decode { err: DecodeFault, relative_path: Seq<u8> },
    Io { relative_path: Seq<u8> },
}

/// Why the record at a path cannot be had.
#[derive(Clone, Debug, PartialEq, Eq)]
pub enum AccessError {
    /// Something is stored at the path and is no record.
    Decode { err: DecodeError, relative_path: Vec<u8> },
    /// The read of the path failed.
    Io { relative_path: Vec<u8> },
}

impl View for AccessError {
    type V = AccessFault;

    open spec fn view(&self) -> AccessFault {
        match self {
            AccessError::Decode { err, relative_path } => AccessFault::Decode {
                err: err@,
                relative_path: relative_path@,
            },
            AccessError::Io { relative_path } => AccessFault::Io { relative_path: relative_path@ },
        }
    }
}

/// The error of a lookup in contracts.
pub enum FindFault {
    InvalidName(NameFault),
    Decode { err: DecodeFault, relative_path: Seq<u8> },
    Io { relative_path: Seq<u8> },
    NotFound { name: Seq<u8> },
}

/// The error returned by [`Store::find_one()`] and [`Store::find_one_existing()`].
#[derive(Clone, Debug, PartialEq, Eq)]
pub enum FindError {
    /// The name given is no partial name.
    InvalidName(NameError),
    /// A candidate is stored and is no record.
    Decode { err: DecodeError, relative_path: Vec<u8> },
    /// The read of a candidate failed.
    Io { relative_path: Vec<u8> },
    /// No candidate is stored, where one was expected.
    NotFound { name: Vec<u8> },
}

impl View for FindError {
    type V = FindFault;

    open spec fn view(&self) -> FindFault {
        match self {
            FindError::InvalidName(err) => FindFault::InvalidName(err@),
            FindError::Decode { err, relative_path } => FindFault::Decode {
                err: err@,
                relative_path: relative_path@,
            },
            FindError::Io { relative_path } => FindFault::Io { relative_path: relative_path@ },
            FindError::NotFound { name } => FindFault::NotFound { name: name@ },
        }
    }
}

/// An access fault as the fault of a lookup.
pub open spec fn find_fault_of(fault: AccessFault) -> FindFault {
    match fault {
        AccessFault::Decode { err, relative_path } => FindFault::Decode { err, relative_path },
        AccessFault::Io { relative_path } => FindFault::Io { relative_path },
    }
}

fn find_error_of(err: AccessError) -> (r: FindError)
    ensures
        r@ == find_fault_of(err@),
{
    match err {
        AccessError::Decode { err, relative_path } => FindError::Decode { err, relative_path },
        AccessError::Io { relative_path } => FindError::Io { relative_path },
    }
}

/// The bytes `refs/`.
pub open spec fn refs_dir() -> Seq<u8> {
    seq![0x72u8, 0x65u8, 0x66u8, 0x73u8, 0x2fu8]
}

/// The bytes `tags/`.
pub open spec fn tags_dir() -> Seq<u8> {
    seq![0x74u8, 0x61u8, 0x67u8, 0x73u8, 0x2fu8]
}

/// The bytes `heads/`.
pub open spec fn heads_dir() -> Seq<u8> {
    seq![0x68u8, 0x65u8, 0x61u8, 0x64u8, 0x73u8, 0x2fu8]
}

/// The bytes `remotes/`.
pub open spec fn remotes_dir() -> Seq<u8> {
    seq![0x72u8, 0x65u8, 0x6du8, 0x6fu8, 0x74u8, 0x65u8, 0x73u8, 0x2fu8]
}

/// The bytes `/HEAD`.
pub open spec fn head_leaf() -> Seq<u8> {
    seq![0x2fu8, 0x48u8, 0x45u8, 0x41u8, 0x44u8]
}

/// A name that is a full path as it stands: it opens with `refs/`, or it is
/// a standalone name such as `HEAD`.
pub open spec fn is_anchored(name: Seq<u8>) -> bool {
    starts_with(name, refs_dir()) || is_standalone(name)
}

/// The paths under `refs/` at which `name` is looked for, highest priority
/// first.
pub open spec fn expansions(name: Seq<u8>) -> Seq<Seq<u8>> {
    seq![
        refs_dir() + name,
        refs_dir() + tags_dir() + name,
        refs_dir() + heads_dir() + name,
        refs_dir() + remotes_dir() + name,
        refs_dir() + remotes_dir() + name + head_leaf(),
    ]
}

/// The candidate paths of `name`, highest priority first: the name itself
/// where it is anchored, then its expansions.
pub open spec fn candidates_spec(name: Seq<u8>) -> Seq<Seq<u8>> {
    if is_anchored(name) {
        seq![name] + expansions(name)
    } else {
        expansions(name)
    }
}

/// The views of a list of paths.
pub open spec fn views(paths: Seq<Vec<u8>>) -> Seq<Seq<u8>> {
    Seq::new(paths.len(), |i: int| paths[i]@)
}

impl Store {
    /// The record stored at `path`: none where nothing is stored there, a
    /// fault where the read fails or the content is no record.
    pub open spec fn resolve(&self, path: Seq<u8>) -> Result<Option<Record>, AccessFault> {
        match self.lookup(path) {
            None => Ok(None),
            Some(None) => Err(AccessFault::Io { relative_path: path }),
            Some(Some(content)) => match decode_spec(content) {
                Ok(record) => Ok(Some(record)),
                Err(err) => Err(AccessFault::Decode { err, relative_path: path }),
            },
        }
    }

    /// The outcome of asking for `candidates[from]` and those after it in
    /// turn: the first that is stored decides, by its record or its fault.
    pub open spec fn first_found(&self, candidates: Seq<Seq<u8>>, from: int) -> Result<
        Option<Resolved>,
        AccessFault,
    >
        decreases candidates.len() - from,
    {
        if from < 0 || from >= candidates.len() {
            Ok(None)
        } else {
            match self.resolve(candidates[from]) {
                Ok(None) => self.first_found(candidates, from + 1),
                Ok(Some(record)) => Ok(Some(Resolved { relative_path: candidates[from], record })),
                Err(fault) => Err(fault),
            }
        }
    }

    /// The outcome of looking for `name`.
    pub open spec fn find_spec(&self, name: Seq<u8>) -> Result<Option<Resolved>, FindFault> {
        match partial_name_verdict(name) {
            Some(violation) => Err(FindFault::InvalidName(fault_of(violation, name))),
            None => match self.first_found(candidates_spec(name), 0) {
                Ok(found) => Ok(found),
                Err(fault) => Err(find_fault_of(fault)),
            },
        }
    }

    /// The outcome of looking for `name` where it is expected to exist.
    pub open spec fn find_existing_spec(&self, name: Seq<u8>) -> Result<Resolved, FindFault> {
        match self.find_spec(name) {
            Ok(Some(found)) => Ok(found),
            Ok(None) => Err(FindFault::NotFound { name }),
            Err(fault) => Err(fault),
        }
    }

    /// Reads and decodes what is stored at exactly `relative_path`.
    pub fn find_at<'s>(&'s self, relative_path: &[u8]) -> (r: Result<
        Option<Reference<'s>>,
        AccessError,
    >)
        ensures
            match r {
                Ok(None) => self.resolve(relative_path@) == Ok::<Option<Record>, AccessFault>(None),
                Ok(Some(found)) => found.wf() && found.parent == self && found.relative_path@
                    == relative_path@ && self.resolve(relative_path@) == Ok::<
                    Option<Record>,
                    AccessFault,
                >(Some(found@.record)),
                Err(err) => self.resolve(relative_path@) == Err::<Option<Record>, AccessFault>(
                    err@,
                ),
            },
    {
        match self.read(relative_path) {
            None => Ok(None),
            Some(None) => Err(AccessError::Io { relative_path: to_vec(relative_path) }),
            Some(Some(content)) => match Reference::try_from_path(self, relative_path, content) {
                Ok(found) => Ok(Some(found)),
                Err(err) => Err(AccessError::Decode { err, relative_path: to_vec(relative_path) }),
            },
        }
    }

    /// Find the reference that the partial name `partial` stands for: the
    /// first of its candidate paths at which something is stored. Nothing
    /// stored at any of them is `Ok(None)`. A name that is no partial name
    /// is refused before the store is asked.
    pub fn find_one<'s>(&'s self, partial: &[u8]) -> (r: Result<Option<Reference<'s>>, FindError>)
        ensures
            match r {
                Ok(None) => self.find_spec(partial@) == Ok::<Option<Resolved>, FindFault>(None),
                Ok(Some(found)) => found.wf() && found.parent == self && self.find_spec(partial@)
                    == Ok::<Option<Resolved>, FindFault>(Some(found@)),
                Err(err) => self.find_spec(partial@) == Err::<Option<Resolved>, FindFault>(err@),
            },
    {
        let name = match SafePartialName::try_from(partial) {
            Ok(name) => name,
            Err(err) => {
                return Err(FindError::InvalidName(err));
            },
        };
        let paths = candidates(&name);
        let mut i: usize = 0;
        while i < paths.len()
            invariant
                i <= paths.len(),
                is_partial_name(partial@),
                views(paths@) == candidates_spec(partial@),
                self.first_found(candidates_spec(partial@), 0) == self.first_found(
                    candidates_spec(partial@),
                    i as int,
                ),
            decreases paths.len() - i,
        {
            assert(views(paths@)[i as int] == paths@[i as int]@);
            match self.find_at(paths[i].as_slice()) {
                Ok(None) => {},
                Ok(Some(found)) => {
                    return Ok(Some(found));
                },
                Err(err) => {
                    return Err(find_error_of(err));
                },
            }
            i += 1;
        }
        Ok(None)
    }

    /// Like [`Store::find_one()`], for a reference that must exist: where
    /// none does, the error is `NotFound` with the name asked for.
    pub fn find_one_existing<'s>(&'s self, partial: &[u8]) -> (r: Result<Reference<'s>, FindError>)
        ensures
            match r {
                Ok(found) => found.wf() && found.parent == self && self.find_existing_spec(
                    partial@,
                ) == Ok::<Resolved, FindFault>(found@),
                Err(err) => self.find_existing_spec(partial@) == Err::<Resolved, FindFault>(err@),
            },
    {
        match self.find_one(partial) {
            Ok(Some(found)) => Ok(found),
            Ok(None) => Err(FindError::NotFound { name: to_vec(partial) }),
            Err(err) => Err(err),
        }
    }
}

fn refs_prefix() -> (out: Vec<u8>)
    ensures
        out@ == refs_dir(),
{
    let out: Vec<u8> = vec![0x72u8, 0x65u8, 0x66u8, 0x73u8, 0x2fu8];
    assert(out@ =~= refs_dir());
    out
}

fn under_refs(category: &[u8], name: &[u8]) -> (out: Vec<u8>)
    ensures
        out@ == refs_dir() + category@ + name@,
{
    let mut out = refs_prefix();
    append(&mut out, category);
    append(&mut out, name);
    out
}

fn anchored(name: &[u8]) -> (r: bool)
    ensures
        r == is_anchored(name@),
{
    let prefix = refs_prefix();
    if name.len() >= 5 && crate::bytes::same(
        vstd::slice::slice_subrange(name, 0, 5),
        prefix.as_slice(),
    ) {
        return true;
    }
    let mut i: usize = 0;
    while i < name.len()
        invariant
            i <= name.len(),
            !starts_with(name@, refs_dir()),
            forall|k: int|
                0 <= k < i ==> crate::validate::is_upper(#[trigger] name@[k]) || name@[k]
                    == UNDERSCORE,
        decreases name.len() - i,
    {
        let b: u8 = name[i];
        if !((0x41 <= b && b <= 0x5a) || b == UNDERSCORE) {
            return false;
        }
        i += 1;
    }
    true
}

/// The candidate paths of a partial name, highest priority first.
pub fn candidates(name: &SafePartialName) -> (paths: Vec<Vec<u8>>)
    ensures
        views(paths@) == candidates_spec(name@),
{
    let bytes = name.as_bytes();
    let empty: Vec<u8> = Vec::new();
    let tags: Vec<u8> = vec![0x74u8, 0x61u8, 0x67u8, 0x73u8, 0x2fu8];
    let heads: Vec<u8> = vec![0x68u8, 0x65u8, 0x61u8, 0x64u8, 0x73u8, 0x2fu8];
    let remotes: Vec<u8> = vec![0x72u8, 0x65u8, 0x6du8, 0x6fu8, 0x74u8, 0x65u8, 0x73u8, 0x2fu8];
    let head: Vec<u8> = vec![0x2fu8, 0x48u8, 0x45u8, 0x41u8, 0x44u8];
    assert(tags@ =~= tags_dir());
    assert(heads@ =~= heads_dir());
    assert(remotes@ =~= remotes_dir());
    assert(head@ =~= head_leaf());
    let mut paths: Vec<Vec<u8>> = Vec::new();
    if anchored(bytes) {
        paths.push(to_vec(bytes));
    }
    let ghost lead = views(paths@);
    assert(lead =~= if is_anchored(name@) {
        seq![name@]
    } else {
        Seq::<Seq<u8>>::empty()
    });
    let direct = under_refs(empty.as_slice(), bytes);
    assert(direct@ =~= refs_dir() + name@);
    paths.push(direct);
    paths.push(under_refs(tags.as_slice(), bytes));
    paths.push(under_refs(heads.as_slice(), bytes));
    paths.push(under_refs(remotes.as_slice(), bytes));
    let mut last = under_refs(remotes.as_slice(), bytes);
    append(&mut last, head.as_slice());
    paths.push(last);
    assert(views(paths@) =~= lead + expansions(name@));
    assert(seq![name@] + expansions(name@) =~= candidates_spec(name@) || !is_anchored(name@));
    assert(Seq::<Seq<u8>>::empty() + expansions(name@) =~= expansions(name@));
    paths
}

} // verus!
