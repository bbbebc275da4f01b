//! One stored reference: its record, how it is decoded and written, and how
//! a symbolic reference is followed to an object id.

use vstd::prelude::*;
use crate::hash::ObjectId;
use crate::store::Store;
use crate::validate::FullName;

verus! {

/// The two kinds of reference.
#[derive(Clone, Copy, Debug, PartialEq, Eq, Structural)]
pub enum Kind {
    /// It holds an object id.
    Peeled,
    /// It names another reference.
    Symbolic,
}

/// What a reference points to.
#[derive(Clone, Copy, Debug, PartialEq, Eq)]
pub enum Target<'a> {
    Peeled(&'a ObjectId),
    Symbolic(&'a [u8]),
}

/// The content of a reference in contracts: the twenty bytes of an id, or
/// the bytes of a full name.
pub enum Record {
    Direct(Seq<u8>),
    Symbolic(Seq<u8>),
}

/// The content of a reference.
#[derive(Clone, Debug, PartialEq, Eq)]
pub enum State {
    Id(ObjectId),
    ValidatedPath(FullName),
}

impl View for State {
    type V = Record;

    open spec fn view(&self) -> Record {
        match self {
            State::Id(id) => Record::Direct(id@),
            State::ValidatedPath(name) => Record::Symbolic(name@),
        }
    }
}

impl State {
    /// A symbolic state holds a name of the grammar.
    pub open spec fn wf(&self) -> bool {
        match self {
            State::Id(_) => true,
            State::ValidatedPath(name) => name.wf(),
        }
    }

    /// The object id, where this is one.
    pub fn as_id(&self) -> (r: Option<&ObjectId>)
        ensures
            match self {
                State::Id(id) => r == Some(id),
                State::ValidatedPath(_) => r is None,
            },
    {
        match self {
            State::Id(id) => Some(id),
            State::ValidatedPath(_) => None,
        }
    }
}

/// A reference in contracts: where it was found and what it holds.
pub struct Resolved {
    pub relative_path: Seq<u8>,
    pub record: Record,
}

/// A reference as it was found in a store.
#[derive(Clone, Debug)]
pub struct Reference<'a> {
    /// The store that the reference was found in.
    pub parent: &'a Store,
    /// The path, relative to the store, at which it was found.
    pub relative_path: Vec<u8>,
    pub state: State,
}

impl<'a> View for Reference<'a> {
    type V = Resolved;

    open spec fn view(&self) -> Resolved {
        Resolved { relative_path: self.relative_path@, record: self.state@ }
    }
}

impl<'a> Reference<'a> {
    /// A symbolic reference names a reference by a name of the grammar.
    pub open spec fn wf(&self) -> bool {
        self.state.wf()
    }

    /// Return the kind of ref.
    pub fn kind(&self) -> (kind: Kind)
        ensures
            kind == (match self@.record {
                Record::Direct(_) => Kind::Peeled,
                Record::Symbolic(_) => Kind::Symbolic,
            }),
    {
        match self.state {
            State::ValidatedPath(_) => Kind::Symbolic,
            State::Id(_) => Kind::Peeled,
        }
    }

    /// Return the target to which this instance is pointing.
    pub fn target(&'a self) -> (target: Target<'a>)
        ensures
            match target {
                Target::Peeled(id) => self@.record == Record::Direct(id@),
                Target::Symbolic(name) => self@.record == Record::Symbolic(name@),
            },
    {
        match &self.state {
            State::ValidatedPath(name) => Target::Symbolic(name.as_bytes()),
            State::Id(id) => Target::Peeled(id),
        }
    }
}

impl<'a> Target<'a> {
    /// The kind of the reference that has this target.
    pub fn kind(&self) -> (kind: Kind)
        ensures
            kind == (match self {
                Target::Peeled(_) => Kind::Peeled,
                Target::Symbolic(_) => Kind::Symbolic,
            }),
    {
        match self {
            Target::Peeled(_) => Kind::Peeled,
            Target::Symbolic(_) => Kind::Symbolic,
        }
    }

    /// The object id, where the target is one.
    pub fn as_id(&self) -> (r: Option<&'a ObjectId>)
        ensures
            match self {
                Target::Peeled(id) => r == Some(*id),
                Target::Symbolic(_) => r is None,
            },
    {
        match self {
            Target::Peeled(id) => Some(*id),
            Target::Symbolic(_) => None,
        }
    }

    /// The name of the reference pointed to, where the target is one.
    pub fn as_name(&self) -> (r: Option<&'a [u8]>)
        ensures
            match self {
                Target::Peeled(_) => r is None,
                Target::Symbolic(name) => r == Some(*name),
            },
    {
        match self {
            Target::Peeled(_) => None,
            Target::Symbolic(name) => Some(*name),
        }
    }
}

} // verus!
