//! Following a symbolic reference: one hop, or as many as it takes to reach
//! an object id, with revisits refused and the number of hops bounded.

use vstd::prelude::*;
use crate::bytes::{same, to_vec};
use crate::decode::{DecodeError, DecodeFault};
use crate::find_one::{views, AccessError, AccessFault};
use crate::hash::ObjectId;
use crate::reference::{Record, Reference, Resolved, State};
use crate::store::Store;

verus! {

/// The number of symbolic references that one peel follows at most.
pub const MAX_REF_DEPTH: usize = 5;

/// The error of peeling in contracts.
pub enum PeelFault {
    NotFound { relative_path: Seq<u8> },
    Decode { err: DecodeFault, relative_path: Seq<u8> },
    Io { relative_path: Seq<u8> },
    Cycle { first_seen_path: Seq<u8> },
    DepthExceeded { max_depth: usize },
}

/// The error returned by [`Reference::peel_one_level()`] and
/// [`Reference::peel_to_id_in_place()`].
#[derive(Clone, Debug, PartialEq, Eq)]
pub enum PeelError {
    /// Nothing is stored at the path that a symbolic reference names.
    NotFound { relative_path: Vec<u8> },
    /// What is stored there is no record.
    Decode { err: DecodeError, relative_path: Vec<u8> },
    /// The read of that path failed.
    Io { relative_path: Vec<u8> },
    /// The chain comes back to a path that it has been at.
    Cycle { first_seen_path: Vec<u8> },
    /// The chain is longer than `max_depth` symbolic references.
    DepthExceeded { max_depth: usize },
}

impl View for PeelError {
    type V = PeelFault;

    open spec fn view(&self) -> PeelFault {
        match self {
            PeelError::NotFound { relative_path } => PeelFault::NotFound {
                relative_path: relative_path@,
            },
            PeelError::Decode { err, relative_path } => PeelFault::Decode {
                err: err@,
                relative_path: relative_path@,
            },
            PeelError::Io { relative_path } => PeelFault::Io { relative_path: relative_path@ },
            PeelError::Cycle { first_seen_path } => PeelFault::Cycle {
                first_seen_path: first_seen_path@,
            },
            PeelError::DepthExceeded { max_depth } => PeelFault::DepthExceeded {
                max_depth: *max_depth,
            },
        }
    }
}

/// An access fault as the fault of a peel.
pub open spec fn peel_fault_of(fault: AccessFault) -> PeelFault {
    match fault {
        AccessFault::Decode { err, relative_path } => PeelFault::Decode { err, relative_path },
        AccessFault::Io { relative_path } => PeelFault::Io { relative_path },
    }
}

fn peel_error_of(err: AccessError) -> (r: PeelError)
    ensures
        r@ == peel_fault_of(err@),
{
    match err {
        AccessError::Decode { err, relative_path } => PeelError::Decode { err, relative_path },
        AccessError::Io { relative_path } => PeelError::Io { relative_path },
    }
}

/// One hop: the reference stored at exactly `target`, or why there is none.
pub open spec fn hop(store: &Store, target: Seq<u8>) -> Result<Resolved, PeelFault> {
    match store.resolve(target) {
        Ok(Some(record)) => Ok(Resolved { relative_path: target, record }),
        Ok(None) => Err(PeelFault::NotFound { relative_path: target }),
        Err(fault) => Err(peel_fault_of(fault)),
    }
}

/// The chain from `target` on, after `hops` symbolic references at the
/// paths `seen`. A target that was seen is a cycle, and is not read again.
/// Else the hop is made: a fault ends the chain, an id ends it with
/// success, and a further symbolic reference is followed unless it is the
/// one that reaches the limit.
pub open spec fn follow(store: &Store, target: Seq<u8>, seen: Seq<Seq<u8>>, hops: nat) -> Result<
    Resolved,
    PeelFault,
>
    decreases MAX_REF_DEPTH - hops,
{
    if seen.contains(target) {
        Err(PeelFault::Cycle { first_seen_path: target })
    } else {
        match hop(store, target) {
            Err(fault) => Err(fault),
            Ok(next) => match next.record {
                Record::Direct(_) => Ok(next),
                Record::Symbolic(further) => if hops + 1 >= MAX_REF_DEPTH {
                    Err(PeelFault::DepthExceeded { max_depth: MAX_REF_DEPTH })
                } else {
                    follow(store, further, seen.push(target), hops + 1)
                },
            },
        }
    }
}

/// Where peeling `start` ends: at `start` itself where it holds an id, else
/// where the chain from its target ends.
pub open spec fn peel_spec(store: &Store, start: Resolved) -> Result<Resolved, PeelFault> {
    match start.record {
        Record::Direct(_) => Ok(start),
        Record::Symbolic(target) => follow(store, target, Seq::empty(), 0),
    }
}

fn was_seen(seen: &Vec<Vec<u8>>, path: &[u8]) -> (r: bool)
    ensures
        r == views(seen@).contains(path@),
{
    let mut i: usize = 0;
    while i < seen.len()
        invariant
            i <= seen.len(),
            forall|k: int| 0 <= k < i ==> (#[trigger] views(seen@)[k]) != path@,
        decreases seen.len() - i,
    {
        if same(seen[i].as_slice(), path) {
            assert(views(seen@)[i as int] == path@);
            return true;
        }
        i += 1;
    }
    false
}

impl<'a> Reference<'a> {
    /// Follow this symbolic reference one level and return the ref it refers to.
    ///
    /// Returns `None` if this is not a symbolic reference, hence the leaf of the chain.
    pub fn peel_one_level(&self) -> (r: Option<Result<Reference<'a>, PeelError>>)
        ensures
            match self@.record {
                Record::Direct(_) => r is None,
                Record::Symbolic(target) => match r {
                    None => false,
                    Some(Ok(next)) => next.wf() && next.parent == self.parent && hop(
                        self.parent,
                        target,
                    ) == Ok::<Resolved, PeelFault>(next@),
                    Some(Err(err)) => hop(self.parent, target) == Err::<Resolved, PeelFault>(err@),
                },
            },
    {
        match &self.state {
            State::Id(_) => None,
            State::ValidatedPath(name) => {
                let store: &'a Store = self.parent;
                match store.find_at(name.as_bytes()) {
                    Ok(Some(next)) => Some(Ok(next)),
                    Ok(None) => Some(
                        Err(PeelError::NotFound { relative_path: to_vec(name.as_bytes()) }),
                    ),
                    Err(err) => Some(Err(peel_error_of(err))),
                }
            },
        }
    }

    /// Peel this symbolic reference until the end of the chain is reached and an object ID is available.
    ///
    /// If an error occurs this reference remains unchanged.
    pub fn peel_to_id_in_place(&mut self) -> (r: Result<ObjectId, PeelError>)
        ensures
            final(self).parent == old(self).parent,
            match r {
                Ok(id) => peel_spec(old(self).parent, old(self)@) == Ok::<Resolved, PeelFault>(
                    final(self)@,
                ) && final(self)@.record == Record::Direct(id@),
                Err(err) => peel_spec(old(self).parent, old(self)@) == Err::<Resolved, PeelFault>(
                    err@,
                ) && *final(self) == *old(self),
            },
            old(self).wf() ==> final(self).wf(),
    {
        let store: &'a Store = self.parent;
        let mut target: Vec<u8> = match &self.state {
            State::Id(id) => {
                return Ok(*id);
            },
            State::ValidatedPath(name) => to_vec(name.as_bytes()),
        };
        let ghost answer = peel_spec(store, self@);
        let mut seen: Vec<Vec<u8>> = Vec::new();
        let mut count: usize = 0;
        assert(views(seen@) =~= Seq::<Seq<u8>>::empty());
        while count < MAX_REF_DEPTH
            invariant
                count < MAX_REF_DEPTH,
                *self == *old(self),
                store == self.parent,
                answer == peel_spec(store, old(self)@),
                answer == follow(store, target@, views(seen@), count as nat),
            decreases MAX_REF_DEPTH - count,
        {
            if was_seen(&seen, target.as_slice()) {
                return Err(PeelError::Cycle { first_seen_path: target });
            }
            match store.find_at(target.as_slice()) {
                Err(err) => {
                    return Err(peel_error_of(err));
                },
                Ok(None) => {
                    return Err(PeelError::NotFound { relative_path: target });
                },
                Ok(Some(next)) => {
                    let further: Vec<u8> = match &next.state {
                        State::Id(id) => {
                            let id: ObjectId = *id;
                            *self = next;
                            return Ok(id);
                        },
                        State::ValidatedPath(name) => to_vec(name.as_bytes()),
                    };
                    count += 1;
                    if count == MAX_REF_DEPTH {
                        return Err(PeelError::DepthExceeded { max_depth: MAX_REF_DEPTH });
                    }
                    proof {
                        assert(views(seen@.push(target)) =~= views(seen@).push(target@));
                    }
                    seen.push(target);
                    target = further;
                },
            }
        }
        Err(PeelError::DepthExceeded { max_depth: MAX_REF_DEPTH })
    }
}

} // verus!
