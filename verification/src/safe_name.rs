//! Partial reference names as a caller supplies them.

use vstd::prelude::*;
use crate::bytes::to_vec;
use crate::validate::{
    check_partial_name, fault_of, is_partial_name, name_error, partial_name_verdict, NameError,
    NameFault,
};

verus! {

/// A partial name, such as `main` or `origin/main`, that has passed the
/// grammar of partial names.
#[derive(Clone, Debug, PartialEq, Eq)]
pub struct SafePartialName {
    bytes: Vec<u8>,
}

impl View for SafePartialName {
    type V = Seq<u8>;

    closed spec fn view(&self) -> Seq<u8> {
        self.bytes@
    }
}

/// What `SafePartialName::try_from` returns for `candidate`.
pub open spec fn validated_partial(candidate: Seq<u8>) -> Result<Seq<u8>, NameFault> {
    match partial_name_verdict(candidate) {
        None => Ok(candidate),
        Some(v) => Err(fault_of(v, candidate)),
    }
}

impl SafePartialName {
    /// Every value of this type holds a name of the grammar.
    pub closed spec fn wf(&self) -> bool {
        is_partial_name(self.bytes@)
    }

    /// Validates `candidate` as a partial name. Success is owed exactly to
    /// the names of `is_partial_name`; the name then holds the candidate's
    /// bytes, and the error holds them otherwise.
    pub fn try_from(candidate: &[u8]) -> (r: Result<SafePartialName, NameError>)
        ensures
            r is Ok <==> is_partial_name(candidate@),
            match r {
                Ok(name) => name.wf() && validated_partial(candidate@) == Ok::<
                    Seq<u8>,
                    NameFault,
                >(name@),
                Err(err) => validated_partial(candidate@) == Err::<Seq<u8>, NameFault>(err@),
            },
    {
        match check_partial_name(candidate) {
            None => Ok(SafePartialName { bytes: to_vec(candidate) }),
            Some(v) => Err(name_error(v, candidate)),
        }
    }

    /// The bytes of the name.
    pub fn as_bytes(&self) -> (bytes: &[u8])
        ensures
            bytes@ == self@,
    {
        self.bytes.as_slice()
    }

    /// The relative path that identifies where the reference would be
    /// stored: the bytes of the name.
    pub fn to_path(&self) -> (path: Vec<u8>)
        ensures
            path@ == self@,
    {
        to_vec(self.bytes.as_slice())
    }
}

} // verus!
