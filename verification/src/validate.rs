//! The grammar of reference names.

use vstd::prelude::*;
use crate::bytes::{ends_with, has_pair, has_triple, to_vec};

verus! {

pub const SLASH: u8 = 0x2f;

pub const DOT: u8 = 0x2e;

pub const DASH: u8 = 0x2d;

pub const AT: u8 = 0x40;

pub const OPEN_BRACE: u8 = 0x7b;

pub const UNDERSCORE: u8 = 0x5f;

/// The bytes `.lock`.
pub open spec fn lock_suffix() -> Seq<u8> {
    seq![0x2eu8, 0x6cu8, 0x6fu8, 0x63u8, 0x6bu8]
}

/// A byte that no name may hold: an ASCII control character, DEL, a space,
/// or one of `~ ^ : ? * [ \`.
pub open spec fn is_forbidden_byte(b: u8) -> bool {
    b < 0x20 || b == 0x7f || b == 0x20 || b == 0x7e || b == 0x5e || b == 0x3a || b == 0x3f
        || b == 0x2a || b == 0x5b || b == 0x5c
}

/// Some byte of `s` is one that no name may hold.
pub open spec fn has_forbidden_byte(s: Seq<u8>) -> bool {
    exists|i: int| 0 <= i < s.len() && is_forbidden_byte(#[trigger] s[i])
}

/// An upper-case ASCII letter.
pub open spec fn is_upper(b: u8) -> bool {
    0x41 <= b <= 0x5a
}

/// A name without a slash that is written in upper-case letters and
/// underscores only, such as `HEAD`.
pub open spec fn is_standalone(s: Seq<u8>) -> bool {
    forall|i: int| 0 <= i < s.len() ==> is_upper(#[trigger] s[i]) || s[i] == UNDERSCORE
}

/// The rules that a tag name and every reference name obey.
pub open spec fn is_tag_name(s: Seq<u8>) -> bool {
    &&& s.len() > 0
    &&& s.last() != SLASH
    &&& forall|i: int| 0 <= i < s.len() ==> !is_forbidden_byte(#[trigger] s[i])
    &&& !has_pair(s, DOT, DOT)
    &&& !has_pair(s, AT, OPEN_BRACE)
    &&& s[0] != DOT
    &&& !ends_with(s, lock_suffix())
}

/// The rules of the name validator that this library builds on, for a
/// partial name.
pub open spec fn is_base_partial_name(s: Seq<u8>) -> bool {
    &&& is_tag_name(s)
    &&& s[0] != SLASH
    &&& !has_pair(s, SLASH, SLASH)
    &&& !has_triple(s, SLASH, DOT, SLASH)
}

/// The rules of the name validator that this library builds on, for a full
/// name: those of a partial name, and a name without a slash is standalone.
pub open spec fn is_base_full_name(s: Seq<u8>) -> bool {
    is_base_partial_name(s) && (s.contains(SLASH) || is_standalone(s))
}

/// The two rules that this library adds: no leading `-`, no trailing `.`.
pub open spec fn is_well_bounded(s: Seq<u8>) -> bool {
    s.len() > 0 && s[0] != DASH && s.last() != DOT
}

/// The grammar of partial names, such as `main` or `origin/main`.
pub open spec fn is_partial_name(s: Seq<u8>) -> bool {
    is_base_partial_name(s) && is_well_bounded(s)
}

/// The grammar of full names, such as `refs/heads/main` or `HEAD`.
pub open spec fn is_full_name(s: Seq<u8>) -> bool {
    is_base_full_name(s) && is_well_bounded(s)
}

/// The two ways in which a candidate can break the grammar.
#[derive(Clone, Copy, Debug, PartialEq, Eq, Structural)]
pub enum Violation {
    /// A byte that no name may hold.
    Character,
    /// Bytes that are allowed by themselves, in a place or an order that is not.
    Sequence,
}

/// The error of the name validator, with the candidate that it refused.
#[derive(Clone, Debug, PartialEq, Eq)]
pub enum NameError {
    IllegalCharacter(Vec<u8>),
    IllegalSequence(Vec<u8>),
}

/// A `NameError` in contracts.
pub enum NameFault {
    IllegalCharacter(Seq<u8>),
    IllegalSequence(Seq<u8>),
}

impl View for NameError {
    type V = NameFault;

    open spec fn view(&self) -> NameFault {
        match self {
            NameError::IllegalCharacter(raw) => NameFault::IllegalCharacter(raw@),
            NameError::IllegalSequence(raw) => NameFault::IllegalSequence(raw@),
        }
    }
}

/// The fault that reports `violation` on the candidate `raw`.
pub open spec fn fault_of(violation: Violation, raw: Seq<u8>) -> NameFault {
    match violation {
        Violation::Character => NameFault::IllegalCharacter(raw),
        Violation::Sequence => NameFault::IllegalSequence(raw),
    }
}

/// The base validator reads a name from the left and stops at the first
/// byte that is forbidden or completes `..` or `@{`. This says that it
/// stops at a forbidden byte.
pub open spec fn forbidden_byte_comes_first(s: Seq<u8>) -> bool {
    exists|i: int|
        0 <= i < s.len() && is_forbidden_byte(#[trigger] s[i]) && !has_pair(
            s.subrange(0, i),
            DOT,
            DOT,
        ) && !has_pair(s.subrange(0, i), AT, OPEN_BRACE)
}

/// The names that the base validator refuses for a forbidden byte: they
/// are not empty, do not end in a slash, and a forbidden byte comes first.
pub open spec fn reports_character(s: Seq<u8>) -> bool {
    s.len() > 0 && s.last() != SLASH && forbidden_byte_comes_first(s)
}

/// What the base validator finds wrong with a candidate for a full name,
/// if anything.
pub open spec fn base_full_verdict(s: Seq<u8>) -> Option<Violation> {
    if is_base_full_name(s) {
        None
    } else if reports_character(s) {
        Some(Violation::Character)
    } else {
        Some(Violation::Sequence)
    }
}

/// What the base validator finds wrong with a candidate for a partial
/// name, if anything.
pub open spec fn base_partial_verdict(s: Seq<u8>) -> Option<Violation> {
    if is_base_partial_name(s) {
        None
    } else if reports_character(s) {
        Some(Violation::Character)
    } else {
        Some(Violation::Sequence)
    }
}

/// Runs `git_validate::reference::name` on `name`. It accepts exactly the
/// names of `is_base_full_name`. Of its errors, `InvalidByte` and
/// `Asterisk` are reported as `Character`, the others as `Sequence`. It
/// gives one of those two where the name is not empty, does not end in a
/// slash, and a forbidden byte is met before any `..` or `@{` is.
#[verifier::external_body]
fn base_check_full(name: &[u8]) -> (verdict: Option<Violation>)
    ensures
        verdict == base_full_verdict(name@),
{
    match git_validate::reference::name(bstr::BStr::new(name)) {
        Ok(_) => None,
        Err(git_validate::reference::name::Error::Tag(
            git_validate::tag::name::Error::InvalidByte { .. }
            | git_validate::tag::name::Error::Asterisk,
        )) => Some(Violation::Character),
        Err(_) => Some(Violation::Sequence),
    }
}

/// Runs `git_validate::reference::name_partial` on `name`. It accepts
/// exactly the names of `is_base_partial_name`, and reports its errors as
/// the check for full names does.
#[verifier::external_body]
fn base_check_partial(name: &[u8]) -> (verdict: Option<Violation>)
    ensures
        verdict == base_partial_verdict(name@),
{
    match git_validate::reference::name_partial(bstr::BStr::new(name)) {
        Ok(_) => None,
        Err(git_validate::reference::name::Error::Tag(
            git_validate::tag::name::Error::InvalidByte { .. }
            | git_validate::tag::name::Error::Asterisk,
        )) => Some(Violation::Character),
        Err(_) => Some(Violation::Sequence),
    }
}

/// What is wrong with `s` as a full name, if anything: a name of the
/// grammar is in order, a name that the base validator refuses for a
/// forbidden byte has an illegal character, any other an illegal sequence.
pub open spec fn full_name_verdict(s: Seq<u8>) -> Option<Violation> {
    if is_full_name(s) {
        None
    } else if reports_character(s) {
        Some(Violation::Character)
    } else {
        Some(Violation::Sequence)
    }
}

/// What is wrong with `s` as a partial name, if anything.
pub open spec fn partial_name_verdict(s: Seq<u8>) -> Option<Violation> {
    if is_partial_name(s) {
        None
    } else if reports_character(s) {
        Some(Violation::Character)
    } else {
        Some(Violation::Sequence)
    }
}

fn well_bounded(name: &[u8]) -> (ok: bool)
    ensures
        ok == is_well_bounded(name@),
{
    name.len() > 0 && name[0] != DASH && name[name.len() - 1] != DOT
}

/// Checks `name` against the grammar of full names.
pub fn check_full_name(name: &[u8]) -> (verdict: Option<Violation>)
    ensures
        verdict == full_name_verdict(name@),
{
    match base_check_full(name) {
        Some(v) => Some(v),
        None => if well_bounded(name) {
            None
        } else {
            Some(Violation::Sequence)
        },
    }
}

/// Checks `name` against the grammar of partial names.
pub fn check_partial_name(name: &[u8]) -> (verdict: Option<Violation>)
    ensures
        verdict == partial_name_verdict(name@),
{
    match base_check_partial(name) {
        Some(v) => Some(v),
        None => if well_bounded(name) {
            None
        } else {
            Some(Violation::Sequence)
        },
    }
}

/// The error that reports `violation` on `name`.
pub fn name_error(violation: Violation, name: &[u8]) -> (err: NameError)
    ensures
        err@ == fault_of(violation, name@),
{
    match violation {
        Violation::Character => NameError::IllegalCharacter(to_vec(name)),
        Violation::Sequence => NameError::IllegalSequence(to_vec(name)),
    }
}

/// A name that has passed the grammar of full names.
#[derive(Clone, Debug, PartialEq, Eq)]
pub struct FullName {
    bytes: Vec<u8>,
}

impl View for FullName {
    type V = Seq<u8>;

    closed spec fn view(&self) -> Seq<u8> {
        self.bytes@
    }
}

impl FullName {
    /// Every value of this type holds a name of the grammar.
    pub closed spec fn wf(&self) -> bool {
        is_full_name(self.bytes@)
    }

    /// The bytes of the name.
    pub fn as_bytes(&self) -> (bytes: &[u8])
        ensures
            bytes@ == self@,
    {
        self.bytes.as_slice()
    }
}

/// What `validate_name` returns for `candidate`.
pub open spec fn validated(candidate: Seq<u8>) -> Result<Seq<u8>, NameFault> {
    match full_name_verdict(candidate) {
        None => Ok(candidate),
        Some(v) => Err(fault_of(v, candidate)),
    }
}

/// Validates `candidate` as a full reference name. Success is owed exactly
/// to the names of `is_full_name`; the name then holds the candidate's
/// bytes. An error holds them too, and says by its variant what
/// `full_name_verdict` finds wrong.
pub fn validate_name(candidate: &[u8]) -> (r: Result<FullName, NameError>)
    ensures
        r is Ok <==> is_full_name(candidate@),
        match r {
            Ok(name) => name.wf() && validated(candidate@) == Ok::<Seq<u8>, NameFault>(name@),
            Err(err) => validated(candidate@) == Err::<Seq<u8>, NameFault>(err@),
        },
{
    match check_full_name(candidate) {
        None => Ok(FullName { bytes: to_vec(candidate) }),
        Some(v) => Err(name_error(v, candidate)),
    }
}

} // verus!
