//! The stored form of a reference: one line that holds either an object id
//! in lower-case hexadecimal digits or `ref:`, spaces and a full name.

use vstd::prelude::*;
use vstd::slice::slice_subrange;
use crate::bytes::{append, starts_with, to_vec};
use crate::hash::{all_lower_hex, decode_hex, encode_hex, ObjectId, HEX_LEN};
use crate::reference::{Record, Reference, State};
use crate::store::Store;
use crate::validate::{validate_name, validated, NameError, NameFault};

verus! {

pub const SPACE: u8 = 0x20;

pub const LF: u8 = 0x0a;

pub const CR: u8 = 0x0d;

/// The bytes `ref: `, which open a symbolic reference.
pub open spec fn ref_prefix() -> Seq<u8> {
    seq![0x72u8, 0x65u8, 0x66u8, 0x3au8, 0x20u8]
}

/// A line terminator: a line feed, alone or after a carriage return.
pub open spec fn is_terminator(s: Seq<u8>) -> bool {
    s == seq![LF] || s == seq![CR, LF]
}

/// The first position at or after `from` that holds no space.
pub open spec fn skip_spaces(c: Seq<u8>, from: int) -> int
    decreases c.len() - from,
{
    if 0 <= from < c.len() && c[from] == SPACE {
        skip_spaces(c, from + 1)
    } else {
        from
    }
}

/// The first position at or after `from` that holds a carriage return or a
/// line feed, or the length where none does.
pub open spec fn line_end(c: Seq<u8>, from: int) -> int
    decreases c.len() - from,
{
    if 0 <= from < c.len() && c[from] != CR && c[from] != LF {
        line_end(c, from + 1)
    } else {
        from
    }
}

/// What the grammar finds in a content, before the name is validated.
pub enum Parsed {
    Id(Seq<u8>),
    UnvalidatedPath(Seq<u8>),
}

/// The grammar. A content that opens with `ref: ` is symbolic: after any
/// further spaces the path runs up to the line terminator, which ends the
/// content. Any other content is forty lower-case hexadecimal digits and
/// the line terminator, and nothing else.
pub open spec fn parse_spec(c: Seq<u8>) -> Option<Parsed> {
    if starts_with(c, ref_prefix()) {
        let start = skip_spaces(c, 5);
        let end = line_end(c, start);
        if is_terminator(c.subrange(end, c.len() as int)) {
            Some(Parsed::UnvalidatedPath(c.subrange(start, end)))
        } else {
            None
        }
    } else if c.len() >= HEX_LEN && all_lower_hex(c.subrange(0, HEX_LEN as int)) && is_terminator(
        c.subrange(HEX_LEN as int, c.len() as int),
    ) {
        Some(Parsed::Id(decode_hex(c.subrange(0, HEX_LEN as int))))
    } else {
        None
    }
}

/// The error of decoding in contracts.
pub enum DecodeFault {
    Unparseable { raw_content: Seq<u8> },
    NameInvalid { source: NameFault, raw_path: Seq<u8> },
}

/// What validation makes of a content that was taken apart: an id is a
/// direct record; a path must be a full name to be a symbolic one.
pub open spec fn validate_parsed(parsed: Parsed) -> Result<Record, DecodeFault> {
    match parsed {
        Parsed::Id(id) => Ok(Record::Direct(id)),
        Parsed::UnvalidatedPath(path) => match validated(path) {
            Ok(name) => Ok(Record::Symbolic(name)),
            Err(fault) => Err(DecodeFault::NameInvalid { source: fault, raw_path: path }),
        },
    }
}

/// What decoding makes of a content: the record, or why there is none.
pub open spec fn decode_spec(c: Seq<u8>) -> Result<Record, DecodeFault> {
    match parse_spec(c) {
        None => Err(DecodeFault::Unparseable { raw_content: c }),
        Some(parsed) => validate_parsed(parsed),
    }
}

/// The stored form of a record.
pub open spec fn encode_spec(record: Record) -> Seq<u8> {
    match record {
        Record::Direct(id) => encode_hex(id) + seq![LF],
        Record::Symbolic(name) => ref_prefix() + name + seq![LF],
    }
}

/// The error returned by [`Reference::try_from_path()`].
#[derive(Clone, Debug, PartialEq, Eq)]
pub enum DecodeError {
    /// The content is neither an object id line nor a symbolic line.
    Unparseable { raw_content: Vec<u8> },
    /// The path of a symbolic line is no full name.
    NameInvalid { source: NameError, raw_path: Vec<u8> },
}

impl View for DecodeError {
    type V = DecodeFault;

    open spec fn view(&self) -> DecodeFault {
        match self {
            DecodeError::Unparseable { raw_content } => DecodeFault::Unparseable {
                raw_content: raw_content@,
            },
            DecodeError::NameInvalid { source, raw_path } => DecodeFault::NameInvalid {
                source: source@,
                raw_path: raw_path@,
            },
        }
    }
}

/// What is said of a content that is no record: the content as `bstr`
/// prints a byte string for debugging, then the words `could not be parsed`.
pub uninterp spec fn unparseable_text(raw_content: Seq<u8>) -> Seq<char>;

/// Formats the message for a content that is no record, the content by the
/// `Debug` form of `bstr::BStr`.
#[verifier::external_body]
fn unparseable_message(raw_content: &[u8]) -> (message: String)
    ensures
        message@ == unparseable_text(raw_content@),
{
    format!("{:?} could not be parsed", bstr::BStr::new(raw_content))
}

impl DecodeError {
    /// The message of this error in contracts.
    pub open spec fn text(&self) -> Seq<char> {
        match self {
            DecodeError::Unparseable { raw_content } => unparseable_text(raw_content@),
            DecodeError::NameInvalid { .. } =>
                "The path to a symbolic reference within a ref file is invalid"@,
        }
    }

    /// The message of this error.
    pub fn to_string(&self) -> (message: String)
        ensures
            message@ == self.text(),
    {
        match self {
            DecodeError::Unparseable { raw_content } => unparseable_message(
                raw_content.as_slice(),
            ),
            DecodeError::NameInvalid { .. } =>
                "The path to a symbolic reference within a ref file is invalid".to_owned(),
        }
    }
}

/// A content that the grammar has taken apart, its path still unvalidated.
pub enum MaybeUnsafeState {
    Id(ObjectId),
    UnvalidatedPath(Vec<u8>),
}

impl View for MaybeUnsafeState {
    type V = Parsed;

    open spec fn view(&self) -> Parsed {
        match self {
            MaybeUnsafeState::Id(id) => Parsed::Id(id@),
            MaybeUnsafeState::UnvalidatedPath(path) => Parsed::UnvalidatedPath(path@),
        }
    }
}

fn has_ref_prefix(bytes: &[u8]) -> (r: bool)
    ensures
        r == starts_with(bytes@, ref_prefix()),
{
    let r = bytes.len() >= 5 && bytes[0] == 0x72 && bytes[1] == 0x65 && bytes[2] == 0x66
        && bytes[3] == 0x3a && bytes[4] == 0x20;
    proof {
        if bytes.len() >= 5 {
            let head = bytes@.subrange(0, 5);
            if r {
                assert(head =~= ref_prefix());
            } else {
                assert(head[0] == bytes[0] && head[1] == bytes[1] && head[2] == bytes[2]
                    && head[3] == bytes[3] && head[4] == bytes[4]);
            }
        }
    }
    r
}

fn terminator_at(bytes: &[u8], at: usize) -> (r: bool)
    requires
        at <= bytes.len(),
    ensures
        r == is_terminator(bytes@.subrange(at as int, bytes.len() as int)),
{
    let rest: usize = bytes.len() - at;
    let r = (rest == 1 && bytes[at] == LF) || (rest == 2 && bytes[at] == CR && bytes[at + 1] == LF);
    proof {
        let tail = bytes@.subrange(at as int, bytes.len() as int);
        if r {
            if rest == 1 {
                assert(tail =~= seq![LF]);
            } else {
                assert(tail =~= seq![CR, LF]);
            }
        } else {
            if tail == seq![LF] {
                assert(tail.len() == 1 && tail[0] == LF);
            }
            if tail == seq![CR, LF] {
                assert(tail.len() == 2 && tail[0] == CR && tail[1] == LF);
            }
        }
    }
    r
}

fn lower_hex_run(bytes: &[u8]) -> (r: bool)
    ensures
        r == all_lower_hex(bytes@),
{
    let mut i: usize = 0;
    while i < bytes.len()
        invariant
            i <= bytes.len(),
            forall|k: int| 0 <= k < i ==> crate::hash::is_lower_hex_digit(#[trigger] bytes@[k]),
        decreases bytes.len() - i,
    {
        let b: u8 = bytes[i];
        if !((0x30 <= b && b <= 0x39) || (0x61 <= b && b <= 0x66)) {
            return false;
        }
        i += 1;
    }
    true
}

/// Takes a content apart by the grammar.
pub fn parse(bytes: &[u8]) -> (r: Option<MaybeUnsafeState>)
    ensures
        match r {
            None => parse_spec(bytes@) is None,
            Some(parsed) => parse_spec(bytes@) == Some(parsed@),
        },
{
    if has_ref_prefix(bytes) {
        let mut start: usize = 5;
        while start < bytes.len() && bytes[start] == SPACE
            invariant
                5 <= start <= bytes.len(),
                skip_spaces(bytes@, 5) == skip_spaces(bytes@, start as int),
            decreases bytes.len() - start,
        {
            start += 1;
        }
        let mut end: usize = start;
        while end < bytes.len() && bytes[end] != CR && bytes[end] != LF
            invariant
                start <= end <= bytes.len(),
                line_end(bytes@, start as int) == line_end(bytes@, end as int),
            decreases bytes.len() - end,
        {
            end += 1;
        }
        if terminator_at(bytes, end) {
            Some(MaybeUnsafeState::UnvalidatedPath(to_vec(slice_subrange(bytes, start, end))))
        } else {
            None
        }
    } else if bytes.len() >= HEX_LEN && lower_hex_run(slice_subrange(bytes, 0, HEX_LEN))
        && terminator_at(bytes, HEX_LEN) {
        match ObjectId::from_hex(slice_subrange(bytes, 0, HEX_LEN)) {
            Some(id) => Some(MaybeUnsafeState::Id(id)),
            None => None,
        }
    } else {
        None
    }
}

impl State {
    /// Validates the path of a symbolic content; an id is kept as it is.
    pub fn try_from(v: MaybeUnsafeState) -> (r: Result<State, DecodeError>)
        ensures
            match r {
                Ok(state) => state.wf() && validate_parsed(v@) == Ok::<Record, DecodeFault>(
                    state@,
                ),
                Err(err) => validate_parsed(v@) == Err::<Record, DecodeFault>(err@),
            },
    {
        match v {
            MaybeUnsafeState::Id(id) => Ok(State::Id(id)),
            MaybeUnsafeState::UnvalidatedPath(path) => match validate_name(path.as_slice()) {
                Err(source) => Err(DecodeError::NameInvalid { source, raw_path: path }),
                Ok(name) => Ok(State::ValidatedPath(name)),
            },
        }
    }

    /// The stored form of this state.
    pub fn encode(&self) -> (out: Vec<u8>)
        ensures
            out@ == encode_spec(self@),
    {
        match self {
            State::Id(id) => {
                let mut out = id.to_hex();
                out.push(LF);
                out
            },
            State::ValidatedPath(name) => {
                let mut out: Vec<u8> = vec![0x72u8, 0x65u8, 0x66u8, 0x3au8, 0x20u8];
                assert(out@ =~= ref_prefix());
                append(&mut out, name.as_bytes());
                out.push(LF);
                out
            },
        }
    }
}

impl<'a> Reference<'a> {
    /// Create a new reference of the given `parent` store with
    /// `relative_path` as the place at which `path_contents` was read.
    ///
    /// Either the whole content is one record or decoding fails.
    pub fn try_from_path(parent: &'a Store, relative_path: &[u8], path_contents: &[u8]) -> (r:
        Result<Reference<'a>, DecodeError>)
        ensures
            match r {
                Ok(reference) => reference.wf() && reference.parent == parent
                    && reference.relative_path@ == relative_path@ && decode_spec(path_contents@)
                    == Ok::<Record, DecodeFault>(reference@.record),
                Err(err) => decode_spec(path_contents@) == Err::<Record, DecodeFault>(err@),
            },
    {
        match parse(path_contents) {
            None => Err(DecodeError::Unparseable { raw_content: to_vec(path_contents) }),
            Some(parsed) => match State::try_from(parsed) {
                Ok(state) => Ok(Reference { parent, relative_path: to_vec(relative_path), state }),
                Err(err) => Err(err),
            },
        }
    }
}

} // verus!
