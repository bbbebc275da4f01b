//! What holds of the library as a whole, stated over the same functions as
//! the contracts and proved from their definitions.

use vstd::prelude::*;
use crate::bytes::{has_pair, starts_with};
use crate::decode::{
    decode_spec, encode_spec, line_end, parse_spec, ref_prefix, skip_spaces, DecodeFault, Parsed,
    CR, LF, SPACE,
};
use crate::find_one::{candidates_spec, find_fault_of, AccessFault, FindFault};
use crate::hash::{encode_hex, lemma_hex_round_trip, ID_LEN};
use crate::peel::{follow, peel_spec, PeelFault, MAX_REF_DEPTH};
use crate::reference::{Record, Resolved};
use crate::safe_name::validated_partial;
use crate::store::Store;
use crate::validate::{
    full_name_verdict, has_forbidden_byte, is_forbidden_byte, is_full_name, is_partial_name,
    partial_name_verdict, validated, Violation, DOT, SLASH,
};

verus! {

/// The bytes of `pattern` stand next to each other somewhere in `s`.
pub open spec fn has_run(s: Seq<u8>, pattern: Seq<u8>) -> bool {
    exists|i: int|
        0 <= i && i + pattern.len() <= s.len() && #[trigger] s.subrange(i, i + pattern.len())
            == pattern
}

/// The bytes `/../`.
pub open spec fn parent_step() -> Seq<u8> {
    seq![SLASH, DOT, DOT, SLASH]
}

/// A candidate that holds a control character, a space or another
/// forbidden byte is refused, as a full name and as a partial name.
pub proof fn lemma_forbidden_byte_refused(s: Seq<u8>, at: int)
    requires
        0 <= at < s.len(),
        is_forbidden_byte(s[at]),
    ensures
        !is_full_name(s),
        !is_partial_name(s),
        validated(s) is Err,
        validated_partial(s) is Err,
{
}

/// An illegal character is reported only of a candidate that holds a
/// forbidden byte: any other candidate that is refused has an illegal
/// sequence.
pub proof fn lemma_character_means_forbidden_byte(s: Seq<u8>)
    ensures
        full_name_verdict(s) == Some(Violation::Character) ==> has_forbidden_byte(s),
        partial_name_verdict(s) == Some(Violation::Character) ==> has_forbidden_byte(s),
        !has_forbidden_byte(s) && !is_full_name(s) ==> full_name_verdict(s) == Some(
            Violation::Sequence,
        ),
        !has_forbidden_byte(s) && !is_partial_name(s) ==> partial_name_verdict(s) == Some(
            Violation::Sequence,
        ),
{
}

/// A candidate that holds `/../` is refused, as a full name and as a
/// partial name.
pub proof fn lemma_parent_step_refused(s: Seq<u8>)
    requires
        has_run(s, parent_step()),
    ensures
        !is_full_name(s),
        !is_partial_name(s),
        validated(s) is Err,
        validated_partial(s) is Err,
{
    let i = choose|i: int|
        0 <= i && i + parent_step().len() <= s.len() && #[trigger] s.subrange(
            i,
            i + parent_step().len(),
        ) == parent_step();
    let run = s.subrange(i, i + 4);
    assert(run[1] == DOT && run[2] == DOT);
    assert(s[i + 1] == DOT && s[i + 2] == DOT);
    assert(has_pair(s, DOT, DOT));
}

/// Validation succeeds exactly on the grammar, returns the candidate as it
/// was given, and validating a validated name again gives the same name.
pub proof fn lemma_validation_idempotent(s: Seq<u8>)
    ensures
        validated(s) is Ok <==> is_full_name(s),
        validated(s) matches Ok(name) ==> name == s && validated(name) == validated(s),
        validated_partial(s) is Ok <==> is_partial_name(s),
        validated_partial(s) matches Ok(name) ==> name == s && validated_partial(name)
            == validated_partial(s),
{
}

/// Writing an object id and decoding what was written gives the id back.
pub proof fn lemma_direct_round_trip(id: Seq<u8>)
    requires
        id.len() == ID_LEN,
    ensures
        decode_spec(encode_spec(Record::Direct(id))) == Ok::<Record, DecodeFault>(
            Record::Direct(id),
        ),
{
    let c = encode_spec(Record::Direct(id));
    lemma_hex_round_trip(id);
    assert(c.len() == 41);
    assert(c.subrange(0, 40) =~= encode_hex(id));
    assert(c.subrange(40, 41) =~= seq![LF]);
    assert(c.subrange(0, 5)[0] == encode_hex(id)[0]);
    assert(crate::hash::is_lower_hex_digit(encode_hex(id)[0]));
    assert(ref_prefix()[0] == 0x72);
    assert(!starts_with(c, ref_prefix()));
}

/// The stored form of a symbolic reference with `extra` spaces more than
/// the one that is always written.
pub open spec fn spaced_symbolic(name: Seq<u8>, extra: nat) -> Seq<u8> {
    ref_prefix() + Seq::new(extra, |i: int| SPACE) + name + seq![LF]
}

proof fn lemma_skip_spaces(c: Seq<u8>, from: int, to: int)
    requires
        0 <= from <= to < c.len(),
        forall|j: int| from <= j < to ==> c[j] == SPACE,
        c[to] != SPACE,
    ensures
        skip_spaces(c, from) == to,
    decreases to - from,
{
    if from < to {
        lemma_skip_spaces(c, from + 1, to);
    }
}

proof fn lemma_line_end(c: Seq<u8>, from: int, to: int)
    requires
        0 <= from <= to < c.len(),
        forall|j: int| from <= j < to ==> c[j] != CR && c[j] != LF,
        c[to] == CR || c[to] == LF,
    ensures
        line_end(c, from) == to,
    decreases to - from,
{
    if from < to {
        lemma_line_end(c, from + 1, to);
    }
}

/// Writing a symbolic reference to a full name and decoding what was
/// written gives the name back, also with further spaces before the name.
pub proof fn lemma_symbolic_round_trip(name: Seq<u8>, extra: nat)
    requires
        is_full_name(name),
    ensures
        spaced_symbolic(name, 0) == encode_spec(Record::Symbolic(name)),
        decode_spec(spaced_symbolic(name, extra)) == Ok::<Record, DecodeFault>(
            Record::Symbolic(name),
        ),
{
    assert(spaced_symbolic(name, 0) =~= encode_spec(Record::Symbolic(name)));
    let c = spaced_symbolic(name, extra);
    let start: int = 5 + extra as int;
    let end: int = start + name.len();
    assert(c.len() == end + 1);
    assert(c.subrange(0, 5) =~= ref_prefix());
    assert forall|j: int| 5 <= j < start implies c[j] == SPACE by {}
    assert forall|j: int| start <= j < end implies c[j] == name[j - start] by {}
    assert(!is_forbidden_byte(name[0]));
    assert(c[start] == name[0]);
    lemma_skip_spaces(c, 5, start);
    assert forall|j: int| start <= j < end implies c[j] != CR && c[j] != LF by {
        assert(!is_forbidden_byte(name[j - start]));
    }
    assert(c[end] == LF);
    lemma_line_end(c, start, end);
    assert(c.subrange(end, c.len() as int) =~= seq![LF]);
    assert(c.subrange(start, end) =~= name);
    assert(parse_spec(c) == Some(Parsed::UnvalidatedPath(name)));
}

/// Of the candidates of a partial name, the first at which anything is
/// stored decides the lookup, whatever is stored at those after it.
pub proof fn lemma_highest_priority_wins(store: &Store, name: Seq<u8>, k: int)
    requires
        is_partial_name(name),
        0 <= k < candidates_spec(name).len(),
        store@.contains_key(candidates_spec(name)[k]),
        forall|j: int| 0 <= j < k ==> !store@.contains_key(#[trigger] candidates_spec(name)[j]),
    ensures
        store.find_spec(name) == (match store.resolve(candidates_spec(name)[k]) {
            Ok(Some(record)) => Ok::<Option<Resolved>, FindFault>(
                Some(Resolved { relative_path: candidates_spec(name)[k], record }),
            ),
            Ok(None) => Ok::<Option<Resolved>, FindFault>(None),
            Err(fault) => Err::<Option<Resolved>, FindFault>(find_fault_of(fault)),
        }),
        !(store.resolve(candidates_spec(name)[k]) matches Ok(None)),
{
    lemma_first_found_skips(store, candidates_spec(name), 0, k);
}

proof fn lemma_first_found_skips(store: &Store, candidates: Seq<Seq<u8>>, from: int, k: int)
    requires
        0 <= from <= k < candidates.len(),
        forall|j: int| from <= j < k ==> !store@.contains_key(#[trigger] candidates[j]),
    ensures
        store.first_found(candidates, from) == store.first_found(candidates, k),
    decreases k - from,
{
    if from < k {
        assert(!store@.contains_key(candidates[from]));
        lemma_first_found_skips(store, candidates, from + 1, k);
    }
}

/// Where nothing is stored at any candidate of a partial name, the lookup
/// finds nothing, and that is no error.
pub proof fn lemma_nothing_stored_is_none(store: &Store, name: Seq<u8>)
    requires
        is_partial_name(name),
        forall|j: int|
            0 <= j < candidates_spec(name).len() ==> !store@.contains_key(
                #[trigger] candidates_spec(name)[j],
            ),
    ensures
        store.find_spec(name) == Ok::<Option<Resolved>, FindFault>(None),
{
    lemma_first_found_none(store, candidates_spec(name), 0);
}

proof fn lemma_first_found_none(store: &Store, candidates: Seq<Seq<u8>>, from: int)
    requires
        0 <= from <= candidates.len(),
        forall|j: int| from <= j < candidates.len() ==> !store@.contains_key(#[trigger] candidates[j]),
    ensures
        store.first_found(candidates, from) == Ok::<Option<Resolved>, AccessFault>(None),
    decreases candidates.len() - from,
{
    if from < candidates.len() {
        assert(!store@.contains_key(candidates[from]));
        lemma_first_found_none(store, candidates, from + 1);
    }
}

/// Two symbolic references that name each other make a cycle: peeling the
/// one at `a` fails at the second visit of `b`.
pub proof fn lemma_two_cycle(store: &Store, a: Seq<u8>, b: Seq<u8>)
    requires
        store.resolve(a) == Ok::<Option<Record>, AccessFault>(Some(Record::Symbolic(b))),
        store.resolve(b) == Ok::<Option<Record>, AccessFault>(Some(Record::Symbolic(a))),
    ensures
        peel_spec(store, Resolved { relative_path: a, record: Record::Symbolic(b) }) == Err::<
            Resolved,
            PeelFault,
        >(PeelFault::Cycle { first_seen_path: b }),
{
    reveal_with_fuel(follow, 4);
    let none = Seq::<Seq<u8>>::empty();
    assert(!none.contains(b));
    let one = none.push(b);
    assert(one[0] == b);
    if a == b {
        assert(one.contains(a));
    } else {
        assert(!one.contains(a));
        let two = one.push(a);
        assert(two[0] == b);
        assert(two.contains(b));
    }
}

/// A chain of symbolic references at distinct paths that does not reach an
/// object id within the limit fails with that limit, whatever follows:
/// `start` names `chain[0]`, and each of the first five paths of `chain`
/// holds a symbolic reference to the next.
pub proof fn lemma_depth_limit(store: &Store, start: Resolved, chain: Seq<Seq<u8>>)
    requires
        start.record == Record::Symbolic(chain[0]),
        chain.len() > MAX_REF_DEPTH,
        forall|i: int|
            0 <= i < MAX_REF_DEPTH ==> store.resolve(#[trigger] chain[i]) == Ok::<
                Option<Record>,
                AccessFault,
            >(Some(Record::Symbolic(chain[i + 1]))),
        forall|i: int, j: int| 0 <= i < j < MAX_REF_DEPTH ==> chain[i] != chain[j],
    ensures
        peel_spec(store, start) == Err::<Resolved, PeelFault>(
            PeelFault::DepthExceeded { max_depth: 5 },
        ),
{
    lemma_chain_run(store, chain, 0);
    assert(visited(chain, 0) =~= Seq::<Seq<u8>>::empty());
}

spec fn visited(chain: Seq<Seq<u8>>, n: int) -> Seq<Seq<u8>> {
    chain.subrange(0, n)
}

proof fn lemma_chain_run(store: &Store, chain: Seq<Seq<u8>>, n: int)
    requires
        chain.len() > MAX_REF_DEPTH,
        0 <= n < MAX_REF_DEPTH,
        forall|i: int|
            0 <= i < MAX_REF_DEPTH ==> store.resolve(#[trigger] chain[i]) == Ok::<
                Option<Record>,
                AccessFault,
            >(Some(Record::Symbolic(chain[i + 1]))),
        forall|i: int, j: int| 0 <= i < j < MAX_REF_DEPTH ==> chain[i] != chain[j],
    ensures
        follow(store, chain[n], visited(chain, n), n as nat) == Err::<Resolved, PeelFault>(
            PeelFault::DepthExceeded { max_depth: 5 },
        ),
    decreases MAX_REF_DEPTH - n,
{
    let seen = visited(chain, n);
    assert(!seen.contains(chain[n])) by {
        if seen.contains(chain[n]) {
            let i = choose|i: int| 0 <= i < seen.len() && seen[i] == chain[n];
            assert(chain[i] != chain[n]);
        }
    }
    assert(store.resolve(chain[n]) == Ok::<Option<Record>, AccessFault>(
        Some(Record::Symbolic(chain[n + 1])),
    ));
    if n + 1 < MAX_REF_DEPTH {
        lemma_chain_run(store, chain, n + 1);
        assert(seen.push(chain[n]) =~= visited(chain, n + 1));
    }
}

} // verus!
