use git_ref::decode::{parse, DecodeError, MaybeUnsafeState};
use git_ref::find_one::{candidates, FindError};
use git_ref::hash::ObjectId;
use git_ref::peel::{PeelError, MAX_REF_DEPTH};
use git_ref::reference::{Kind, Reference, State, Target};
use git_ref::safe_name::SafePartialName;
use git_ref::store::Store;
use git_ref::validate::{check_full_name, validate_name, NameError, Violation};

const ID_HEX: &[u8] = b"134385f6d781b7e97062102c6a483440bfda2a03";
const ID_LINE: &[u8] = b"134385f6d781b7e97062102c6a483440bfda2a03\n";

fn illegal_sequence(name: &[u8]) -> NameError {
    NameError::IllegalSequence(name.to_vec())
}

fn illegal_character(name: &[u8]) -> NameError {
    NameError::IllegalCharacter(name.to_vec())
}

#[test]
fn full_names_are_accepted_as_given() {
    for name in [&b"refs/heads/main"[..], b"HEAD", b"FETCH_HEAD", b"refs/heads/-x", b"refs/a.b/c"] {
        let validated = validate_name(name).unwrap();
        assert_eq!(validated.as_bytes(), name);
    }
}

#[test]
fn standalone_full_name_must_be_upper_case() {
    assert_eq!(validate_name(b"main"), Err(illegal_sequence(b"main")));
    assert_eq!(check_full_name(b"main"), Some(Violation::Sequence));
    assert_eq!(check_full_name(b"HEAD"), None);
}

#[test]
fn partial_names_are_accepted_as_given() {
    for name in [&b"main"[..], b"origin/main", b"heads/main", b"HEAD", b"refs/heads/main"] {
        let validated = SafePartialName::try_from(name).unwrap();
        assert_eq!(validated.as_bytes(), name);
        assert_eq!(validated.to_path(), name.to_vec());
    }
}

#[test]
fn forbidden_bytes_are_illegal_characters() {
    for name in [
        &b"refs/he\x01ads"[..],
        b"refs/a b",
        b"refs/a~b",
        b"refs/a^b",
        b"refs/a:b",
        b"refs/a?b",
        b"refs/a*b",
        b"refs/a[b",
        b"refs/a\\b",
        b"refs/a\x7fb",
        b"refs/a\nb",
    ] {
        assert_eq!(validate_name(name), Err(illegal_character(name)));
        assert_eq!(SafePartialName::try_from(name), Err(illegal_character(name)));
    }
}

#[test]
fn misplaced_bytes_are_illegal_sequences() {
    for name in [
        &b""[..],
        b"refs/a/../b",
        b"../escaping",
        b"refs/heads/main.lock",
        b"refs/heads/a@{1}",
        b"refs//heads",
        b"refs/./heads",
        b"/refs/heads",
        b"refs/heads/",
        b".refs/heads",
        b"-refs/heads",
        b"refs/heads/main.",
        b"refs/heads/.",
    ] {
        assert_eq!(validate_name(name), Err(illegal_sequence(name)));
        assert_eq!(SafePartialName::try_from(name), Err(illegal_sequence(name)));
    }
}

#[test]
fn validation_is_idempotent() {
    let first = validate_name(b"refs/remotes/origin/HEAD").unwrap();
    let second = validate_name(first.as_bytes()).unwrap();
    assert_eq!(first, second);
    let first = SafePartialName::try_from(b"origin").unwrap();
    let second = SafePartialName::try_from(first.as_bytes()).unwrap();
    assert_eq!(first, second);
}

#[test]
fn hex_is_read_in_both_cases_and_written_in_lower_case() {
    let id = ObjectId::from_hex(ID_HEX).unwrap();
    assert_eq!(id.bytes[0], 0x13);
    assert_eq!(id.bytes[1], 0x43);
    assert_eq!(id.bytes[19], 0x03);
    assert_eq!(id.to_hex(), ID_HEX.to_vec());
    let upper = ObjectId::from_hex(b"134385F6D781B7E97062102C6A483440BFDA2A03").unwrap();
    assert_eq!(upper, id);
    assert_eq!(upper.to_hex(), ID_HEX.to_vec());
}

#[test]
fn hex_of_wrong_length_or_digit_is_refused() {
    assert_eq!(ObjectId::from_hex(&ID_HEX[..39]), None);
    assert_eq!(ObjectId::from_hex(b"134385f6d781b7e97062102c6a483440bfda2a03a"), None);
    assert_eq!(ObjectId::from_hex(b"g34385f6d781b7e97062102c6a483440bfda2a03"), None);
    assert_eq!(ObjectId::from_hex(b""), None);
}

#[test]
fn direct_record_round_trip() {
    let id = ObjectId { bytes: [0xab; 20] };
    let written = State::Id(id).encode();
    assert_eq!(written, b"abababababababababababababababababababab\n".to_vec());
    let store = Store::new();
    let read = Reference::try_from_path(&store, b"refs/heads/x", &written).unwrap();
    assert_eq!(read.state, State::Id(id));
    assert_eq!(read.relative_path, b"refs/heads/x".to_vec());
}

#[test]
fn symbolic_record_round_trip() {
    let store = Store::new();
    let spaced = Reference::try_from_path(&store, b"HEAD", b"ref:    refs/foobar\n").unwrap();
    assert_eq!(spaced.target(), Target::Symbolic(b"refs/foobar"));
    let written = spaced.state.encode();
    assert_eq!(written, b"ref: refs/foobar\n".to_vec());
    let again = Reference::try_from_path(&store, b"HEAD", &written).unwrap();
    assert_eq!(again.state, spaced.state);
}

#[test]
fn both_line_terminators_are_read() {
    let store = Store::new();
    let symbolic = Reference::try_from_path(&store, b"HEAD", b"ref: refs/heads/main\r\n").unwrap();
    assert_eq!(symbolic.target(), Target::Symbolic(b"refs/heads/main"));
    let mut line = ID_HEX.to_vec();
    line.extend_from_slice(b"\r\n");
    let direct = Reference::try_from_path(&store, b"refs/heads/main", &line).unwrap();
    assert_eq!(direct.target(), Target::Peeled(&ObjectId::from_hex(ID_HEX).unwrap()));
}

#[test]
fn content_that_is_no_single_line_is_unparseable() {
    let store = Store::new();
    let mut trailing = ID_LINE.to_vec();
    trailing.push(b'x');
    let mut upper = b"134385F6D781B7E97062102C6A483440BFDA2A03".to_vec();
    upper.push(b'\n');
    let mut leading = b" ".to_vec();
    leading.extend_from_slice(ID_LINE);
    for content in [
        &b""[..],
        b"\n",
        ID_HEX,
        &ID_LINE[1..],
        &trailing,
        &upper,
        &leading,
        b"ref: refs/heads/main",
        b"ref: refs/heads/main\nx",
        b"ref: refs/heads/main\n\n",
        b"ref: refs/heads/main\r",
        b"ref:refs/heads/main\n",
        b"foobar",
    ] {
        let err = Reference::try_from_path(&store, b"name", content).unwrap_err();
        assert_eq!(err, DecodeError::Unparseable { raw_content: content.to_vec() });
        assert!(parse(content).is_none());
    }
}

#[test]
fn symbolic_path_must_be_a_full_name() {
    let store = Store::new();
    let err = Reference::try_from_path(&store, b"HEAD", b"ref: refs/heads/ma in\n").unwrap_err();
    assert_eq!(
        err,
        DecodeError::NameInvalid {
            source: illegal_character(b"refs/heads/ma in"),
            raw_path: b"refs/heads/ma in".to_vec(),
        }
    );
    assert_eq!(err.to_string(), "The path to a symbolic reference within a ref file is invalid");
    let err = Reference::try_from_path(&store, b"HEAD", b"ref: \n").unwrap_err();
    assert_eq!(
        err,
        DecodeError::NameInvalid { source: illegal_sequence(b""), raw_path: Vec::new() }
    );
    let err = Reference::try_from_path(&store, b"HEAD", b"ref: main\n").unwrap_err();
    assert_eq!(
        err,
        DecodeError::NameInvalid { source: illegal_sequence(b"main"), raw_path: b"main".to_vec() }
    );
}

#[test]
fn parse_leaves_the_path_unvalidated() {
    match parse(b"ref:  a b\n") {
        Some(MaybeUnsafeState::UnvalidatedPath(path)) => assert_eq!(path, b"a b".to_vec()),
        _ => panic!("a symbolic line"),
    }
    match parse(ID_LINE) {
        Some(MaybeUnsafeState::Id(id)) => assert_eq!(id.to_hex(), ID_HEX.to_vec()),
        _ => panic!("an id line"),
    }
}

fn paths_of(name: &[u8]) -> Vec<Vec<u8>> {
    candidates(&SafePartialName::try_from(name).unwrap())
}

#[test]
fn candidates_come_in_order_of_priority() {
    assert_eq!(
        paths_of(b"main"),
        vec![
            b"refs/main".to_vec(),
            b"refs/tags/main".to_vec(),
            b"refs/heads/main".to_vec(),
            b"refs/remotes/main".to_vec(),
            b"refs/remotes/main/HEAD".to_vec(),
        ]
    );
    assert_eq!(
        paths_of(b"HEAD"),
        vec![
            b"HEAD".to_vec(),
            b"refs/HEAD".to_vec(),
            b"refs/tags/HEAD".to_vec(),
            b"refs/heads/HEAD".to_vec(),
            b"refs/remotes/HEAD".to_vec(),
            b"refs/remotes/HEAD/HEAD".to_vec(),
        ]
    );
    assert_eq!(paths_of(b"refs/heads/main")[0], b"refs/heads/main".to_vec());
    assert_eq!(paths_of(b"refs/heads/main").len(), 6);
    assert_eq!(paths_of(b"heads/main")[0], b"refs/heads/main".to_vec());
    assert_eq!(paths_of(b"heads/main").len(), 5);
}

#[test]
fn store_reads_what_was_stored_last() {
    let mut store = Store::new();
    assert!(!store.contains(b"refs/x"));
    assert_eq!(store.read(b"refs/x"), None);
    store.insert(b"refs/x", b"one");
    store.insert(b"refs/y", b"two");
    assert_eq!(store.read(b"refs/x"), Some(Some(&b"one"[..])));
    store.insert(b"refs/x", b"three");
    assert_eq!(store.read(b"refs/x"), Some(Some(&b"three"[..])));
    assert_eq!(store.read(b"refs/y"), Some(Some(&b"two"[..])));
    store.insert_unreadable(b"refs/y");
    assert_eq!(store.read(b"refs/y"), Some(None));
    assert!(store.contains(b"refs/y"));
}

#[test]
fn highest_priority_candidate_wins() {
    let mut store = Store::new();
    store.insert(b"refs/remotes/n/HEAD", b"ref: refs/remotes/n/main\n");
    assert_eq!(store.find_one(b"n").unwrap().unwrap().relative_path, b"refs/remotes/n/HEAD");
    store.insert(b"refs/remotes/n", ID_LINE);
    assert_eq!(store.find_one(b"n").unwrap().unwrap().relative_path, b"refs/remotes/n");
    store.insert(b"refs/heads/n", ID_LINE);
    assert_eq!(store.find_one(b"n").unwrap().unwrap().relative_path, b"refs/heads/n");
    store.insert(b"refs/tags/n", ID_LINE);
    assert_eq!(store.find_one(b"n").unwrap().unwrap().relative_path, b"refs/tags/n");
    store.insert(b"refs/n", ID_LINE);
    assert_eq!(store.find_one(b"n").unwrap().unwrap().relative_path, b"refs/n");
    store.insert(b"n", ID_LINE);
    assert_eq!(store.find_one(b"n").unwrap().unwrap().relative_path, b"refs/n");
    store.insert(b"N", ID_LINE);
    store.insert(b"refs/N", ID_LINE);
    assert_eq!(store.find_one(b"N").unwrap().unwrap().relative_path, b"N");
}

#[test]
fn first_stored_candidate_decides_even_where_it_is_broken() {
    let mut store = Store::new();
    store.insert(b"refs/heads/y", ID_LINE);
    store.insert(b"refs/y", b"notahexsha\n");
    assert_eq!(
        store.find_one(b"y").unwrap_err(),
        FindError::Decode {
            err: DecodeError::Unparseable { raw_content: b"notahexsha\n".to_vec() },
            relative_path: b"refs/y".to_vec(),
        }
    );
    store.insert_unreadable(b"refs/tags/z");
    store.insert(b"refs/heads/z", ID_LINE);
    assert_eq!(
        store.find_one(b"z").unwrap_err(),
        FindError::Io { relative_path: b"refs/tags/z".to_vec() }
    );
}

#[test]
fn invalid_name_is_refused_before_lookup() {
    let mut store = Store::new();
    store.insert(b"refs/../escaping", ID_LINE);
    assert_eq!(
        store.find_one(b"../escaping").unwrap_err(),
        FindError::InvalidName(illegal_sequence(b"../escaping"))
    );
    assert_eq!(
        store.find_one_existing(b"a b").unwrap_err(),
        FindError::InvalidName(illegal_character(b"a b"))
    );
}

fn chain(symbolic: usize, end_with_id: bool) -> Store {
    let mut store = Store::new();
    for i in 0..symbolic {
        let path = format!("refs/c{}", i);
        let content = format!("ref: refs/c{}\n", i + 1);
        store.insert(path.as_bytes(), content.as_bytes());
    }
    if end_with_id {
        store.insert(format!("refs/c{}", symbolic).as_bytes(), ID_LINE);
    }
    store
}

#[test]
fn five_symbolic_hops_exceed_the_depth() {
    assert_eq!(MAX_REF_DEPTH, 5);
    for (symbolic, end_with_id) in [(6, true), (6, false), (7, true), (20, true)] {
        let store = chain(symbolic, end_with_id);
        let mut r = store.find_one_existing(b"c0").unwrap();
        assert_eq!(
            r.peel_to_id_in_place().unwrap_err(),
            PeelError::DepthExceeded { max_depth: 5 }
        );
        assert_eq!(r.relative_path, b"refs/c0");
        assert_eq!(r.kind(), Kind::Symbolic);
        assert_eq!(r.target(), Target::Symbolic(b"refs/c1"));
    }
}

#[test]
fn an_id_at_the_fifth_hop_is_reached() {
    for symbolic in 1..=5 {
        let store = chain(symbolic, true);
        let mut r = store.find_one_existing(b"c0").unwrap();
        assert_eq!(r.peel_to_id_in_place().unwrap(), ObjectId::from_hex(ID_HEX).unwrap());
        assert_eq!(r.relative_path, format!("refs/c{}", symbolic).into_bytes());
        assert_eq!(r.kind(), Kind::Peeled);
    }
}

#[test]
fn peeling_a_direct_reference_changes_nothing() {
    let store = chain(0, true);
    let mut r = store.find_one_existing(b"c0").unwrap();
    assert!(r.peel_one_level().is_none());
    assert_eq!(r.peel_to_id_in_place().unwrap(), ObjectId::from_hex(ID_HEX).unwrap());
    assert_eq!(r.relative_path, b"refs/c0");
}

#[test]
fn cycle_names_the_path_seen_before() {
    let mut store = Store::new();
    store.insert(b"refs/loop-a", b"ref: refs/loop-b\n");
    store.insert(b"refs/loop-b", b"ref: refs/loop-a\n");
    store.insert(b"refs/self", b"ref: refs/self\n");
    let mut r = store.find_one_existing(b"loop-a").unwrap();
    assert_eq!(
        r.peel_to_id_in_place().unwrap_err(),
        PeelError::Cycle { first_seen_path: b"refs/loop-b".to_vec() }
    );
    assert_eq!(r.relative_path, b"refs/loop-a");
    assert_eq!(r.target(), Target::Symbolic(b"refs/loop-b"));
    let mut r = store.find_one_existing(b"self").unwrap();
    assert_eq!(
        r.peel_to_id_in_place().unwrap_err(),
        PeelError::Cycle { first_seen_path: b"refs/self".to_vec() }
    );
    assert_eq!(r.relative_path, b"refs/self");
}

#[test]
fn a_hop_follows_the_exact_path() {
    let mut store = Store::new();
    store.insert(b"HEAD", b"ref: refs/heads/main\n");
    store.insert(b"refs/heads/main", ID_LINE);
    store.insert(b"refs/up", b"ref: heads/main\n");
    let head = store.find_one_existing(b"HEAD").unwrap();
    let next = head.peel_one_level().unwrap().unwrap();
    assert_eq!(next.relative_path, b"refs/heads/main");
    assert_eq!(next.target(), Target::Peeled(&ObjectId::from_hex(ID_HEX).unwrap()));
    let up = store.find_one_existing(b"up").unwrap();
    assert_eq!(
        up.peel_one_level().unwrap().unwrap_err(),
        PeelError::NotFound { relative_path: b"heads/main".to_vec() }
    );
}

#[test]
fn a_failing_hop_leaves_the_reference_as_it_was() {
    let mut store = Store::new();
    store.insert(b"refs/a", b"ref: refs/heads/missing\n");
    store.insert(b"refs/b", b"ref: refs/broken\n");
    store.insert(b"refs/broken", b"notahexsha\n");
    store.insert(b"refs/c", b"ref: refs/unreadable\n");
    store.insert_unreadable(b"refs/unreadable");
    store.insert(b"refs/d", b"ref: refs/c\n");

    let mut a = store.find_one_existing(b"a").unwrap();
    let missing = PeelError::NotFound { relative_path: b"refs/heads/missing".to_vec() };
    assert_eq!(a.peel_one_level().unwrap().unwrap_err(), missing);
    assert_eq!(a.peel_to_id_in_place().unwrap_err(), missing);
    assert_eq!(a.relative_path, b"refs/a");

    let mut b = store.find_one_existing(b"b").unwrap();
    let broken = PeelError::Decode {
        err: DecodeError::Unparseable { raw_content: b"notahexsha\n".to_vec() },
        relative_path: b"refs/broken".to_vec(),
    };
    assert_eq!(b.peel_one_level().unwrap().unwrap_err(), broken);
    assert_eq!(b.peel_to_id_in_place().unwrap_err(), broken);
    assert_eq!(b.relative_path, b"refs/b");

    let mut d = store.find_one_existing(b"d").unwrap();
    assert_eq!(
        d.peel_to_id_in_place().unwrap_err(),
        PeelError::Io { relative_path: b"refs/unreadable".to_vec() }
    );
    assert_eq!(d.relative_path, b"refs/d");
    assert_eq!(d.target(), Target::Symbolic(b"refs/c"));
}

#[test]
fn remote_head_is_the_last_resort() {
    let mut store = Store::new();
    store.insert(b"refs/remotes/origin/HEAD", b"ref: refs/remotes/origin/main\n");
    store.insert(b"refs/remotes/origin/main", ID_LINE);
    let mut r = store.find_one(b"origin").unwrap().unwrap();
    assert_eq!(r.relative_path, b"refs/remotes/origin/HEAD");
    assert_eq!(r.kind(), Kind::Symbolic);
    assert_eq!(r.peel_to_id_in_place().unwrap(), ObjectId::from_hex(ID_HEX).unwrap());
    assert_eq!(r.relative_path, b"refs/remotes/origin/main");
    assert!(store.find_one(b"upstream").unwrap().is_none());
}

#[test]
fn hex_digit_values_of_every_byte() {
    for byte in 0..=255u8 {
        let value = match byte {
            b'0'..=b'9' => Some(byte - b'0'),
            b'a'..=b'f' => Some(byte - b'a' + 10),
            b'A'..=b'F' => Some(byte - b'A' + 10),
            _ => None,
        };
        let mut high = ID_HEX.to_vec();
        high[0] = byte;
        assert_eq!(ObjectId::from_hex(&high).map(|id| id.bytes[0]), value.map(|v| 16 * v + 3));
        let mut low = ID_HEX.to_vec();
        low[39] = byte;
        assert_eq!(ObjectId::from_hex(&low).map(|id| id.bytes[19]), value);
        let lower_case = byte.is_ascii_digit() || (b'a'..=b'f').contains(&byte);
        let mut line = high.clone();
        line.push(b'\n');
        assert_eq!(parse(&line).is_some(), lower_case);
    }
}

#[test]
fn every_byte_round_trips_through_hex() {
    for byte in 0..=255u8 {
        let id = ObjectId { bytes: [byte; 20] };
        let hex = id.to_hex();
        assert_eq!(hex, format!("{:02x}", byte).repeat(20).into_bytes());
        assert_eq!(ObjectId::from_hex(&hex), Some(id));
    }
}
