//! JSON: the members of an object, and the strings and integers among their values.
use serde::de::IgnoredAny;
use vstd::prelude::*;

verus! {

/// What stands first in `bytes`, after white space, if it is a JSON string: the string, and how
/// many bytes there are up to its end. It is what the first item is of a
/// `serde_json::StreamDeserializer` of strings, and its `byte_offset` then.
pub uninterp spec fn first_string(bytes: Seq<u8>) -> Option<(Seq<char>, int)>;

/// What stands first in `bytes`, after white space, if it is a JSON integer that fits in an `i64`,
/// followed by something that ends a number. It is what the first item is of a
/// `serde_json::StreamDeserializer` of such integers.
pub uninterp spec fn first_integer(bytes: Seq<u8>) -> Option<i64>;

/// How many bytes there are up to the end of the JSON value that stands first in `bytes`, if one
/// does. It is the `byte_offset` of a `serde_json::StreamDeserializer` of `serde::de::IgnoredAny`
/// after its first item.
pub uninterp spec fn first_value_end(bytes: Seq<u8>) -> Option<int>;

/// A string and a number, as mathematical values.
pub open spec fn optional_string(r: Option<(String, usize)>) -> Option<(Seq<char>, int)> {
    match r {
        Some((s, n)) => Some((s@, n as int)),
        None => None,
    }
}

/// A number, as a mathematical value.
pub open spec fn optional_int(r: Option<usize>) -> Option<int> {
    match r {
        Some(n) => Some(n as int),
        None => None,
    }
}

/// Calls `serde_json::Deserializer::from_slice` with the bytes from `from` on, and of the stream of
/// strings that `into_iter` makes of it `next` and `byte_offset`: the string that stands first, if
/// one does, which takes at least one of the bytes and no more than there are.
#[verifier::external_body]
fn read_string(bytes: &Vec<u8>, from: usize) -> (r: Option<(String, usize)>)
    requires
        from <= bytes@.len(),
    ensures
        optional_string(r) == first_string(bytes@.skip(from as int)),
        r matches Some(read) ==> 0 < read.1 <= bytes@.len() - from,
{
    let mut stream = serde_json::Deserializer::from_slice(&bytes[from..]).into_iter::<String>();
    let text = stream.next()?.ok()?;
    Some((text, stream.byte_offset()))
}

/// Calls `serde_json::Deserializer::from_slice` with the bytes from `from` on, and `next` of the
/// stream of integers that `into_iter` makes of it: the integer that stands first, if one does.
#[verifier::external_body]
fn read_integer(bytes: &Vec<u8>, from: usize) -> (r: Option<i64>)
    requires
        from <= bytes@.len(),
    ensures
        r == first_integer(bytes@.skip(from as int)),
{
    serde_json::Deserializer::from_slice(&bytes[from..]).into_iter::<i64>().next()?.ok()
}

/// Calls `serde_json::Deserializer::from_slice` with the bytes from `from` on, and of the stream of
/// values of any sort that `into_iter` makes of it `next` and `byte_offset`: where the value ends
/// that stands first, if one does. It takes at least one of the bytes and no more than there are.
#[verifier::external_body]
fn skip_value(bytes: &Vec<u8>, from: usize) -> (r: Option<usize>)
    requires
        from <= bytes@.len(),
    ensures
        optional_int(r) == first_value_end(bytes@.skip(from as int)),
        r matches Some(n) ==> 0 < n <= bytes@.len() - from,
{
    let mut stream = serde_json::Deserializer::from_slice(&bytes[from..]).into_iter::<IgnoredAny>();
    stream.next()?.ok()?;
    Some(stream.byte_offset())
}

/// The bytes that are white space in JSON.
pub open spec fn is_space(byte: u8) -> bool {
    byte == 0x20 || byte == 0x09 || byte == 0x0a || byte == 0x0d
}

/// `bytes` without the white space that they start with.
pub open spec fn after_space(bytes: Seq<u8>) -> Seq<u8>
    decreases bytes.len(),
{
    if bytes.len() > 0 && is_space(bytes[0]) {
        after_space(bytes.skip(1))
    } else {
        bytes
    }
}

/// What follows `mark` in `bytes`, and white space before and after it, if that is how they start.
pub open spec fn after_mark(bytes: Seq<u8>, mark: u8) -> Option<Seq<u8>> {
    let rest = after_space(bytes);
    if rest.len() > 0 && rest[0] == mark {
        Some(after_space(rest.skip(1)))
    } else {
        None
    }
}

/// The first member of an object from which `bytes` go on, and what follows it: its name, its
/// value with all that stands behind it, and what stands behind the value.
pub open spec fn first_member(bytes: Seq<u8>) -> Option<(Seq<char>, Seq<u8>, Seq<u8>)> {
    match first_string(bytes) {
        Some((name, n)) if 0 < n <= bytes.len() => match after_mark(bytes.skip(n), 0x3a) {
            Some(value) => match first_value_end(value) {
                Some(m) if 0 < m <= value.len() => Some((name, value, value.skip(m))),
                _ => None,
            },
            None => None,
        },
        _ => None,
    }
}

/// The members of an object from which `bytes` go on, up to its end: of each the name, and the
/// value with all that stands behind it.
pub open spec fn more_members(bytes: Seq<u8>) -> Option<Seq<(Seq<char>, Seq<u8>)>>
    decreases bytes.len(),
{
    match first_member(bytes) {
        Some((name, value, behind)) => if after_mark(behind, 0x7d) is Some {
            Some(seq![(name, value)])
        } else {
            match after_mark(behind, 0x2c) {
                Some(rest) if rest.len() < bytes.len() => match more_members(rest) {
                    Some(members) => Some(seq![(name, value)] + members),
                    None => None,
                },
                _ => None,
            }
        },
        None => None,
    }
}

/// The members of the JSON object that stands first in `bytes`, if one does.
pub open spec fn object_members(bytes: Seq<u8>) -> Option<Seq<(Seq<char>, Seq<u8>)>> {
    match after_mark(bytes, 0x7b) {
        Some(rest) => if after_mark(rest, 0x7d) is Some {
            Some(Seq::empty())
        } else {
            more_members(rest)
        },
        None => None,
    }
}

/// Members with the places where their values start in `bytes`, as mathematical values.
pub open spec fn located(bytes: Seq<u8>, members: Seq<(String, usize)>) -> Seq<
    (Seq<char>, Seq<u8>),
> {
    members.map_values(|member: (String, usize)| (member.0@, bytes.skip(member.1 as int)))
}

/// Whether all the values start in `bytes`, or where they end.
pub open spec fn are_within(bytes: Seq<u8>, members: Seq<(String, usize)>) -> bool {
    forall|i: int| 0 <= i < members.len() ==> (#[trigger] members[i]).1 <= bytes.len()
}

/// Where the white space from `from` on ends.
fn skip_space(bytes: &Vec<u8>, from: usize) -> (r: usize)
    requires
        from <= bytes@.len(),
    ensures
        from <= r <= bytes@.len(),
        bytes@.skip(r as int) == after_space(bytes@.skip(from as int)),
{
    let mut at: usize = from;
    while at < bytes.len() && (bytes[at] == 0x20 || bytes[at] == 0x09 || bytes[at] == 0x0a
        || bytes[at] == 0x0d)
        invariant
            from <= at <= bytes@.len(),
            after_space(bytes@.skip(at as int)) == after_space(bytes@.skip(from as int)),
        decreases bytes@.len() - at,
    {
        assert(bytes@.skip(at as int).skip(1) =~= bytes@.skip(at + 1));
        at = at + 1;
    }
    at
}

/// Where what follows `mark` starts, if it stands at `from`, with white space around it.
fn skip_mark(bytes: &Vec<u8>, from: usize, mark: u8) -> (r: Option<usize>)
    requires
        from <= bytes@.len(),
    ensures
        match r {
            Some(at) => from < at <= bytes@.len() && after_mark(bytes@.skip(from as int), mark)
                == Some(bytes@.skip(at as int)),
            None => after_mark(bytes@.skip(from as int), mark) is None,
        },
{
    let at: usize = skip_space(bytes, from);
    if at < bytes.len() && bytes[at] == mark {
        assert(bytes@.skip(at as int).skip(1) =~= bytes@.skip(at + 1));
        Some(skip_space(bytes, at + 1))
    } else {
        None
    }
}

/// Reads the members of the JSON object that stands first in `bytes`, if one does: their names,
/// and where their values start.
pub fn read_members(bytes: &Vec<u8>) -> (r: Option<Vec<(String, usize)>>)
    ensures
        match r {
            Some(members) => are_within(bytes@, members@) && object_members(bytes@) == Some(
                located(bytes@, members@),
            ),
            None => object_members(bytes@) is None,
        },
{
    let len: usize = bytes.len();
    let mut members: Vec<(String, usize)> = Vec::new();
    assert(bytes@.skip(0) =~= bytes@);
    let mut at: usize = match skip_mark(bytes, 0, 0x7b) {
        Some(at) => at,
        None => {
            return None;
        },
    };
    if skip_mark(bytes, at, 0x7d).is_some() {
        assert(located(bytes@, members@) =~= Seq::empty());
        return Some(members);
    }
    let ghost all = more_members(bytes@.skip(at as int));
    assert(located(bytes@, members@) =~= Seq::empty());
    assert(all matches Some(more) ==> located(bytes@, members@) + more =~= more);
    loop
        invariant
            at <= len == bytes@.len(),
            are_within(bytes@, members@),
            match more_members(bytes@.skip(at as int)) {
                Some(more) => all == Some(located(bytes@, members@) + more),
                None => all is None,
            },
            object_members(bytes@) == all,
        decreases bytes@.len() - at,
    {
        let ghost here = bytes@.skip(at as int);
        let (name, n) = match read_string(bytes, at) {
            Some(read) => read,
            None => {
                return None;
            },
        };
        assert(here.skip(n as int) =~= bytes@.skip(at + n));
        let value: usize = match skip_mark(bytes, at + n, 0x3a) {
            Some(value) => value,
            None => {
                return None;
            },
        };
        let m: usize = match skip_value(bytes, value) {
            Some(m) => m,
            None => {
                return None;
            },
        };
        assert(bytes@.skip(value as int).skip(m as int) =~= bytes@.skip(value + m));
        let ghost before = located(bytes@, members@);
        let ghost this = (name@, bytes@.skip(value as int));
        members.push((name, value));
        assert(located(bytes@, members@) =~= before.push(this));
        if skip_mark(bytes, value + m, 0x7d).is_some() {
            assert(before + seq![this] =~= before.push(this));
            return Some(members);
        }
        match skip_mark(bytes, value + m, 0x2c) {
            Some(next) => {
                proof {
                    assert(more_members(bytes@.skip(next as int)) matches Some(more) ==> before + (
                    seq![this] + more) =~= before.push(this) + more);
                }
                at = next;
            },
            None => {
                return None;
            },
        }
    }
}

/// Whether the member with this index has the name, and no other has.
pub open spec fn is_only(members: Seq<(Seq<char>, Seq<u8>)>, name: Seq<char>, i: int) -> bool {
    &&& 0 <= i < members.len()
    &&& members[i].0 == name
    &&& forall|j: int| 0 <= j < members.len() && j != i ==> (#[trigger] members[j]).0 != name
}

/// The value of the member with this name, if there is one and no more.
pub open spec fn only_value(members: Seq<(Seq<char>, Seq<u8>)>, name: Seq<char>) -> Option<
    Seq<u8>,
> {
    if exists|i: int| is_only(members, name, i) {
        Some(members[choose|i: int| is_only(members, name, i)].1)
    } else {
        None
    }
}

/// The string that the only member with this name has.
pub open spec fn only_string(members: Seq<(Seq<char>, Seq<u8>)>, name: Seq<char>) -> Option<
    Seq<char>,
> {
    match only_value(members, name) {
        Some(value) => match first_string(value) {
            Some((s, _)) => Some(s),
            None => None,
        },
        None => None,
    }
}

/// The integer that the only member with this name has.
pub open spec fn only_integer(members: Seq<(Seq<char>, Seq<u8>)>, name: Seq<char>) -> Option<i64> {
    match only_value(members, name) {
        Some(value) => first_integer(value),
        None => None,
    }
}

/// The only member with a name is the one.
pub(crate) proof fn only_value_is(
    members: Seq<(Seq<char>, Seq<u8>)>,
    name: Seq<char>,
    i: int,
)
    requires
        is_only(members, name, i),
    ensures
        only_value(members, name) == Some(members[i].1),
{
    let j = choose|j: int| is_only(members, name, j);
    assert(is_only(members, name, j));
    assert(i == j);
}

/// If there is an only member with the name of this one, it is this one.
pub(crate) proof fn only_value_is_of(members: Seq<(Seq<char>, Seq<u8>)>, name: Seq<char>, i: int)
    requires
        0 <= i < members.len(),
        members[i].0 == name,
    ensures
        only_value(members, name) is Some ==> is_only(members, name, i) && only_value(members, name)
            == Some(members[i].1),
{
    if exists|j: int| is_only(members, name, j) {
        let j = choose|j: int| is_only(members, name, j);
        assert(is_only(members, name, j));
        assert(i == j);
    }
}

/// Where the value of the only member with this name starts.
fn find_only(bytes: &Vec<u8>, members: &Vec<(String, usize)>, name: &str) -> (r: Option<usize>)
    requires
        are_within(bytes@, members@),
    ensures
        match r {
            Some(at) => at <= bytes@.len() && only_value(located(bytes@, members@), name@) == Some(
                bytes@.skip(at as int),
            ),
            None => only_value(located(bytes@, members@), name@) is None,
        },
{
    let wanted: String = name.to_owned();
    let ghost all = located(bytes@, members@);
    let mut found: Option<usize> = None;
    let mut i: usize = 0;
    while i < members.len()
        invariant
            i <= members@.len(),
            wanted@ == name@,
            all == located(bytes@, members@),
            match found {
                Some(k) => k < i && all[k as int].0 == name@ && forall|j: int|
                    0 <= j < i && j != k ==> (#[trigger] all[j]).0 != name@,
                None => forall|j: int| 0 <= j < i ==> (#[trigger] all[j]).0 != name@,
            },
        decreases members@.len() - i,
    {
        assert(all[i as int].0 == members@[i as int].0@);
        if members[i].0 == wanted {
            match found {
                Some(k) => {
                    assert forall|j: int| !is_only(all, name@, j) by {
                        assert(all[k as int].0 == name@ && all[i as int].0 == name@);
                    }
                    return None;
                },
                None => {
                    found = Some(i);
                },
            }
        }
        i = i + 1;
    }
    match found {
        Some(k) => {
            proof {
                only_value_is(all, name@, k as int);
                assert(all[k as int].1 == bytes@.skip(members@[k as int].1 as int));
            }
            Some(members[k].1)
        },
        None => None,
    }
}

/// Reads the string that the only member with this name has.
pub fn find_string(bytes: &Vec<u8>, members: &Vec<(String, usize)>, name: &str) -> (r: Option<
    String,
>)
    requires
        are_within(bytes@, members@),
    ensures
        match r {
            Some(s) => only_string(located(bytes@, members@), name@) == Some(s@),
            None => only_string(located(bytes@, members@), name@) is None,
        },
{
    match find_only(bytes, members, name) {
        Some(at) => match read_string(bytes, at) {
            Some((s, _)) => Some(s),
            None => None,
        },
        None => None,
    }
}

/// Reads the integer that the only member with this name has.
pub fn find_integer(bytes: &Vec<u8>, members: &Vec<(String, usize)>, name: &str) -> (r: Option<i64>)
    requires
        are_within(bytes@, members@),
    ensures
        r == only_integer(located(bytes@, members@), name@),
{
    match find_only(bytes, members, name) {
        Some(at) => read_integer(bytes, at),
        None => None,
    }
}

/// White space does not matter, and nothing else is skipped.
pub proof fn space_does_not_matter(bytes: Seq<u8>)
    ensures
        after_space(bytes).len() <= bytes.len(),
        bytes.skip(bytes.len() - after_space(bytes).len()) == after_space(bytes),
        forall|i: int|
            0 <= i < bytes.len() - after_space(bytes).len() ==> is_space(#[trigger] bytes[i]),
        after_space(bytes).len() > 0 ==> !is_space(after_space(bytes)[0]),
    decreases bytes.len(),
{
    if bytes.len() > 0 && is_space(bytes[0]) {
        let rest = bytes.skip(1);
        space_does_not_matter(rest);
        assert(rest.skip(rest.len() - after_space(rest).len()) =~= bytes.skip(
            bytes.len() - after_space(bytes).len(),
        ));
        assert forall|i: int| 0 <= i < bytes.len() - after_space(bytes).len() implies is_space(
            #[trigger] bytes[i],
        ) by {
            if i > 0 {
                assert(bytes[i] == rest[i - 1]);
            }
        }
    } else {
        assert(bytes.skip(0) =~= bytes);
    }
}

/// Whether a member with this name and value stands first in `bytes`: a string that is the name, a
/// colon, and the value.
pub open spec fn starts_with_member(bytes: Seq<u8>, name: Seq<char>, value: Seq<u8>) -> bool {
    &&& first_string(bytes) matches Some((s, n)) && {
        &&& s == name
        &&& 0 < n <= bytes.len()
        &&& after_mark(bytes.skip(n), 0x3a) == Some(value)
    }
}

/// What stands behind the JSON value that stands first in `bytes`.
pub open spec fn behind_value(bytes: Seq<u8>) -> Seq<u8> {
    bytes.skip(first_value_end(bytes)->0)
}

/// The members that are read go from one to the next: the first stands first, each other one stands
/// behind the value of the one before it and a comma, and behind the last value the object ends.
pub proof fn members_go_from_one_to_the_next(
    bytes: Seq<u8>,
    members: Seq<(Seq<char>, Seq<u8>)>,
    i: int,
)
    requires
        more_members(bytes) == Some(members),
        0 <= i < members.len(),
    ensures
        starts_with_member(bytes, members[0].0, members[0].1),
        first_value_end(members[i].1) is Some,
        i + 1 < members.len() ==> after_mark(behind_value(members[i].1), 0x7d) is None && after_mark(
            behind_value(members[i].1),
            0x2c,
        ) is Some && starts_with_member(
            after_mark(behind_value(members[i].1), 0x2c)->0,
            members[i + 1].0,
            members[i + 1].1,
        ),
        i + 1 == members.len() ==> after_mark(behind_value(members[i].1), 0x7d) is Some,
    decreases bytes.len(),
{
    let (name, value, behind) = first_member(bytes)->0;
    if after_mark(behind, 0x7d) is None {
        let rest = after_mark(behind, 0x2c)->0;
        let more = more_members(rest)->0;
        assert(members =~= seq![(name, value)] + more);
        more_is_some_member(rest);
        if i > 0 {
            assert(members[i] == more[i - 1]);
            if i + 1 < members.len() {
                assert(members[i + 1] == more[i]);
            }
            members_go_from_one_to_the_next(rest, more, i - 1);
        } else {
            members_go_from_one_to_the_next(rest, more, 0);
            assert(members[1] == more[0]);
        }
    }
}

proof fn more_is_some_member(bytes: Seq<u8>)
    ensures
        more_members(bytes) matches Some(members) ==> members.len() > 0,
{
}

/// Members that go from one to the next are all read: one member more, with a comma behind it, is
/// one member more that is read, and a last member ends what is read.
pub proof fn every_member_is_read(bytes: Seq<u8>, name: Seq<char>, value: Seq<u8>)
    requires
        starts_with_member(bytes, name, value),
        first_value_end(value) matches Some(m) && 0 < m <= value.len(),
    ensures
        after_mark(behind_value(value), 0x7d) is Some ==> more_members(bytes) == Some(
            seq![(name, value)],
        ),
        after_mark(behind_value(value), 0x7d) is None ==> ({
            let rest = after_mark(behind_value(value), 0x2c);
            &&& rest is None ==> more_members(bytes) is None
            &&& rest is Some && more_members(rest->0) is Some ==> more_members(bytes) == Some(
                seq![(name, value)] + more_members(rest->0)->0,
            )
            &&& rest is Some && more_members(rest->0) is None ==> more_members(bytes) is None
        }),
{
    let behind = behind_value(value);
    let n = (first_string(bytes)->0).1;
    after_mark_is_shorter(bytes.skip(n), 0x3a);
    after_mark_is_shorter(behind, 0x2c);
}

proof fn after_mark_is_shorter(bytes: Seq<u8>, mark: u8)
    ensures
        after_mark(bytes, mark) matches Some(rest) ==> rest.len() < bytes.len(),
{
    space_does_not_matter(bytes);
    if after_space(bytes).len() > 0 {
        space_does_not_matter(after_space(bytes).skip(1));
    }
}

/// An object is read from its opening brace: without members if it closes at once, and otherwise
/// with all that follow.
pub proof fn object_is_read_from_its_brace(bytes: Seq<u8>)
    ensures
        after_mark(bytes, 0x7b) is None ==> object_members(bytes) is None,
        after_mark(bytes, 0x7b) matches Some(rest) ==> object_members(bytes) == if after_mark(
            rest,
            0x7d,
        ) is Some {
            Some(Seq::<(Seq<char>, Seq<u8>)>::empty())
        } else {
            more_members(rest)
        },
{
}

} // verus!
