//! What is new at every call: the time and random identifiers.
use vstd::prelude::*;

verus! {

/// The last second that the calendar of `chrono` reaches.
pub const LAST_SECOND: i64 = 8_210_266_876_799;

/// Whether the clock can show `now`, in seconds since the epoch.
pub open spec fn is_clock_time(now: i64) -> bool {
    0 <= now <= LAST_SECOND
}

/// Calls `chrono::Utc::now` and takes the `timestamp` of what it returns: the whole seconds
/// since the epoch, between zero and the last second of the calendar; it does not return where the
/// clock is set to another time. Nothing ties what two calls return to each other.
#[verifier::external_body]
pub(crate) fn current_timestamp() -> (now: i64)
    ensures
        is_clock_time(now),
{
    chrono::Utc::now().timestamp()
}

/// Whether `c` is a hexadecimal digit in lower case.
pub open spec fn is_hex_digit(c: char) -> bool {
    '0' <= c <= '9' || 'a' <= c <= 'f'
}

/// Whether `s` is a random UUID as text: hexadecimal digits in groups of eight, four, four,
/// four and twelve with hyphens between them, of which one tells the version and one the
/// variant.
pub open spec fn is_uuid_v4(s: Seq<char>) -> bool {
    &&& s.len() == 36
    &&& forall|i: int|
        #![trigger s[i]]
        0 <= i < 36 ==> if i == 8 || i == 13 || i == 18 || i == 23 {
            s[i] == '-'
        } else {
            is_hex_digit(s[i])
        }
    &&& s[14] == '4'
    &&& s[19] == '8' || s[19] == '9' || s[19] == 'a' || s[19] == 'b'
}

/// Calls `uuid::Uuid::new_v4` and writes what it returns with `to_string`: a random UUID in
/// its hyphenated form. Nothing ties what two calls return to each other.
#[verifier::external_body]
pub(crate) fn new_uuid() -> (id: String)
    ensures
        is_uuid_v4(id@),
{
    uuid::Uuid::new_v4().to_string()
}

/// Whether `now` is what reading the clock gave.
pub closed spec fn is_clock_reading(now: i64) -> bool {
    call_ensures(current_timestamp, (), now)
}

/// Whether `now` is a second that the clock showed when it was read.
pub closed spec fn is_clock_second(now: u64) -> bool {
    now <= LAST_SECOND && is_clock_reading(now as i64)
}

/// Whether `id` is what drawing an identifier gave.
pub closed spec fn is_drawn(id: Seq<char>) -> bool {
    exists|drawn: String| #[trigger] call_ensures(new_uuid, (), drawn) && drawn@ == id
}

/// Whether `id` is what the `nth` of several draws for one purpose gave.
pub closed spec fn is_nth_draw(nth: u8, id: Seq<char>) -> bool {
    exists|drawn: String| #[trigger] call_ensures(draw, (nth,), drawn) && drawn@ == id
}

/// Whether drawing one identifier gave `first`, and drawing another one gave `second`.
pub open spec fn are_separate_draws(first: Seq<char>, second: Seq<char>) -> bool {
    is_nth_draw(1, first) && is_nth_draw(2, second)
}

/// A time that the clock showed is one that reading it gave, and one that it can show.
pub(crate) proof fn readings_come_from_the_clock(now: i64, second: u64)
    ensures
        is_clock_reading(now) <==> call_ensures(current_timestamp, (), now),
        is_clock_reading(now) ==> 0 <= now <= LAST_SECOND,
        is_clock_second(second) <==> second <= LAST_SECOND && call_ensures(
            current_timestamp,
            (),
            second as i64,
        ),
{
}

/// An identifier that was drawn is one that the generator gave, and a random UUID; and of separate
/// draws each is one that was drawn, in a draw of its own.
pub(crate) proof fn draws_come_from_the_generator(first: Seq<char>, second: Seq<char>)
    ensures
        is_drawn(first) <==> exists|drawn: String| #[trigger]
            call_ensures(new_uuid, (), drawn) && drawn@ == first,
        is_drawn(first) ==> is_uuid_v4(first),
        are_separate_draws(first, second) ==> is_drawn(first) && is_drawn(second),
        are_separate_draws(first, second) ==> exists|one: String, other: String|
            #![trigger call_ensures(draw, (1u8,), one), call_ensures(draw, (2u8,), other)]
            call_ensures(draw, (1u8,), one) && call_ensures(draw, (2u8,), other) && one@ == first
                && other@ == second,
{
    if are_separate_draws(first, second) {
        let one = choose|one: String| #[trigger] call_ensures(draw, (1u8,), one) && one@ == first;
        let other = choose|other: String| #[trigger] call_ensures(draw, (2u8,), other) && other@
            == second;
        assert(call_ensures(draw, (1u8,), one) && call_ensures(draw, (2u8,), other));
    }
}

/// Reads the clock.
pub(crate) fn read_clock() -> (now: i64)
    ensures
        is_clock_time(now),
        is_clock_reading(now),
{
    current_timestamp()
}

/// Draws an identifier.
pub(crate) fn draw_uuid() -> (id: String)
    ensures
        is_uuid_v4(id@),
        is_drawn(id@),
{
    new_uuid()
}

/// Draws one of several identifiers, the one with this number.
pub(crate) fn draw(_nth: u8) -> (id: String)
    ensures
        is_uuid_v4(id@),
        is_drawn(id@),
{
    new_uuid()
}

/// Draws two identifiers, each in a draw of its own.
pub(crate) fn draw_two_uuids() -> (r: (String, String))
    ensures
        is_uuid_v4(r.0@),
        is_uuid_v4(r.1@),
        are_separate_draws(r.0@, r.1@),
{
    let first = draw(1);
    let second = draw(2);
    (first, second)
}

} // verus!
