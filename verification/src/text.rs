//! Text: white space, decimal numbers, and what the service reads from strings.
use vstd::prelude::*;

verus! {

/// The characters that have the Unicode property `White_Space`.
pub open spec fn is_white_space(c: char) -> bool {
    ||| '\u{9}' <= c <= '\u{d}'
    ||| c == ' '
    ||| c == '\u{85}'
    ||| c == '\u{a0}'
    ||| c == '\u{1680}'
    ||| '\u{2000}' <= c <= '\u{200a}'
    ||| c == '\u{2028}'
    ||| c == '\u{2029}'
    ||| c == '\u{202f}'
    ||| c == '\u{205f}'
    ||| c == '\u{3000}'
}

/// `s` without the white space that it starts with.
pub open spec fn without_leading_space(s: Seq<char>) -> Seq<char>
    decreases s.len(),
{
    if s.len() > 0 && is_white_space(s.first()) {
        without_leading_space(s.drop_first())
    } else {
        s
    }
}

/// `s` without the white space that it ends with.
pub open spec fn without_trailing_space(s: Seq<char>) -> Seq<char>
    decreases s.len(),
{
    if s.len() > 0 && is_white_space(s.last()) {
        without_trailing_space(s.drop_last())
    } else {
        s
    }
}

/// `s` without the white space around it.
pub open spec fn trimmed(s: Seq<char>) -> Seq<char> {
    without_trailing_space(without_leading_space(s))
}

/// Whether nothing is left of `s` once the white space around it is gone.
pub open spec fn is_blank(s: Seq<char>) -> bool {
    trimmed(s).len() == 0
}

/// A text is blank exactly if it holds nothing but white space.
pub proof fn blank_iff_all_white_space(s: Seq<char>)
    ensures
        is_blank(s) <==> forall|i: int| 0 <= i < s.len() ==> is_white_space(#[trigger] s[i]),
{
    leading_space_is_all_or_not(s);
    let t = without_leading_space(s);
    if t.len() > 0 {
        trailing_space_is_not_all(t);
    }
}

proof fn leading_space_is_all_or_not(s: Seq<char>)
    ensures
        without_leading_space(s).len() == 0 <==> forall|i: int|
            0 <= i < s.len() ==> is_white_space(#[trigger] s[i]),
        without_leading_space(s).len() > 0 ==> !is_white_space(without_leading_space(s).first()),
    decreases s.len(),
{
    if s.len() > 0 && is_white_space(s.first()) {
        let rest = s.drop_first();
        leading_space_is_all_or_not(rest);
        if forall|i: int| 0 <= i < rest.len() ==> is_white_space(#[trigger] rest[i]) {
            assert forall|i: int| 0 <= i < s.len() implies is_white_space(#[trigger] s[i]) by {
                if i > 0 {
                    assert(rest[i - 1] == s[i]);
                }
            }
        } else {
            let i = choose|i: int| 0 <= i < rest.len() && !is_white_space(#[trigger] rest[i]);
            assert(!is_white_space(s[i + 1]));
        }
    } else if s.len() > 0 {
        assert(!is_white_space(s[0]));
    }
}

proof fn trailing_space_is_not_all(s: Seq<char>)
    requires
        s.len() > 0,
        !is_white_space(s.first()),
    ensures
        without_trailing_space(s).len() > 0,
    decreases s.len(),
{
    if is_white_space(s.last()) {
        trailing_space_is_not_all(s.drop_last());
    }
}

/// Calls `str::trim`, which removes leading and trailing white space as Unicode's
/// property `White_Space` defines it: the result is `trimmed` of the argument.
#[verifier::external_body]
pub(crate) fn trim(s: &str) -> (r: &str)
    ensures
        r@ == trimmed(s@),
{
    s.trim()
}

/// What stands before and after the last `c` in `s`, if there is one.
pub open spec fn around_last(s: Seq<char>, c: char) -> Option<(Seq<char>, Seq<char>)>
    decreases s.len(),
{
    if s.len() == 0 {
        None
    } else if s.last() == c {
        Some((s.drop_last(), Seq::empty()))
    } else {
        match around_last(s.drop_last(), c) {
            Some((before, after)) => Some((before, after.push(s.last()))),
            None => None,
        }
    }
}

/// Two texts, as mathematical values.
pub open spec fn optional_pair(r: Option<(&str, &str)>) -> Option<(Seq<char>, Seq<char>)> {
    match r {
        Some((a, b)) => Some((a@, b@)),
        None => None,
    }
}

/// Calls `str::rsplit_once`: what stands before and after the last `c`, if there is one.
#[verifier::external_body]
pub(crate) fn split_at_last(s: &str, c: char) -> (r: Option<(&str, &str)>)
    ensures
        optional_pair(r) == around_last(s@, c),
{
    s.rsplit_once(c)
}

/// Where `c` stands between two texts and not in the second, they are what stands around the last.
pub proof fn around_last_parts(before: Seq<char>, c: char, after: Seq<char>)
    requires
        !after.contains(c),
    ensures
        around_last(before + seq![c] + after, c) == Some((before, after)),
    decreases after.len(),
{
    let s = before + seq![c] + after;
    if after.len() == 0 {
        assert(s.last() == c);
        assert(s.drop_last() =~= before);
        assert(after =~= Seq::empty());
    } else {
        assert(after.contains(after.last()));
        assert(s.last() == after.last());
        assert forall|i: int| 0 <= i < after.drop_last().len() implies after.drop_last()[i] != c by {
            assert(after.contains(after[i]));
        }
        around_last_parts(before, c, after.drop_last());
        assert(s.drop_last() =~= before + seq![c] + after.drop_last());
        assert(after.drop_last().push(after.last()) =~= after);
    }
}

/// A text without `c` has nothing around it.
pub proof fn around_last_of_none(s: Seq<char>, c: char)
    requires
        !s.contains(c),
    ensures
        around_last(s, c) is None,
{
    around_last_needs_one(s, c);
}

/// Where there is something around the last `c`, there is a `c`.
pub(crate) proof fn around_last_needs_one(s: Seq<char>, c: char)
    ensures
        around_last(s, c) is Some ==> s.contains(c),
    decreases s.len(),
{
    if s.len() > 0 && s.last() != c {
        around_last_needs_one(s.drop_last(), c);
        if s.drop_last().contains(c) {
            let i = choose|i: int| 0 <= i < s.len() - 1 && s.drop_last()[i] == c;
            assert(s[i] == c);
        }
    } else if s.len() > 0 {
        assert(s[s.len() - 1] == c);
    }
}

/// Whether `s` is one decimal digit or more, and nothing else.
pub open spec fn is_digits(s: Seq<char>) -> bool {
    s.len() > 0 && forall|i: int| 0 <= i < s.len() ==> '0' <= #[trigger] s[i] <= '9'
}

/// The number that the decimal digits `s` write.
pub open spec fn digits_value(s: Seq<char>) -> int
    decreases s.len(),
{
    if s.len() == 0 {
        0
    } else {
        10 * digits_value(s.drop_last()) + (s.last() as int - '0' as int)
    }
}

/// The number that `s` writes as digits, with or without a `+` before them.
pub open spec fn unsigned_value(s: Seq<char>) -> Option<int> {
    let digits = if s.len() > 0 && s.first() == '+' {
        s.drop_first()
    } else {
        s
    };
    if is_digits(digits) {
        Some(digits_value(digits))
    } else {
        None
    }
}

/// The number that `s` writes as digits, with or without a `+` or a `-` before them.
pub open spec fn signed_value(s: Seq<char>) -> Option<int> {
    if s.len() > 0 && s.first() == '-' {
        if is_digits(s.drop_first()) {
            Some(-digits_value(s.drop_first()))
        } else {
            None
        }
    } else {
        unsigned_value(s)
    }
}

/// `value`, if it is there and lies between `low` and `high`.
pub open spec fn within(value: Option<int>, low: int, high: int) -> Option<int> {
    match value {
        Some(n) if low <= n <= high => Some(n),
        _ => None,
    }
}

/// Calls `str::parse::<i64>`: an optional sign followed by digits only, and nothing
/// where the text is anything else or the number does not fit in the type.
#[verifier::external_body]
pub(crate) fn read_i64(s: &str) -> (r: Option<i64>)
    ensures
        match r {
            Some(n) => within(signed_value(s@), i64::MIN as int, i64::MAX as int) == Some(n as int),
            None => within(signed_value(s@), i64::MIN as int, i64::MAX as int) is None,
        },
{
    s.parse::<i64>().ok()
}

/// Calls `str::parse::<u64>`: an optional `+` followed by digits only, and nothing
/// where the text is anything else or the number does not fit in the type.
#[verifier::external_body]
pub(crate) fn read_u64(s: &str) -> (r: Option<u64>)
    ensures
        match r {
            Some(n) => within(unsigned_value(s@), 0, u64::MAX as int) == Some(n as int),
            None => within(unsigned_value(s@), 0, u64::MAX as int) is None,
        },
{
    s.parse::<u64>().ok()
}

/// Calls `str::parse::<usize>`: an optional `+` followed by digits only, and nothing
/// where the text is anything else or the number does not fit in the type.
#[verifier::external_body]
pub(crate) fn read_usize(s: &str) -> (r: Option<usize>)
    ensures
        match r {
            Some(n) => within(unsigned_value(s@), 0, usize::MAX as int) == Some(n as int),
            None => within(unsigned_value(s@), 0, usize::MAX as int) is None,
        },
{
    s.parse::<usize>().ok()
}

/// The decimal digits of `n`, without leading zeros.
pub open spec fn decimal(n: nat) -> Seq<char>
    decreases n,
{
    let digit = ('0' as int + n % 10) as char;
    if n < 10 {
        seq![digit]
    } else {
        decimal(n / 10).push(digit)
    }
}

/// The decimal digits of a number write that number, and start with zero only if it is less than
/// ten.
pub proof fn decimal_writes_the_number(n: nat)
    ensures
        is_digits(decimal(n)),
        digits_value(decimal(n)) == n,
        n >= 10 ==> decimal(n).first() != '0',
    decreases n,
{
    let digit = ('0' as int + n % 10) as char;
    reveal_with_fuel(digits_value, 2);
    if n < 10 {
        assert(seq![digit].drop_last() =~= Seq::empty());
    } else {
        decimal_writes_the_number(n / 10);
        assert(decimal(n).drop_last() =~= decimal(n / 10));
        assert(decimal(n).first() == decimal(n / 10).first());
        if n / 10 < 10 {
            assert(decimal(n / 10) =~= seq![('0' as int + (n / 10) % 10) as char]);
        }
    }
}

/// `n` in decimal, with a `-` before it where it is negative.
pub open spec fn signed_decimal(n: int) -> Seq<char> {
    if n < 0 {
        "-"@ + decimal((-n) as nat)
    } else {
        decimal(n as nat)
    }
}

/// Calls `ToString::to_string` on a `u16`, which writes it in decimal.
#[verifier::external_body]
pub(crate) fn u16_text(n: u16) -> (r: String)
    ensures
        r@ == decimal(n as nat),
{
    n.to_string()
}

/// What `Display` writes of the error that `String::from_utf8` gives for `bytes`.
pub uninterp spec fn utf8_error(bytes: Seq<u8>) -> Seq<char>;

/// Calls `String::from_utf8`: the text that the bytes encode, if they are valid UTF-8,
/// and otherwise the text of the error.
#[verifier::external_body]
pub(crate) fn string_from_utf8(bytes: Vec<u8>) -> (r: Result<String, String>)
    ensures
        match r {
            Ok(s) => vstd::utf8::valid_utf8(bytes@) && s@ == vstd::utf8::decode_utf8(bytes@),
            Err(e) => !vstd::utf8::valid_utf8(bytes@) && e@ == utf8_error(bytes@),
        },
{
    String::from_utf8(bytes).map_err(|e| e.to_string())
}

/// A text or the text of an error, as mathematical values.
pub open spec fn text_result(r: Result<String, String>) -> Result<Seq<char>, Seq<char>> {
    match r {
        Ok(s) => Ok(s@),
        Err(e) => Err(e@),
    }
}

/// A text or an error is taken as it is.
pub proof fn results_are_taken_whole(s: String)
    ensures
        text_result(Ok(s)) == Ok::<Seq<char>, Seq<char>>(s@),
        text_result(Err(s)) == Err::<Seq<char>, Seq<char>>(s@),
{
}

} // verus!
