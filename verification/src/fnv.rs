//! FNV-1a, the hash by which `prometheus` tells series and metrics apart.
use vstd::prelude::*;

verus! {

/// The hash of something that had the hash `hash`, after one more byte.
pub open spec fn step(hash: u64, byte: u8) -> u64 {
    ((hash ^ (byte as u64)) * 0x100_0000_01b3) as u64
}

/// The 64-bit FNV-1a hash of the first `n` of `bytes`.
pub open spec fn hash_of_first(bytes: Seq<u8>, n: nat) -> u64
    decreases n,
{
    if n == 0 {
        0xcbf2_9ce4_8422_2325
    } else {
        step(hash_of_first(bytes, (n - 1) as nat), bytes[n - 1])
    }
}

/// The 64-bit FNV-1a hash of `bytes`.
pub open spec fn hash(bytes: Seq<u8>) -> u64 {
    hash_of_first(bytes, bytes.len())
}

/// The hash after four more bytes.
spec fn four_steps(hash: u64, a: u8, b: u8, c: u8, d: u8) -> u64 {
    step(step(step(step(hash, a), b), c), d)
}

/// The bytes of `http_request`.
spec fn http_request() -> Seq<u8> {
    seq![
        0x68u8, 0x74u8, 0x74u8, 0x70u8, 0x5fu8, 0x72u8, 0x65u8, 0x71u8, 0x75u8, 0x65u8, 0x73u8,
        0x74u8,
    ]
}

proof fn hash_of_http_request(bytes: Seq<u8>)
    requires
        bytes.len() >= 12,
        forall|i: int| 0 <= i < 12 ==> bytes[i] == #[trigger] http_request()[i],
    ensures
        hash_of_first(bytes, 12) == 0x4741_904f_9e67_ee63,
{
    assert forall|i: int| 0 <= i < 12 implies #[trigger] bytes[i] == http_request()[i] by {}
    reveal_with_fuel(hash_of_first, 13);
    assert(four_steps(four_steps(four_steps(0xcbf2_9ce4_8422_2325, 0x68, 0x74, 0x74, 0x70),
        0x5f, 0x72, 0x65, 0x71), 0x75, 0x65, 0x73,
        0x74) == 0x4741_904f_9e67_ee63) by (bit_vector);
}

/// The hash of `http_requests_total` and the byte 255 after it.
pub(crate) proof fn hash_of_requests_total()
    ensures
        hash(vstd::utf8::encode_utf8("http_requests_total"@).push(255)) == 0x4217_265b_99da_9ace,
{
    reveal_strlit("http_requests_total");
    let text = "http_requests_total"@;
    let bytes = vstd::utf8::encode_utf8(text).push(255);
    assert(vstd::utf8::is_ascii_chars(text));
    vstd::utf8::is_ascii_chars_encode_utf8(text);
    assert(bytes =~= http_request() + seq![
        0x73u8, 0x5fu8, 0x74u8, 0x6fu8, 0x74u8, 0x61u8, 0x6cu8, 0xffu8,
    ]);
    hash_of_http_request(bytes);
    reveal_with_fuel(hash_of_first, 9);
    assert(four_steps(four_steps(0x4741_904f_9e67_ee63, 0x73, 0x5f, 0x74, 0x6f), 0x74, 0x61,
        0x6c, 0xff) == 0x4217_265b_99da_9ace) by (bit_vector);
}

/// The hash of `http_request_duration_seconds` and the byte 255 after it.
pub(crate) proof fn hash_of_request_duration_seconds()
    ensures
        hash(vstd::utf8::encode_utf8("http_request_duration_seconds"@).push(255))
            == 0xfdd4_2088_fb22_972b,
{
    reveal_strlit("http_request_duration_seconds");
    let text = "http_request_duration_seconds"@;
    let bytes = vstd::utf8::encode_utf8(text).push(255);
    assert(vstd::utf8::is_ascii_chars(text));
    vstd::utf8::is_ascii_chars_encode_utf8(text);
    assert(bytes =~= http_request() + seq![
        0x5fu8, 0x64u8, 0x75u8, 0x72u8, 0x61u8, 0x74u8, 0x69u8, 0x6fu8, 0x6eu8, 0x5fu8, 0x73u8,
        0x65u8, 0x63u8, 0x6fu8, 0x6eu8, 0x64u8, 0x73u8, 0xffu8,
    ]);
    hash_of_http_request(bytes);
    reveal_with_fuel(hash_of_first, 19);
    assert(step(step(four_steps(four_steps(four_steps(four_steps(0x4741_904f_9e67_ee63, 0x5f,
        0x64, 0x75, 0x72), 0x61, 0x74, 0x69, 0x6f), 0x6e, 0x5f, 0x73, 0x65), 0x63, 0x6f, 0x6e,
        0x64), 0x73), 0xff) == 0xfdd4_2088_fb22_972b) by (bit_vector);
}

/// The hash of `http_requests_in_flight` and the byte 255 after it.
pub(crate) proof fn hash_of_requests_in_flight()
    ensures
        hash(vstd::utf8::encode_utf8("http_requests_in_flight"@).push(255))
            == 0x40aa_a4fb_ca6b_a00a,
{
    reveal_strlit("http_requests_in_flight");
    let text = "http_requests_in_flight"@;
    let bytes = vstd::utf8::encode_utf8(text).push(255);
    assert(vstd::utf8::is_ascii_chars(text));
    vstd::utf8::is_ascii_chars_encode_utf8(text);
    assert(bytes =~= http_request() + seq![
        0x73u8, 0x5fu8, 0x69u8, 0x6eu8, 0x5fu8, 0x66u8, 0x6cu8, 0x69u8, 0x67u8, 0x68u8, 0x74u8,
        0xffu8,
    ]);
    hash_of_http_request(bytes);
    reveal_with_fuel(hash_of_first, 13);
    assert(four_steps(four_steps(four_steps(0x4741_904f_9e67_ee63, 0x73, 0x5f, 0x69, 0x6e),
        0x5f, 0x66, 0x6c, 0x69), 0x67, 0x68, 0x74,
        0xff) == 0x40aa_a4fb_ca6b_a00a) by (bit_vector);
}

} // verus!
