use vstd::prelude::*;
use vstd::bytes::*;
use vstd::slice::*;
use vstd::string::*;
use vstd::utf8::*;
use crate::address::Address;

verus! {

/// The bytes of a string in a record: the length of its UTF-8 encoding as
/// four little-endian bytes, then the encoding.
pub open spec fn string_bytes(s: Seq<char>) -> Seq<u8> {
    spec_u32_to_le_bytes(encode_utf8(s).len() as u32) + encode_utf8(s)
}

/// Whether a string's encoding is short enough for its length to be written.
pub open spec fn string_fits(s: Seq<char>) -> bool {
    encode_utf8(s).len() <= u32::MAX
}

/// The string that starts at `at` in `bytes`, with the position after it;
/// `None` where the bytes end early or are no UTF-8.
pub open spec fn spec_read_string(bytes: Seq<u8>, at: int) -> Option<(Seq<char>, int)> {
    if at < 0 || at + 4 > bytes.len() {
        None
    } else {
        let n = spec_u32_from_le_bytes(bytes.subrange(at, at + 4)) as int;
        let end = at + 4 + n;
        if end > bytes.len() || !valid_utf8(bytes.subrange(at + 4, end)) {
            None
        } else {
            Some((decode_utf8(bytes.subrange(at + 4, end)), end))
        }
    }
}

/// The string that starts at `at`, where there is one.
pub open spec fn string_at(bytes: Seq<u8>, at: int) -> Seq<char> {
    match spec_read_string(bytes, at) {
        Some((s, _)) => s,
        None => Seq::empty(),
    }
}

/// The position after the string that starts at `at`, where there is one.
pub open spec fn string_end(bytes: Seq<u8>, at: int) -> int {
    match spec_read_string(bytes, at) {
        Some((_, end)) => end,
        None => at,
    }
}

/// The integer of eight little-endian bytes at `at`.
pub open spec fn spec_read_u64(bytes: Seq<u8>, at: int) -> u64 {
    spec_u64_from_le_bytes(bytes.subrange(at, at + 8))
}

/// Calls `String::from_utf8` of std.
///
/// Believed, not proved: the call succeeds exactly on valid UTF-8, and the
/// string it gives holds the characters that the bytes encode.
#[verifier::external_body]
pub(crate) fn string_from_utf8(bytes: Vec<u8>) -> (r: Option<String>)
    ensures
        r is Some == valid_utf8(bytes@),
        r is Some ==> r->0@ == decode_utf8(bytes@),
{
    String::from_utf8(bytes).ok()
}

/// Reads the string that starts at `at`.
pub fn read_string(data: &Vec<u8>, at: usize) -> (r: Option<(String, usize)>)
    ensures
        match r {
            Some((s, next)) => spec_read_string(data@, at as int) == Some((s@, next as int)),
            None => spec_read_string(data@, at as int) is None,
        },
{
    let len = data.len();
    if len < 4 || at > len - 4 {
        return None;
    }
    let n = u32_from_le_bytes(slice_subrange(data.as_slice(), at, at + 4));
    let rest = len - (at + 4);
    if n as usize > rest {
        return None;
    }
    let end = at + 4 + n as usize;
    let body = slice_to_vec(slice_subrange(data.as_slice(), at + 4, end));
    match string_from_utf8(body) {
        Some(s) => Some((s, end)),
        None => None,
    }
}

/// Reads the address that starts at `at`.
pub(crate) fn read_address(data: &Vec<u8>, at: usize) -> (r: Address)
    requires
        at + 32 <= data@.len(),
    ensures
        r@ == data@.subrange(at as int, at + 32),
{
    let len = data.len();
    let mut bytes = [0u8; 32];
    let mut i: usize = 0;
    while i < 32
        invariant
            i <= 32,
            at + 32 <= data@.len() == len,
            forall|j: int| 0 <= j < i ==> bytes@[j] == data@[at + j],
        decreases 32 - i,
    {
        bytes[i] = data[at + i];
        i += 1;
    }
    assert(bytes@ =~= data@.subrange(at as int, at + 32));
    Address { bytes }
}

/// Reads the integer of eight little-endian bytes at `at`.
pub(crate) fn read_u64(data: &Vec<u8>, at: usize) -> (r: u64)
    requires
        at + 8 <= data@.len(),
    ensures
        r == spec_read_u64(data@, at as int),
{
    let len = data.len();
    u64_from_le_bytes(slice_subrange(data.as_slice(), at, at + 8))
}

/// Appends a string's bytes; appends nothing, and says so, where the
/// string is too long for its length to be written.
pub fn put_string(out: &mut Vec<u8>, s: &String) -> (ok: bool)
    ensures
        ok == string_fits(s@),
        ok ==> final(out)@ == old(out)@ + string_bytes(s@),
        !ok ==> final(out)@ == old(out)@,
{
    let mut body = s.as_str().as_bytes_vec();
    if body.len() > 0xffff_ffff {
        return false;
    }
    let mut prefix = u32_to_le_bytes(body.len() as u32);
    out.append(&mut prefix);
    out.append(&mut body);
    assert(final(out)@ =~= old(out)@ + string_bytes(s@));
    true
}

/// Appends an address's bytes.
pub fn put_address(out: &mut Vec<u8>, a: &Address)
    ensures
        final(out)@ == old(out)@ + a@,
{
    let mut bytes = a.to_vec();
    out.append(&mut bytes);
}

/// Appends an integer as eight little-endian bytes.
pub fn put_u64(out: &mut Vec<u8>, x: u64)
    ensures
        final(out)@ == old(out)@ + spec_u64_to_le_bytes(x),
{
    let mut bytes = u64_to_le_bytes(x);
    out.append(&mut bytes);
}

/// Writes `image` over the start of `slot` and keeps the slot's length;
/// leaves the slot as it is, and says so, where the image is longer.
pub fn overwrite_prefix(slot: &mut Vec<u8>, image: &Vec<u8>) -> (ok: bool)
    ensures
        ok == (image@.len() <= old(slot)@.len()),
        ok ==> final(slot)@ == image@ + old(slot)@.skip(image@.len() as int),
        !ok ==> final(slot)@ == old(slot)@,
{
    if image.len() > slot.len() {
        return false;
    }
    let mut i: usize = 0;
    while i < image.len()
        invariant
            i <= image@.len() <= slot@.len(),
            slot@.len() == old(slot)@.len(),
            forall|j: int| 0 <= j < i ==> slot@[j] == image@[j],
            forall|j: int| i <= j < slot@.len() ==> slot@[j] == old(slot)@[j],
        decreases image@.len() - i,
    {
        slot.set(i, image[i]);
        i += 1;
    }
    assert(slot@ =~= image@ + old(slot)@.skip(image@.len() as int));
    true
}

/// A string that was written is read back, whatever follows it.
pub proof fn string_round_trip(before: Seq<u8>, s: Seq<char>, after: Seq<u8>)
    requires
        string_fits(s),
    ensures
        spec_read_string(before + string_bytes(s) + after, before.len() as int) == Some(
            (s, (before.len() + string_bytes(s).len()) as int),
        ),
        string_bytes(s).len() == 4 + encode_utf8(s).len(),
{
    lemma_auto_spec_u32_to_from_le_bytes();
    encode_utf8_valid_utf8(s);
    encode_utf8_decode_utf8(s);
    let all = before + string_bytes(s) + after;
    let at = before.len() as int;
    let body = encode_utf8(s);
    let n = body.len() as u32;
    assert(all.subrange(at, at + 4) =~= spec_u32_to_le_bytes(n));
    assert(all.subrange(at + 4, at + 4 + n) =~= body);
}

/// A string that was read stands at its place as it would be written.
pub proof fn string_read_is_written(bytes: Seq<u8>, at: int)
    requires
        spec_read_string(bytes, at) is Some,
    ensures
        string_fits(string_at(bytes, at)),
        string_end(bytes, at) == at + string_bytes(string_at(bytes, at)).len(),
        bytes.subrange(at, string_end(bytes, at)) == string_bytes(string_at(bytes, at)),
{
    lemma_auto_spec_u32_to_from_le_bytes();
    let prefix = bytes.subrange(at, at + 4);
    let n = spec_u32_from_le_bytes(prefix);
    let end = at + 4 + n;
    let body = bytes.subrange(at + 4, end);
    decode_utf8_encode_utf8(body);
    assert(spec_u32_to_le_bytes(n) == prefix);
    assert(bytes.subrange(at, end) =~= prefix + body);
}

} // verus!
