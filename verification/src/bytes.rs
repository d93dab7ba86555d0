//! Little-endian integers, addresses and byte sequences.
use vstd::prelude::*;
use vstd::bytes::*;
use vstd::utf8::{valid_utf8, decode_utf8};

verus! {

/// A 32-byte account address.
pub type Pubkey = [u8; 32];

/// Number of bytes in an account address.
pub const PUBKEY_BYTES: usize = 32;

/// The sequence of `n` zero bytes.
pub open spec fn zeros(n: nat) -> Seq<u8> {
    Seq::new(n, |i: int| 0u8)
}

/// The all-zero address, which stands for "no address".
pub open spec fn is_zero_key(k: Seq<u8>) -> bool {
    k == zeros(32)
}

/// Little-endian encoding of a `u16`.
pub open spec fn le16(x: u16) -> Seq<u8> {
    spec_u16_to_le_bytes(x)
}

/// Little-endian encoding of a `u32`.
pub open spec fn le32(x: u32) -> Seq<u8> {
    spec_u32_to_le_bytes(x)
}

/// Little-endian encoding of a `u64`.
pub open spec fn le64(x: u64) -> Seq<u8> {
    spec_u64_to_le_bytes(x)
}

/// Little-endian encoding of an `i64` (two's complement).
pub open spec fn le_i64(x: i64) -> Seq<u8> {
    spec_u64_to_le_bytes(x as u64)
}

/// The `u16` whose little-endian encoding is `s` (two bytes).
pub open spec fn from_le16(s: Seq<u8>) -> u16 {
    spec_u16_from_le_bytes(s)
}

/// The `u32` whose little-endian encoding is `s` (four bytes).
pub open spec fn from_le32(s: Seq<u8>) -> u32 {
    spec_u32_from_le_bytes(s)
}

/// The `u64` whose little-endian encoding is `s` (eight bytes).
pub open spec fn from_le64(s: Seq<u8>) -> u64 {
    spec_u64_from_le_bytes(s)
}

/// The `i64` whose little-endian encoding is `s` (eight bytes).
pub open spec fn from_le_i64(s: Seq<u8>) -> i64 {
    spec_u64_from_le_bytes(s) as i64
}

/// Encoding and decoding little-endian integers undo each other.
pub proof fn lemma_le_roundtrips()
    ensures
        forall|x: u16| #![trigger le16(x)] le16(x).len() == 2 && from_le16(le16(x)) == x,
        forall|x: u32| #![trigger le32(x)] le32(x).len() == 4 && from_le32(le32(x)) == x,
        forall|x: u64| #![trigger le64(x)] le64(x).len() == 8 && from_le64(le64(x)) == x,
        forall|x: i64| #![trigger le_i64(x)] le_i64(x).len() == 8 && from_le_i64(le_i64(x)) == x,
        forall|s: Seq<u8>| #![trigger from_le16(s)] s.len() == 2 ==> le16(from_le16(s)) == s,
        forall|s: Seq<u8>| #![trigger from_le32(s)] s.len() == 4 ==> le32(from_le32(s)) == s,
        forall|s: Seq<u8>| #![trigger from_le64(s)] s.len() == 8 ==> le64(from_le64(s)) == s,
        forall|s: Seq<u8>| #![trigger from_le_i64(s)] s.len() == 8 ==> le_i64(from_le_i64(s)) == s,
{
    lemma_auto_spec_u16_to_from_le_bytes();
    lemma_auto_spec_u32_to_from_le_bytes();
    lemma_auto_spec_u64_to_from_le_bytes();
    assert forall|x: i64| #![trigger le_i64(x)] le_i64(x).len() == 8 && from_le_i64(le_i64(x)) == x by {
        assert(((x as u64) as i64) == x) by (bit_vector);
        assert(spec_u64_to_le_bytes(x as u64).len() == 8);
    }
    assert forall|s: Seq<u8>| #![trigger from_le_i64(s)] s.len() == 8 implies le_i64(from_le_i64(s)) == s by {
        let v = spec_u64_from_le_bytes(s);
        assert(((v as i64) as u64) == v) by (bit_vector);
        assert(spec_u64_to_le_bytes(spec_u64_from_le_bytes(s)) == s);
    }
}

/// Reads the little-endian `u16` at `off`.
pub fn read_u16(data: &[u8], off: usize) -> (r: u16)
    requires
        off + 2 <= data@.len(),
    ensures
        r == from_le16(data@.subrange(off as int, off + 2)),
{
    let n = data.len();
    assert(off + 2 <= n);
    u16_from_le_bytes(vstd::slice::slice_subrange(data, off, off + 2))
}

/// Reads the little-endian `u32` at `off`.
pub fn read_u32(data: &[u8], off: usize) -> (r: u32)
    requires
        off + 4 <= data@.len(),
    ensures
        r == from_le32(data@.subrange(off as int, off + 4)),
{
    let n = data.len();
    assert(off + 4 <= n);
    u32_from_le_bytes(vstd::slice::slice_subrange(data, off, off + 4))
}

/// Reads the little-endian `u64` at `off`.
pub fn read_u64(data: &[u8], off: usize) -> (r: u64)
    requires
        off + 8 <= data@.len(),
    ensures
        r == from_le64(data@.subrange(off as int, off + 8)),
{
    let n = data.len();
    assert(off + 8 <= n);
    u64_from_le_bytes(vstd::slice::slice_subrange(data, off, off + 8))
}

/// Reads the little-endian `i64` at `off`.
pub fn read_i64(data: &[u8], off: usize) -> (r: i64)
    requires
        off + 8 <= data@.len(),
    ensures
        r == from_le_i64(data@.subrange(off as int, off + 8)),
{
    let n = data.len();
    assert(off + 8 <= n);
    let v = u64_from_le_bytes(vstd::slice::slice_subrange(data, off, off + 8));
    #[verifier::truncate]
    (v as i64)
}

/// Copies the 32 bytes at `off` into an address.
pub fn read_pubkey(data: &[u8], off: usize) -> (r: Pubkey)
    requires
        off + 32 <= data@.len(),
    ensures
        r@ == data@.subrange(off as int, off + 32),
{
    let n = data.len();
    let mut a = [0u8; 32];
    let mut i: usize = 0;
    while i < 32
        invariant
            n == data@.len(),
            off + 32 <= data@.len(),
            0 <= i <= 32,
            forall|j: int| 0 <= j < i ==> a@[j] == data@[off + j],
        decreases 32 - i,
    {
        a[i] = data[off + i];
        i = i + 1;
    }
    assert(a@ =~= data@.subrange(off as int, off + 32));
    a
}

/// Copies the 8 bytes at `off` into an array.
pub fn read_bytes8(data: &[u8], off: usize) -> (r: [u8; 8])
    requires
        off + 8 <= data@.len(),
    ensures
        r@ == data@.subrange(off as int, off + 8),
{
    let n = data.len();
    let mut a = [0u8; 8];
    let mut i: usize = 0;
    while i < 8
        invariant
            n == data@.len(),
            off + 8 <= data@.len(),
            0 <= i <= 8,
            forall|j: int| 0 <= j < i ==> a@[j] == data@[off + j],
        decreases 8 - i,
    {
        a[i] = data[off + i];
        i = i + 1;
    }
    assert(a@ =~= data@.subrange(off as int, off + 8));
    a
}

/// Copies `len` bytes starting at `off` into a new vector.
pub fn copy_range(data: &[u8], off: usize, len: usize) -> (r: Vec<u8>)
    requires
        off + len <= data@.len(),
    ensures
        r@ == data@.subrange(off as int, off + len),
{
    let n = data.len();
    let mut v: Vec<u8> = Vec::with_capacity(len);
    let mut i: usize = 0;
    while i < len
        invariant
            n == data@.len(),
            off + len <= data@.len(),
            0 <= i <= len,
            v@ == data@.subrange(off as int, off + i),
        decreases len - i,
    {
        v.push(data[off + i]);
        i = i + 1;
        assert(v@ =~= data@.subrange(off as int, off + i));
    }
    v
}

/// Appends the bytes of `src` to `out`.
pub fn push_all(out: &mut Vec<u8>, src: &[u8])
    ensures
        final(out)@ == old(out)@ + src@,
{
    let mut i: usize = 0;
    while i < src.len()
        invariant
            0 <= i <= src@.len(),
            out@ == old(out)@ + src@.subrange(0, i as int),
        decreases src@.len() - i,
    {
        out.push(src[i]);
        i = i + 1;
        assert(out@ =~= old(out)@ + src@.subrange(0, i as int));
    }
    assert(src@.subrange(0, src@.len() as int) =~= src@);
}

/// Appends the little-endian encoding of a `u16`.
pub fn push_u16(out: &mut Vec<u8>, x: u16)
    ensures
        final(out)@ == old(out)@ + le16(x),
{
    let b = u16_to_le_bytes(x);
    push_all(out, b.as_slice());
}

/// Appends the little-endian encoding of a `u32`.
pub fn push_u32(out: &mut Vec<u8>, x: u32)
    ensures
        final(out)@ == old(out)@ + le32(x),
{
    let b = u32_to_le_bytes(x);
    push_all(out, b.as_slice());
}

/// Appends the little-endian encoding of a `u64`.
pub fn push_u64(out: &mut Vec<u8>, x: u64)
    ensures
        final(out)@ == old(out)@ + le64(x),
{
    let b = u64_to_le_bytes(x);
    push_all(out, b.as_slice());
}

/// Appends the little-endian encoding of an `i64`.
pub fn push_i64(out: &mut Vec<u8>, x: i64)
    ensures
        final(out)@ == old(out)@ + le_i64(x),
{
    #[verifier::truncate]
    let y = x as u64;
    let b = u64_to_le_bytes(y);
    push_all(out, b.as_slice());
}

/// Whether two byte sequences are equal.
pub fn bytes_eq(a: &[u8], b: &[u8]) -> (r: bool)
    ensures
        r == (a@ == b@),
{
    if a.len() != b.len() {
        return false;
    }
    let mut i: usize = 0;
    while i < a.len()
        invariant
            a@.len() == b@.len(),
            0 <= i <= a@.len(),
            forall|j: int| 0 <= j < i ==> a@[j] == b@[j],
        decreases a@.len() - i,
    {
        if a[i] != b[i] {
            return false;
        }
        i = i + 1;
    }
    assert(a@ =~= b@);
    true
}

/// Addresses with the same bytes are the same address.
pub proof fn lemma_key_ext(a: Pubkey, b: Pubkey)
    requires
        a@ == b@,
    ensures
        a == b,
{
    assert forall|i: int| 0 <= i < 32 implies a[i] == b[i] by {
        vstd::array::lemma_array_index(a, i);
        vstd::array::lemma_array_index(b, i);
    }
    assert(a =~= b);
}

/// Whether two addresses are equal.
pub fn key_eq(a: &Pubkey, b: &Pubkey) -> (r: bool)
    ensures
        r == (a@ == b@),
{
    bytes_eq(a.as_slice(), b.as_slice())
}

/// Whether every byte of `a` is zero.
pub fn all_zero(a: &[u8]) -> (r: bool)
    ensures
        r == (a@ == zeros(a@.len())),
{
    let mut i: usize = 0;
    while i < a.len()
        invariant
            0 <= i <= a@.len(),
            forall|j: int| 0 <= j < i ==> a@[j] == 0u8,
        decreases a@.len() - i,
    {
        if a[i] != 0 {
            assert(a@[i as int] != zeros(a@.len())[i as int]);
            return false;
        }
        i = i + 1;
    }
    assert(a@ =~= zeros(a@.len()));
    true
}

/// Whether an address is the all-zero address.
pub fn is_default_key(a: &Pubkey) -> (r: bool)
    ensures
        r == is_zero_key(a@),
{
    all_zero(a.as_slice())
}

/// The byte sequences of a list of 32-byte values.
pub open spec fn key_views(keys: Seq<[u8; 32]>) -> Seq<Seq<u8>> {
    keys.map_values(|k: [u8; 32]| k@)
}

/// Every item of `items` is a 32-byte sequence.
pub open spec fn all_32_bytes(items: Seq<Seq<u8>>) -> bool {
    forall|i: int| 0 <= i < items.len() ==> #[trigger] items[i].len() == 32
}

/// The encoding of a list of 32-byte values: their count as a little-endian `u32`
/// (truncated), then the values one after the other.
pub open spec fn spec_key_list_bytes(keys: Seq<Seq<u8>>) -> Seq<u8> {
    le32(keys.len() as u32) + keys.flatten()
}

/// The list of 32-byte values that `data` starts with: a little-endian `u32` count `n`
/// followed by at least `n` values; later bytes are ignored. `None` when `data` is too
/// short for the count or for the values.
pub open spec fn spec_key_list_from_bytes(data: Seq<u8>) -> Option<Seq<Seq<u8>>> {
    if data.len() < 4 {
        None
    } else {
        let n = from_le32(data.subrange(0, 4)) as nat;
        if data.len() < 4 + 32 * n {
            None
        } else {
            Some(Seq::new(n, |i: int| data.subrange(4 + 32 * i, 4 + 32 * i + 32)))
        }
    }
}

/// Parses a counted list of 32-byte values.
pub fn parse_key_list(data: &[u8]) -> (r: Option<Vec<[u8; 32]>>)
    ensures
        match r {
            Some(v) => spec_key_list_from_bytes(data@) == Some(key_views(v@)),
            None => spec_key_list_from_bytes(data@) is None,
        },
{
    let len = data.len();
    if len < 4 {
        return None;
    }
    let count = read_u32(data, 0);
    let n = count as usize;
    let avail = (len - 4) / 32;
    assert(len < 4 + 32 * n <==> avail < n) by (nonlinear_arith)
        requires
            avail == (len - 4) / 32,
            len >= 4,
    ;
    if avail < n {
        return None;
    }
    let ghost expected = Seq::new(n as nat, |i: int| data@.subrange(4 + 32 * i, 4 + 32 * i + 32));
    let mut keys: Vec<[u8; 32]> = Vec::with_capacity(n);
    let mut i: usize = 0;
    while i < n
        invariant
            len == data@.len(),
            n <= avail,
            avail == (len - 4) / 32,
            len >= 4,
            0 <= i <= n,
            expected == Seq::new(n as nat, |k: int| data@.subrange(4 + 32 * k, 4 + 32 * k + 32)),
            key_views(keys@) == expected.subrange(0, i as int),
        decreases n - i,
    {
        assert(4 + 32 * i + 32 <= len) by (nonlinear_arith)
            requires
                i < n,
                n <= avail,
                avail == (len - 4) / 32,
                len >= 4,
        ;
        let off = 4 + 32 * i;
        let key = read_pubkey(data, off);
        let ghost before = keys@;
        keys.push(key);
        assert(expected[i as int] == key@);
        assert(key_views(keys@) =~= key_views(before).push(key@));
        i = i + 1;
        assert(key_views(keys@) =~= expected.subrange(0, i as int));
    }
    assert(expected.subrange(0, n as int) =~= expected);
    Some(keys)
}

/// Appends the encoding of a list of 32-byte values: their count, then the values.
pub fn push_key_list(out: &mut Vec<u8>, keys: &Vec<[u8; 32]>)
    ensures
        final(out)@ == old(out)@ + spec_key_list_bytes(key_views(keys@)),
{
    #[verifier::truncate]
    let count = keys.len() as u32;
    push_u32(out, count);
    let ghost start = out@;
    let mut i: usize = 0;
    while i < keys.len()
        invariant
            0 <= i <= keys@.len(),
            out@ == start + key_views(keys@).subrange(0, i as int).flatten(),
        decreases keys@.len() - i,
    {
        let key: &[u8; 32] = &keys[i];
        push_all(out, key.as_slice());
        proof {
            let views = key_views(keys@);
            views.subrange(0, i as int).lemma_flatten_push(views[i as int]);
            assert(views.subrange(0, i as int).push(views[i as int]) =~= views.subrange(0, i + 1));
        }
        i = i + 1;
    }
    assert(key_views(keys@).subrange(0, keys@.len() as int) =~= key_views(keys@));
}

/// Flattening 32-byte values lays them out one after the other.
pub proof fn lemma_flatten_keys(keys: Seq<Seq<u8>>)
    requires
        all_32_bytes(keys),
    ensures
        keys.flatten().len() == 32 * keys.len(),
        forall|i: int| 0 <= i < keys.len() ==> #[trigger] keys.flatten().subrange(32 * i, 32 * i + 32) == keys[i],
    decreases keys.len(),
{
    if keys.len() > 0 {
        let init = keys.drop_last();
        lemma_flatten_keys(init);
        assert(init.push(keys.last()) =~= keys);
        init.lemma_flatten_push(keys.last());
        assert forall|i: int| 0 <= i < keys.len() implies #[trigger] keys.flatten().subrange(32 * i, 32 * i + 32) == keys[i] by {
            if i < keys.len() - 1 {
                assert(init[i] == keys[i]);
                assert(keys.flatten().subrange(32 * i, 32 * i + 32) =~= init.flatten().subrange(32 * i, 32 * i + 32));
            } else {
                assert(keys.flatten().subrange(32 * i, 32 * i + 32) =~= keys.last());
            }
        }
    }
}

/// Parsing the encoding of fewer than 2^32 values of 32 bytes, whatever follows it,
/// gives the values back.
pub proof fn lemma_key_list_roundtrip(keys: Seq<Seq<u8>>, rest: Seq<u8>)
    requires
        all_32_bytes(keys),
        keys.len() <= u32::MAX,
    ensures
        spec_key_list_from_bytes(spec_key_list_bytes(keys) + rest) == Some(keys),
{
    lemma_le_roundtrips();
    lemma_flatten_keys(keys);
    let data = spec_key_list_bytes(keys) + rest;
    let n = keys.len();
    assert(data.subrange(0, 4) =~= le32(n as u32));
    let parsed = Seq::new(n, |i: int| data.subrange(4 + 32 * i, 4 + 32 * i + 32));
    assert forall|i: int| 0 <= i < n implies parsed[i] == keys[i] by {
        assert(data.subrange(4 + 32 * i, 4 + 32 * i + 32) =~= keys.flatten().subrange(32 * i, 32 * i + 32));
    }
    assert(parsed =~= keys);
}

/// An optional text taken as its characters.
pub open spec fn text_option_view(r: Option<String>) -> Option<Seq<char>> {
    match r {
        Some(s) => Some(s@),
        None => None,
    }
}

/// The text that `bytes` encode when they are valid UTF-8, by `core::str::from_utf8`.
/// Trusted: std documents that `from_utf8` accepts exactly the valid UTF-8 byte
/// sequences; the text is then their decoding.
#[verifier::external_body]
pub fn decode_utf8_string(bytes: &[u8]) -> (r: Option<String>)
    ensures
        text_option_view(r) == (if valid_utf8(bytes@) { Some(decode_utf8(bytes@)) } else { None }),
{
    match core::str::from_utf8(bytes) {
        Ok(s) => Some(s.to_string()),
        Err(_) => None,
    }
}

} // verus!
