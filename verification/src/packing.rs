//! The wire encoding of the Soulseek protocol: little-endian integers,
//! length-prefixed strings and length-prefixed lists.
//!
//! Each encodable type states its encoding as a spec function over its
//! model (its `DeepView`), and each decodable type states, for every input,
//! what it decodes and which bytes it leaves behind.
use vstd::prelude::*;
use vstd::utf8::*;

verus! {

// ---------------------------------------------------------------------------
// Little-endian integers
// ---------------------------------------------------------------------------

/// The two little-endian bytes of `x`.
pub open spec fn le_u16(x: u16) -> Seq<u8> {
    seq![(x % 256) as u8, (x / 256) as u8]
}

/// The four little-endian bytes of `x`.
pub open spec fn le_u32(x: u32) -> Seq<u8> {
    seq![
        (x % 256) as u8,
        ((x / 256) % 256) as u8,
        ((x / 65536) % 256) as u8,
        (x / 16777216) as u8,
    ]
}

/// The eight little-endian bytes of `x`.
pub open spec fn le_u64(x: u64) -> Seq<u8> {
    le_u32((x % 4294967296) as u32) + le_u32((x / 4294967296) as u32)
}

/// The value of the first two bytes of `s`, read little-endian.
pub open spec fn u16_of_le(s: Seq<u8>) -> u16 {
    (s[0] + 256 * s[1]) as u16
}

/// The value of the first four bytes of `s`, read little-endian.
pub open spec fn u32_of_le(s: Seq<u8>) -> u32 {
    (s[0] + 256 * s[1] + 65536 * s[2] + 16777216 * s[3]) as u32
}

/// The value of the first eight bytes of `s`, read little-endian.
pub open spec fn u64_of_le(s: Seq<u8>) -> u64 {
    (u32_of_le(s) + 4294967296 * u32_of_le(s.skip(4))) as u64
}

pub proof fn lemma_le_u16(x: u16)
    ensures
        le_u16(x).len() == 2,
        u16_of_le(le_u16(x)) == x,
{
}

pub proof fn lemma_le_u32(x: u32)
    ensures
        le_u32(x).len() == 4,
        u32_of_le(le_u32(x)) == x,
{
}

pub proof fn lemma_le_u64(x: u64)
    ensures
        le_u64(x).len() == 8,
        u64_of_le(le_u64(x)) == x,
{
    let lo = (x % 4294967296) as u32;
    let hi = (x / 4294967296) as u32;
    lemma_le_u32(lo);
    lemma_le_u32(hi);
    assert(le_u64(x).skip(4) =~= le_u32(hi));
    assert(le_u64(x).take(4) =~= le_u32(lo));
    assert(u32_of_le(le_u64(x)) == u32_of_le(le_u32(lo)));
}

/// Appends the bytes of `src` to `dst`.
pub fn append_bytes(dst: &mut Vec<u8>, src: &[u8])
    ensures
        final(dst)@ == old(dst)@ + src@,
{
    let n = src.len();
    let mut i: usize = 0;
    while i < n
        invariant
            n == src@.len(),
            i <= n,
            dst@ == old(dst)@ + src@.take(i as int),
        decreases n - i,
    {
        dst.push(src[i]);
        i = i + 1;
        assert(src@.take(i as int) =~= src@.take((i - 1) as int).push(src@[i - 1]));
    }
    assert(src@.take(n as int) =~= src@);
}

/// Removes the first `n` bytes of `bytes` and returns them.
pub fn take_front(bytes: &mut Vec<u8>, n: usize) -> (head: Vec<u8>)
    requires
        n <= old(bytes)@.len(),
    ensures
        head@ == old(bytes)@.take(n as int),
        final(bytes)@ == old(bytes)@.skip(n as int),
{
    let mut tail = bytes.split_off(n);
    core::mem::swap(bytes, &mut tail);
    tail
}

/// Removes every byte of `bytes`.
pub fn drain_all(bytes: &mut Vec<u8>)
    ensures
        final(bytes)@ == Seq::<u8>::empty(),
{
    bytes.clear();
}

// ---------------------------------------------------------------------------
// The two traits
// ---------------------------------------------------------------------------

/// A value that has a wire encoding.
pub trait PackToBytes: Sized + DeepView {
    /// The encoding of a value, given by its model.
    spec fn spec_pack(v: Self::V) -> Seq<u8>;

    fn pack_to_bytes(&self) -> (r: Vec<u8>)
        ensures
            r@ == Self::spec_pack(self.deep_view()),
    ;
}

/// A value that can be decoded from the front of a byte buffer.
///
/// `spec_unpack(b)` is the decoded value (or `None`) together with the
/// bytes that are left in the buffer afterwards, on success and on failure.
pub trait UnpackFromBytes: Sized + DeepView {
    spec fn spec_unpack(bytes: Seq<u8>) -> (Option<Self::V>, Seq<u8>);

    fn unpack_from_bytes(bytes: &mut Vec<u8>) -> (r: Option<Self>)
        ensures
            (r.deep_view(), final(bytes)@) == Self::spec_unpack(old(bytes)@),
    ;
}

/// The encoding of `m` decodes back to `m`, whatever follows it.
pub open spec fn roundtrips<T: PackToBytes + UnpackFromBytes>(m: T::V) -> bool {
    forall|rest: Seq<u8>|
        #[trigger] T::spec_unpack(T::spec_pack(m) + rest) == (Some(m), rest)
}

/// Continues a decoding: when `r` succeeded, `f` decodes from what it left.
pub open spec fn and_then<A, B>(
    r: (Option<A>, Seq<u8>),
    f: spec_fn(A, Seq<u8>) -> (Option<B>, Seq<u8>),
) -> (Option<B>, Seq<u8>) {
    match r.0 {
        Some(a) => f(a, r.1),
        None => (None, r.1),
    }
}

// ---------------------------------------------------------------------------
// Markers for messages that are only sent or only received
// ---------------------------------------------------------------------------

/// Used for specifying a `Message` that doesn't get sent
pub struct IsntSent;

impl DeepView for IsntSent {
    type V = ();

    open spec fn deep_view(&self) -> () {
        ()
    }
}

impl PackToBytes for IsntSent {
    open spec fn spec_pack(v: ()) -> Seq<u8> {
        Seq::empty()
    }

    fn pack_to_bytes(&self) -> (r: Vec<u8>) {
        Vec::new()
    }
}

/// Used for specifying a `Message` that doesn't get received
pub struct IsntReceived;

impl DeepView for IsntReceived {
    type V = ();

    open spec fn deep_view(&self) -> () {
        ()
    }
}

impl UnpackFromBytes for IsntReceived {
    open spec fn spec_unpack(bytes: Seq<u8>) -> (Option<()>, Seq<u8>) {
        (Some(()), bytes)
    }

    fn unpack_from_bytes(bytes: &mut Vec<u8>) -> (r: Option<Self>) {
        Some(IsntReceived)
    }
}

// ---------------------------------------------------------------------------
// Booleans and integers
// ---------------------------------------------------------------------------

impl PackToBytes for bool {
    open spec fn spec_pack(v: bool) -> Seq<u8> {
        seq![if v { 1u8 } else { 0u8 }]
    }

    fn pack_to_bytes(&self) -> (r: Vec<u8>) {
        let mut r = Vec::new();
        r.push(if *self { 1u8 } else { 0u8 });
        assert(r@ =~= seq![if *self { 1u8 } else { 0u8 }]);
        r
    }
}

impl UnpackFromBytes for bool {
    /// Any non-zero byte is `true`.
    open spec fn spec_unpack(bytes: Seq<u8>) -> (Option<bool>, Seq<u8>) {
        if bytes.len() == 0 {
            (None, bytes)
        } else {
            (Some(bytes[0] != 0), bytes.skip(1))
        }
    }

    fn unpack_from_bytes(bytes: &mut Vec<u8>) -> (r: Option<Self>) {
        if bytes.len() == 0 {
            None
        } else {
            let b = bytes[0];
            let _ = take_front(bytes, 1);
            Some(b != 0)
        }
    }
}

impl PackToBytes for u8 {
    open spec fn spec_pack(v: u8) -> Seq<u8> {
        seq![v]
    }

    fn pack_to_bytes(&self) -> (r: Vec<u8>) {
        let mut r = Vec::new();
        r.push(*self);
        assert(r@ =~= seq![*self]);
        r
    }
}

impl UnpackFromBytes for u8 {
    open spec fn spec_unpack(bytes: Seq<u8>) -> (Option<u8>, Seq<u8>) {
        if bytes.len() == 0 {
            (None, bytes)
        } else {
            (Some(bytes[0]), bytes.skip(1))
        }
    }

    fn unpack_from_bytes(bytes: &mut Vec<u8>) -> (r: Option<Self>) {
        if bytes.len() == 0 {
            None
        } else {
            let b = bytes[0];
            let _ = take_front(bytes, 1);
            Some(b)
        }
    }
}

/// The little-endian bytes of a `u16`, as a vector.
pub fn u16_to_le(x: u16) -> (r: Vec<u8>)
    ensures
        r@ == le_u16(x),
{
    let mut r = Vec::new();
    r.push((x % 256) as u8);
    r.push((x / 256) as u8);
    assert(r@ =~= le_u16(x));
    r
}

/// The little-endian bytes of a `u32`, as a vector.
pub fn u32_to_le(x: u32) -> (r: Vec<u8>)
    ensures
        r@ == le_u32(x),
{
    let mut r = Vec::new();
    r.push((x % 256) as u8);
    r.push(((x / 256) % 256) as u8);
    r.push(((x / 65536) % 256) as u8);
    r.push((x / 16777216) as u8);
    assert(r@ =~= le_u32(x));
    r
}

/// The little-endian bytes of a `u64`, as a vector.
pub fn u64_to_le(x: u64) -> (r: Vec<u8>)
    ensures
        r@ == le_u64(x),
{
    let mut r = u32_to_le((x % 4294967296) as u32);
    let mut hi = u32_to_le((x / 4294967296) as u32);
    r.append(&mut hi);
    r
}

/// Reads a little-endian `u32` from the first four bytes of `b`.
pub fn u32_from_le(b: &[u8]) -> (r: u32)
    requires
        b@.len() >= 4,
    ensures
        r == u32_of_le(b@),
{
    b[0] as u32 + (b[1] as u32) * 256 + (b[2] as u32) * 65536 + (b[3] as u32) * 16777216
}

impl PackToBytes for u16 {
    open spec fn spec_pack(v: u16) -> Seq<u8> {
        le_u16(v)
    }

    fn pack_to_bytes(&self) -> (r: Vec<u8>) {
        u16_to_le(*self)
    }
}

impl UnpackFromBytes for u16 {
    /// Too few bytes empty the buffer.
    open spec fn spec_unpack(bytes: Seq<u8>) -> (Option<u16>, Seq<u8>) {
        if bytes.len() < 2 {
            (None, Seq::empty())
        } else {
            (Some(u16_of_le(bytes)), bytes.skip(2))
        }
    }

    fn unpack_from_bytes(bytes: &mut Vec<u8>) -> (r: Option<Self>) {
        if bytes.len() < 2 {
            drain_all(bytes);
            None
        } else {
            let v = bytes[0] as u16 + (bytes[1] as u16) * 256;
            let _ = take_front(bytes, 2);
            Some(v)
        }
    }
}

impl PackToBytes for u32 {
    open spec fn spec_pack(v: u32) -> Seq<u8> {
        le_u32(v)
    }

    fn pack_to_bytes(&self) -> (r: Vec<u8>) {
        u32_to_le(*self)
    }
}

impl UnpackFromBytes for u32 {
    /// Too few bytes empty the buffer.
    open spec fn spec_unpack(bytes: Seq<u8>) -> (Option<u32>, Seq<u8>) {
        if bytes.len() < 4 {
            (None, Seq::empty())
        } else {
            (Some(u32_of_le(bytes)), bytes.skip(4))
        }
    }

    fn unpack_from_bytes(bytes: &mut Vec<u8>) -> (r: Option<Self>) {
        if bytes.len() < 4 {
            drain_all(bytes);
            None
        } else {
            let v = u32_from_le(bytes.as_slice());
            let _ = take_front(bytes, 4);
            Some(v)
        }
    }
}

impl PackToBytes for i32 {
    /// Two's complement, little-endian.
    open spec fn spec_pack(v: i32) -> Seq<u8> {
        le_u32(v as u32)
    }

    fn pack_to_bytes(&self) -> (r: Vec<u8>) {
        u32_to_le(*self as u32)
    }
}

impl UnpackFromBytes for i32 {
    /// Too few bytes empty the buffer.
    open spec fn spec_unpack(bytes: Seq<u8>) -> (Option<i32>, Seq<u8>) {
        if bytes.len() < 4 {
            (None, Seq::empty())
        } else {
            (Some(u32_of_le(bytes) as i32), bytes.skip(4))
        }
    }

    fn unpack_from_bytes(bytes: &mut Vec<u8>) -> (r: Option<Self>) {
        if bytes.len() < 4 {
            drain_all(bytes);
            None
        } else {
            let v = u32_from_le(bytes.as_slice());
            let _ = take_front(bytes, 4);
            Some(v as i32)
        }
    }
}

impl PackToBytes for u64 {
    open spec fn spec_pack(v: u64) -> Seq<u8> {
        le_u64(v)
    }

    fn pack_to_bytes(&self) -> (r: Vec<u8>) {
        u64_to_le(*self)
    }
}

impl UnpackFromBytes for u64 {
    /// Too few bytes empty the buffer.
    open spec fn spec_unpack(bytes: Seq<u8>) -> (Option<u64>, Seq<u8>) {
        if bytes.len() < 8 {
            (None, Seq::empty())
        } else {
            (Some(u64_of_le(bytes)), bytes.skip(8))
        }
    }

    fn unpack_from_bytes(bytes: &mut Vec<u8>) -> (r: Option<Self>) {
        if bytes.len() < 8 {
            drain_all(bytes);
            None
        } else {
            let lo = u32_from_le(bytes.as_slice());
            let _ = take_front(bytes, 4);
            let hi = u32_from_le(bytes.as_slice());
            let _ = take_front(bytes, 4);
            Some(lo as u64 + (hi as u64) * 4294967296)
        }
    }
}

impl PackToBytes for i64 {
    /// Two's complement, little-endian.
    open spec fn spec_pack(v: i64) -> Seq<u8> {
        le_u64(v as u64)
    }

    fn pack_to_bytes(&self) -> (r: Vec<u8>) {
        u64_to_le(*self as u64)
    }
}

// ---------------------------------------------------------------------------
// Strings
// ---------------------------------------------------------------------------

/// What `String::from_utf8_lossy` makes of bytes that are not valid UTF-8.
pub uninterp spec fn utf8_lossy(bytes: Seq<u8>) -> Seq<char>;

/// The characters that lossy UTF-8 decoding gives: the decoded text when the
/// bytes are valid UTF-8.
pub open spec fn lossy_decode(bytes: Seq<u8>) -> Seq<char> {
    if valid_utf8(bytes) {
        decode_utf8(bytes)
    } else {
        utf8_lossy(bytes)
    }
}

/// Calls `String::from_utf8_lossy`. Its documentation promises that valid
/// UTF-8 decodes to the text it encodes; what it makes of invalid bytes
/// (U+FFFD replacements) is named by `utf8_lossy` and not stated.
#[verifier::external_body]
fn string_from_utf8_lossy(bytes: &[u8]) -> (r: String)
    ensures
        r@ == utf8_lossy(bytes@),
        valid_utf8(bytes@) ==> r@ == decode_utf8(bytes@),
{
    String::from_utf8_lossy(bytes).into_owned()
}

/// The UTF-8 bytes of a text.
pub open spec fn utf8_bytes(s: Seq<char>) -> Seq<u8> {
    encode_utf8(s)
}

impl PackToBytes for String {
    /// The byte length (as a `u32`, truncated), then the UTF-8 bytes.
    open spec fn spec_pack(v: Seq<char>) -> Seq<u8> {
        le_u32(utf8_bytes(v).len() as u32) + utf8_bytes(v)
    }

    fn pack_to_bytes(&self) -> (r: Vec<u8>) {
        let s = self.as_str();
        let b = s.as_bytes();
        let n = b.len();
        let mut r = u32_to_le(n as u32);
        append_bytes(&mut r, b);
        r
    }
}

impl UnpackFromBytes for String {
    /// A `u32` byte length, then that many bytes, decoded lossily. When fewer
    /// bytes remain than the length says, the buffer is emptied.
    open spec fn spec_unpack(bytes: Seq<u8>) -> (Option<Seq<char>>, Seq<u8>) {
        match u32::spec_unpack(bytes) {
            (Some(n), rest) => if rest.len() < n {
                (None, Seq::empty())
            } else {
                (Some(lossy_decode(rest.take(n as int))), rest.skip(n as int))
            },
            (None, rest) => (None, rest),
        }
    }

    fn unpack_from_bytes(bytes: &mut Vec<u8>) -> (r: Option<Self>) {
        let length = match u32::unpack_from_bytes(bytes) {
            Some(n) => n,
            None => return None,
        };
        if bytes.len() < length as usize {
            drain_all(bytes);
            None
        } else {
            let head = take_front(bytes, length as usize);
            Some(string_from_utf8_lossy(head.as_slice()))
        }
    }
}

/// A string whose UTF-8 encoding fits the `u32` length prefix comes back
/// unchanged from its encoding, whatever follows it.
pub proof fn lemma_string_roundtrip(s: Seq<char>)
    requires
        utf8_bytes(s).len() <= u32::MAX,
    ensures
        roundtrips::<String>(s),
{
    broadcast use encode_utf8_valid_utf8, encode_utf8_decode_utf8;

    let e = utf8_bytes(s);
    lemma_le_u32(e.len() as u32);
    assert forall|rest: Seq<u8>|
        #[trigger] String::spec_unpack(String::spec_pack(s) + rest) == (Some(s), rest) by {
        let b = String::spec_pack(s) + rest;
        assert(b.take(4) =~= le_u32(e.len() as u32));
        assert(u32_of_le(b) == u32_of_le(b.take(4)));
        let after = b.skip(4);
        assert(after =~= e + rest);
        assert(after.take(e.len() as int) =~= e);
        assert(after.skip(e.len() as int) =~= rest);
    }
}

// ---------------------------------------------------------------------------
// Lists
// ---------------------------------------------------------------------------

/// The concatenated encodings of the items of `s`.
pub open spec fn pack_seq<T: PackToBytes>(s: Seq<T::V>) -> Seq<u8>
    decreases s.len(),
{
    if s.len() == 0 {
        Seq::empty()
    } else {
        T::spec_pack(s[0]) + pack_seq::<T>(s.drop_first())
    }
}

/// Decodes `n` items one after the other; the first failure stops it.
pub open spec fn unpack_seq<T: UnpackFromBytes>(n: nat, bytes: Seq<u8>) -> (
    Option<Seq<T::V>>,
    Seq<u8>,
)
    decreases n,
{
    if n == 0 {
        (Some(Seq::empty()), bytes)
    } else {
        match T::spec_unpack(bytes) {
            (Some(x), rest) => match unpack_seq::<T>((n - 1) as nat, rest) {
                (Some(xs), rest2) => (Some(seq![x] + xs), rest2),
                (None, rest2) => (None, rest2),
            },
            (None, rest) => (None, rest),
        }
    }
}

/// Puts `prefix` in front of the items of a successful decoding.
pub open spec fn prepend_items<A>(prefix: Seq<A>, r: (Option<Seq<A>>, Seq<u8>)) -> (
    Option<Seq<A>>,
    Seq<u8>,
) {
    match r.0 {
        Some(xs) => (Some(prefix + xs), r.1),
        None => (None, r.1),
    }
}

/// The list length as written on the wire: the length, or `u32::MAX` when
/// it does not fit.
pub open spec fn wire_len(n: nat) -> u32 {
    if n <= u32::MAX {
        n as u32
    } else {
        u32::MAX
    }
}

impl<T: PackToBytes> PackToBytes for Vec<T> {
    /// The item count as a `u32` (saturated), then every item.
    open spec fn spec_pack(v: Seq<T::V>) -> Seq<u8> {
        le_u32(wire_len(v.len())) + pack_seq::<T>(v)
    }

    fn pack_to_bytes(&self) -> (r: Vec<u8>) {
        let n = self.len();
        let length: u32 = if n <= 4294967295 {
            n as u32
        } else {
            4294967295u32
        };
        let mut bytes = u32_to_le(length);
        let ghost dv = self.deep_view();
        let mut i: usize = 0;
        assert(dv.skip(0) =~= dv);
        while i < n
            invariant
                n == self@.len(),
                dv == self.deep_view(),
                dv.len() == n,
                i <= n,
                length == wire_len(n as nat),
                bytes@ + pack_seq::<T>(dv.skip(i as int)) == le_u32(length) + pack_seq::<T>(dv),
            decreases n - i,
        {
            let mut item = self[i].pack_to_bytes();
            proof {
                let tail = dv.skip(i as int);
                assert(tail[0] == dv[i as int]);
                assert(tail.drop_first() =~= dv.skip(i + 1));
                assert(bytes@ + item@ + pack_seq::<T>(dv.skip(i + 1)) =~= bytes@ + pack_seq::<T>(
                    tail,
                ));
            }
            bytes.append(&mut item);
            i = i + 1;
        }
        assert(dv.skip(n as int) =~= Seq::<T::V>::empty());
        assert(bytes@ + pack_seq::<T>(dv.skip(n as int)) =~= bytes@);
        bytes
    }
}

impl<T: UnpackFromBytes> UnpackFromBytes for Vec<T> {
    /// A `u32` item count, then that many items.
    open spec fn spec_unpack(bytes: Seq<u8>) -> (Option<Seq<T::V>>, Seq<u8>) {
        match u32::spec_unpack(bytes) {
            (Some(n), rest) => unpack_seq::<T>(n as nat, rest),
            (None, rest) => (None, rest),
        }
    }

    fn unpack_from_bytes(bytes: &mut Vec<u8>) -> (r: Option<Self>) {
        let length = match u32::unpack_from_bytes(bytes) {
            Some(n) => n,
            None => return None,
        };
        let ghost start = bytes@;
        let mut vec: Vec<T> = Vec::new();
        let mut i: u32 = 0;
        assert(prepend_items(vec.deep_view(), unpack_seq::<T>(length as nat, start)) =~= unpack_seq::<
            T,
        >(length as nat, start)) by {
            assert(vec.deep_view() =~= Seq::<T::V>::empty());
            match unpack_seq::<T>(length as nat, start).0 {
                Some(xs) => {
                    assert(Seq::<T::V>::empty() + xs =~= xs);
                },
                None => {},
            }
        }
        while i < length
            invariant
                i <= length,
                u32::spec_unpack(old(bytes)@) == (Some(length), start),
                prepend_items(vec.deep_view(), unpack_seq::<T>((length - i) as nat, bytes@))
                    == unpack_seq::<T>(length as nat, start),
            decreases length - i,
        {
            let ghost before = bytes@;
            let ghost prefix = vec.deep_view();
            let x = match T::unpack_from_bytes(bytes) {
                Some(x) => x,
                None => {
                    return None;
                },
            };
            proof {
                assert(seq![x.deep_view()] + Seq::<T::V>::empty() =~= seq![x.deep_view()]);
            }
            vec.push(x);
            i = i + 1;
            proof {
                assert(vec.deep_view() =~= prefix.push(x.deep_view()));
                match unpack_seq::<T>((length - i) as nat, bytes@).0 {
                    Some(xs) => {
                        assert(prefix.push(x.deep_view()) + xs =~= prefix + (seq![x.deep_view()]
                            + xs));
                    },
                    None => {},
                }
            }
        }
        proof {
            assert(vec.deep_view() + Seq::<T::V>::empty() =~= vec.deep_view());
        }
        Some(vec)
    }
}

/// Every item of `s` comes back from its own encoding.
pub open spec fn all_roundtrip<T: PackToBytes + UnpackFromBytes>(s: Seq<T::V>) -> bool {
    forall|i: int| 0 <= i < s.len() ==> roundtrips::<T>(#[trigger] s[i])
}

proof fn lemma_seq_roundtrip<T: PackToBytes + UnpackFromBytes>(s: Seq<T::V>, rest: Seq<u8>)
    requires
        all_roundtrip::<T>(s),
    ensures
        unpack_seq::<T>(s.len(), pack_seq::<T>(s) + rest) == (Some(s), rest),
    decreases s.len(),
{
    if s.len() > 0 {
        let tail = s.drop_first();
        assert(all_roundtrip::<T>(tail)) by {
            assert forall|i: int| 0 <= i < tail.len() implies roundtrips::<T>(#[trigger] tail[i]) by {
                assert(tail[i] == s[i + 1]);
            }
        }
        lemma_seq_roundtrip::<T>(tail, rest);
        assert(roundtrips::<T>(s[0]));
        let after = pack_seq::<T>(tail) + rest;
        assert(pack_seq::<T>(s) + rest =~= T::spec_pack(s[0]) + after);
        assert(T::spec_unpack(T::spec_pack(s[0]) + after) == (Some(s[0]), after));
        assert(seq![s[0]] + tail =~= s);
    }
}

/// A list with at most `u32::MAX` items, each of which comes back from its
/// encoding, comes back from its encoding.
pub proof fn lemma_vec_roundtrip<T: PackToBytes + UnpackFromBytes>(s: Seq<T::V>)
    requires
        s.len() <= u32::MAX,
        all_roundtrip::<T>(s),
    ensures
        roundtrips::<Vec<T>>(s),
{
    lemma_le_u32(s.len() as u32);
    assert forall|rest: Seq<u8>|
        #[trigger] Vec::<T>::spec_unpack(Vec::<T>::spec_pack(s) + rest) == (Some(s), rest) by {
        let b = Vec::<T>::spec_pack(s) + rest;
        assert(b.take(4) =~= le_u32(s.len() as u32));
        assert(u32_of_le(b) == u32_of_le(b.take(4)));
        assert(b.skip(4) =~= pack_seq::<T>(s) + rest);
        lemma_seq_roundtrip::<T>(s, rest);
    }
}

// ---------------------------------------------------------------------------
// Optional values
// ---------------------------------------------------------------------------

impl<T: PackToBytes> PackToBytes for Option<T> {
    /// A present value is encoded as itself; an absent one as nothing.
    open spec fn spec_pack(v: Option<T::V>) -> Seq<u8> {
        match v {
            Some(x) => T::spec_pack(x),
            None => Seq::empty(),
        }
    }

    fn pack_to_bytes(&self) -> (r: Vec<u8>) {
        match self {
            Some(thing) => thing.pack_to_bytes(),
            None => Vec::new(),
        }
    }
}

impl<T: UnpackFromBytes> UnpackFromBytes for Option<T> {
    /// Fails on an empty buffer; otherwise succeeds with whatever decoding
    /// the inner value gives, present or not.
    open spec fn spec_unpack(bytes: Seq<u8>) -> (Option<Option<T::V>>, Seq<u8>) {
        if bytes.len() == 0 {
            (None, bytes)
        } else {
            (Some(T::spec_unpack(bytes).0), T::spec_unpack(bytes).1)
        }
    }

    fn unpack_from_bytes(bytes: &mut Vec<u8>) -> (r: Option<Self>) {
        if bytes.len() == 0 {
            None
        } else {
            Some(T::unpack_from_bytes(bytes))
        }
    }
}

// ---------------------------------------------------------------------------
// IPv4 addresses
// ---------------------------------------------------------------------------

/// An IPv4 address, held as its 32-bit number (the first octet is the most
/// significant byte).
#[derive(Clone, Copy, Debug, PartialEq, Eq)]
pub struct Ipv4Addr(pub u32);

impl DeepView for Ipv4Addr {
    type V = Ipv4Addr;

    open spec fn deep_view(&self) -> Ipv4Addr {
        *self
    }
}

impl Ipv4Addr {
    /// The four octets, most significant first.
    pub fn octets(&self) -> (r: [u8; 4])
        ensures
            r@ == seq![
                (self.0 / 16777216) as u8,
                ((self.0 / 65536) % 256) as u8,
                ((self.0 / 256) % 256) as u8,
                (self.0 % 256) as u8,
            ],
    {
        let x = self.0;
        let r = [(x / 16777216) as u8, ((x / 65536) % 256) as u8, ((x / 256) % 256) as u8, (x % 256) as u8];
        assert(r@ =~= seq![
            (self.0 / 16777216) as u8,
            ((self.0 / 65536) % 256) as u8,
            ((self.0 / 256) % 256) as u8,
            (self.0 % 256) as u8,
        ]);
        r
    }
}

impl PackToBytes for Ipv4Addr {
    open spec fn spec_pack(v: Ipv4Addr) -> Seq<u8> {
        le_u32(v.0)
    }

    fn pack_to_bytes(&self) -> (r: Vec<u8>) {
        u32_to_le(self.0)
    }
}

impl UnpackFromBytes for Ipv4Addr {
    /// The address is the little-endian `u32`.
    open spec fn spec_unpack(bytes: Seq<u8>) -> (Option<Ipv4Addr>, Seq<u8>) {
        match u32::spec_unpack(bytes) {
            (Some(n), rest) => (Some(Ipv4Addr(n)), rest),
            (None, rest) => (None, rest),
        }
    }

    fn unpack_from_bytes(bytes: &mut Vec<u8>) -> (r: Option<Self>) {
        let combined_octets = match u32::unpack_from_bytes(bytes) {
            Some(n) => n,
            None => return None,
        };
        Some(Ipv4Addr(combined_octets))
    }
}

// ---------------------------------------------------------------------------
// Round trips of the basic encodings
// ---------------------------------------------------------------------------

pub proof fn lemma_bool_roundtrip(v: bool)
    ensures
        roundtrips::<bool>(v),
{
    assert forall|rest: Seq<u8>|
        #[trigger] bool::spec_unpack(bool::spec_pack(v) + rest) == (Some(v), rest) by {
        assert((bool::spec_pack(v) + rest).skip(1) =~= rest);
    }
}

pub proof fn lemma_u8_roundtrip(v: u8)
    ensures
        roundtrips::<u8>(v),
{
    assert forall|rest: Seq<u8>|
        #[trigger] u8::spec_unpack(u8::spec_pack(v) + rest) == (Some(v), rest) by {
        assert((u8::spec_pack(v) + rest).skip(1) =~= rest);
    }
}

pub proof fn lemma_u16_roundtrip(v: u16)
    ensures
        roundtrips::<u16>(v),
{
    lemma_le_u16(v);
    assert forall|rest: Seq<u8>|
        #[trigger] u16::spec_unpack(u16::spec_pack(v) + rest) == (Some(v), rest) by {
        let b = u16::spec_pack(v) + rest;
        assert(b.skip(2) =~= rest);
        assert(u16_of_le(b) == u16_of_le(le_u16(v)));
    }
}

pub proof fn lemma_u32_roundtrip(v: u32)
    ensures
        roundtrips::<u32>(v),
{
    lemma_le_u32(v);
    assert forall|rest: Seq<u8>|
        #[trigger] u32::spec_unpack(u32::spec_pack(v) + rest) == (Some(v), rest) by {
        let b = u32::spec_pack(v) + rest;
        assert(b.skip(4) =~= rest);
        assert(u32_of_le(b) == u32_of_le(le_u32(v)));
    }
}

pub proof fn lemma_i32_roundtrip(v: i32)
    ensures
        roundtrips::<i32>(v),
{
    lemma_u32_roundtrip(v as u32);
    assert forall|rest: Seq<u8>|
        #[trigger] i32::spec_unpack(i32::spec_pack(v) + rest) == (Some(v), rest) by {
        assert(u32::spec_unpack(u32::spec_pack(v as u32) + rest) == (Some(v as u32), rest));
        assert((v as u32) as i32 == v) by (bit_vector);
    }
}

pub proof fn lemma_u64_roundtrip(v: u64)
    ensures
        roundtrips::<u64>(v),
{
    lemma_le_u64(v);
    assert forall|rest: Seq<u8>|
        #[trigger] u64::spec_unpack(u64::spec_pack(v) + rest) == (Some(v), rest) by {
        let b = u64::spec_pack(v) + rest;
        let e = le_u64(v);
        assert(b.skip(8) =~= rest);
        assert(b.skip(4).take(4) =~= e.skip(4).take(4));
        assert(b.take(4) =~= e.take(4));
        assert(u32_of_le(b) == u32_of_le(e));
        assert(u32_of_le(b.skip(4)) == u32_of_le(e.skip(4)));
    }
}

pub proof fn lemma_ipv4_roundtrip(v: Ipv4Addr)
    ensures
        roundtrips::<Ipv4Addr>(v),
{
    lemma_u32_roundtrip(v.0);
    assert forall|rest: Seq<u8>|
        #[trigger] Ipv4Addr::spec_unpack(Ipv4Addr::spec_pack(v) + rest) == (Some(v), rest) by {
        assert(u32::spec_unpack(u32::spec_pack(v.0) + rest) == (Some(v.0), rest));
    }
}

/// Regrouping of a concatenation of eight parts and what follows them.
pub proof fn lemma_regroup8(
    a: Seq<u8>,
    b: Seq<u8>,
    c: Seq<u8>,
    d: Seq<u8>,
    e: Seq<u8>,
    f: Seq<u8>,
    g: Seq<u8>,
    h: Seq<u8>,
    rest: Seq<u8>,
)
    ensures
        a + b + c + d + e + f + g + h + rest == a + (b + (c + (d + (e + (f + (g + (h
            + rest))))))),
{
    assert(a + b + c + d + e + f + g + h + rest =~= a + (b + (c + (d + (e + (f + (g + (h
        + rest))))))));
}

} // verus!
