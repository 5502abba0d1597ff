//! Addresses, 32-bit words and their byte order on the wire.
//!
//! A memory address travels as two 16-bit fields. Memory contents travel as
//! bytes, grouped in 32-bit words; the caller's buffer is always the
//! little-endian image of those words, and the wire carries each word either
//! in that order or reversed.

use vstd::prelude::*;

verus! {

/// Upper 16 bits of an address.
pub open spec fn addr_hi(addr: u32) -> u16 {
    (addr / 0x1_0000) as u16
}

/// Lower 16 bits of an address.
pub open spec fn addr_lo(addr: u32) -> u16 {
    (addr % 0x1_0000) as u16
}

/// The address whose two halves are `hi` and `lo`.
pub open spec fn addr_join(hi: u16, lo: u16) -> u32 {
    (hi * 0x1_0000 + lo) as u32
}

/// Splitting an address and joining the halves gives the address back, and
/// the halves are the shifted and the masked address.
pub proof fn lemma_address_split_lossless(addr: u32)
    ensures
        addr_join(addr_hi(addr), addr_lo(addr)) == addr,
        addr_hi(addr) == addr >> 16,
        addr_lo(addr) == addr & 0xFFFF,
        ((addr >> 16) << 16) | (addr & 0xFFFF) == addr,
{
    assert(addr >> 16 == addr / 0x1_0000) by (bit_vector);
    assert(addr & 0xFFFF == addr % 0x1_0000) by (bit_vector);
    assert(((addr >> 16) << 16) | (addr & 0xFFFF) == addr) by (bit_vector);
}

/// Joining two halves and splitting the result gives the halves back.
pub proof fn lemma_address_join_split(hi: u16, lo: u16)
    ensures
        addr_hi(addr_join(hi, lo)) == hi,
        addr_lo(addr_join(hi, lo)) == lo,
{
}

/// Splits an address into the two fields of a transfer, upper half first.
pub fn split_address(addr: u32) -> (r: (u16, u16))
    ensures
        r.0 == addr_hi(addr),
        r.1 == addr_lo(addr),
        addr_join(r.0, r.1) == addr,
{
    proof {
        lemma_address_split_lossless(addr);
    }
    let hi: u16 = (addr >> 16) as u16;
    let lo: u16 = (addr & 0xFFFF) as u16;
    (hi, lo)
}

/// Joins the two fields of a transfer into the address they name.
pub fn join_address(hi: u16, lo: u16) -> (addr: u32)
    ensures
        addr == addr_join(hi, lo),
        addr_hi(addr) == hi,
        addr_lo(addr) == lo,
{
    let h: u32 = hi as u32;
    let l: u32 = lo as u32;
    assert((h << 16) | l == h * 0x1_0000 + l) by (bit_vector)
        requires
            h < 0x1_0000,
            l < 0x1_0000,
    ;
    (h << 16) | l
}

/// Byte order of a 32-bit word on the wire.
#[derive(Clone, Copy, Debug, PartialEq, Eq, Structural)]
pub enum Endianness {
    /// Least significant byte first.
    Little,
    /// Most significant byte first.
    Big,
}

/// The word whose bytes, least significant first, are `b0` to `b3`.
pub open spec fn word_of(b0: u8, b1: u8, b2: u8, b3: u8) -> u32 {
    (b0 + 0x100 * b1 + 0x1_0000 * b2 + 0x100_0000 * b3) as u32
}

/// Byte `j` of a word, counted from the least significant one; the most
/// significant one for every `j` other than 0, 1 and 2.
pub open spec fn byte_of(w: u32, j: int) -> u8 {
    if j == 0 {
        (w % 0x100) as u8
    } else if j == 1 {
        ((w / 0x100) % 0x100) as u8
    } else if j == 2 {
        ((w / 0x1_0000) % 0x100) as u8
    } else {
        ((w / 0x100_0000) % 0x100) as u8
    }
}

/// Byte `i` of `s`, or zero past its end.
pub open spec fn padded(s: Seq<u8>, i: int) -> u8 {
    if 0 <= i < s.len() {
        s[i]
    } else {
        0
    }
}

/// Number of 32-bit words that hold `n` bytes.
pub open spec fn word_count(n: nat) -> nat {
    ((n + 3) / 4) as nat
}

/// Word `k` of a buffer read as little-endian words, the last one filled up
/// with zero bytes.
pub open spec fn le_word_at(s: Seq<u8>, k: int) -> u32 {
    word_of(padded(s, 4 * k), padded(s, 4 * k + 1), padded(s, 4 * k + 2), padded(s, 4 * k + 3))
}

/// A buffer read as little-endian words.
pub open spec fn le_words(s: Seq<u8>) -> Seq<u32> {
    Seq::new(word_count(s.len()), |k: int| le_word_at(s, k))
}

/// The bytes of a sequence of words, each most significant byte first.
pub open spec fn be_bytes(ws: Seq<u32>) -> Seq<u8> {
    Seq::new(4 * ws.len(), |i: int| byte_of(ws[i / 4], 3 - i % 4))
}

/// The bytes of a sequence of words, each least significant byte first.
pub open spec fn le_bytes(ws: Seq<u32>) -> Seq<u8> {
    Seq::new(4 * ws.len(), |i: int| byte_of(ws[i / 4], i % 4))
}

/// The bytes of a sequence of words in the given order.
pub open spec fn word_bytes(ws: Seq<u32>, order: Endianness) -> Seq<u8> {
    match order {
        Endianness::Little => le_bytes(ws),
        Endianness::Big => be_bytes(ws),
    }
}

/// A word is made of its four bytes.
pub proof fn lemma_word_of_bytes(w: u32)
    ensures
        word_of(byte_of(w, 0), byte_of(w, 1), byte_of(w, 2), byte_of(w, 3)) == w,
{
    let q1: int = (w / 0x100) as int;
    let q2: int = (w / 0x1_0000) as int;
    let q3: int = (w / 0x100_0000) as int;
    assert(w == w % 0x100 + 0x100 * q1);
    assert(q2 == q1 / 0x100);
    assert(q1 == q1 % 0x100 + 0x100 * q2);
    assert(q3 == q2 / 0x100);
    assert(q2 == q2 % 0x100 + 0x100 * q3);
    assert(q3 < 0x100);
}

/// The bytes of a word made of four bytes are those bytes.
pub proof fn lemma_bytes_of_word(b0: u8, b1: u8, b2: u8, b3: u8)
    ensures
        byte_of(word_of(b0, b1, b2, b3), 0) == b0,
        byte_of(word_of(b0, b1, b2, b3), 1) == b1,
        byte_of(word_of(b0, b1, b2, b3), 2) == b2,
        byte_of(word_of(b0, b1, b2, b3), 3) == b3,
{
    let w: int = b0 + 0x100 * b1 + 0x1_0000 * b2 + 0x100_0000 * b3;
    let q1: int = b1 + 0x100 * b2 + 0x1_0000 * b3;
    let q2: int = b2 + 0x100 * b3;
    assert(word_of(b0, b1, b2, b3) == w);
    assert(w == b0 + 0x100 * q1);
    assert(w / 0x100 == q1 && w % 0x100 == b0);
    assert(w == (b0 + 0x100 * b1) + 0x1_0000 * q2);
    assert(w / 0x1_0000 == q2);
    assert(q2 % 0x100 == b2);
    assert(w == (b0 + 0x100 * b1 + 0x1_0000 * b2) + 0x100_0000 * b3);
    assert(w / 0x100_0000 == b3);
}

/// Builds a word from its bytes, least significant first.
pub fn make_word(b0: u8, b1: u8, b2: u8, b3: u8) -> (w: u32)
    ensures
        w == word_of(b0, b1, b2, b3),
{
    let x0: u32 = b0 as u32;
    let x1: u32 = b1 as u32;
    let x2: u32 = b2 as u32;
    let x3: u32 = b3 as u32;
    assert(x0 | (x1 << 8) | (x2 << 16) | (x3 << 24) == x0 + 0x100 * x1 + 0x1_0000 * x2 + 0x100_0000
        * x3) by (bit_vector)
        requires
            x0 < 0x100,
            x1 < 0x100,
            x2 < 0x100,
            x3 < 0x100,
    ;
    x0 | (x1 << 8) | (x2 << 16) | (x3 << 24)
}

/// Takes byte `j` of a word, counted from the least significant one; past
/// the third byte it is the most significant one.
pub fn word_byte(w: u32, j: u8) -> (b: u8)
    ensures
        b == byte_of(w, j as int),
{
    assert(w & 0xff == w % 0x100) by (bit_vector);
    assert((w >> 8) & 0xff == (w / 0x100) % 0x100) by (bit_vector);
    assert((w >> 16) & 0xff == (w / 0x1_0000) % 0x100) by (bit_vector);
    assert((w >> 24) & 0xff == (w / 0x100_0000) % 0x100) by (bit_vector);
    if j == 0 {
        (w & 0xff) as u8
    } else if j == 1 {
        ((w >> 8) & 0xff) as u8
    } else if j == 2 {
        ((w >> 16) & 0xff) as u8
    } else {
        ((w >> 24) & 0xff) as u8
    }
}

/// Reads a buffer as little-endian 32-bit words. A buffer whose length is no
/// multiple of four is filled up with zero bytes; an empty one gives no word.
pub fn u8_le_slice_to_u32_vec(buf: &[u8]) -> (v: Vec<u32>)
    ensures
        v@ == le_words(buf@),
        v.len() == word_count(buf@.len()),
{
    let mut v: Vec<u32> = Vec::new();
    let l: usize = buf.len();
    let tail: usize = if l % 4 == 0 {
        0
    } else {
        1
    };
    let n: usize = l / 4 + tail;
    let mut k: usize = 0;
    while k < n
        invariant
            l == buf@.len(),
            n == word_count(l as nat),
            k <= n,
            v.len() == k,
            forall|j: int| 0 <= j < k ==> v[j] == le_word_at(buf@, j),
        decreases n - k,
    {
        let i: usize = 4 * k;
        let rest: usize = l - i;
        let b0: u8 = buf[i];
        let b1: u8 = if rest > 1 {
            buf[i + 1]
        } else {
            0
        };
        let b2: u8 = if rest > 2 {
            buf[i + 2]
        } else {
            0
        };
        let b3: u8 = if rest > 3 {
            buf[i + 3]
        } else {
            0
        };
        v.push(make_word(b0, b1, b2, b3));
        k = k + 1;
    }
    assert(v@ =~= le_words(buf@));
    v
}

/// Reads a 64-byte block as sixteen little-endian 32-bit words.
pub fn conv_64u8_as_16u32(buf: &[u8; 64]) -> (v: Vec<u32>)
    ensures
        v@ == le_words(buf@),
        v.len() == 16,
        forall|k: int|
            0 <= k < 16 ==> v[k] == word_of(
                buf[4 * k],
                buf[4 * k + 1],
                buf[4 * k + 2],
                buf[4 * k + 3],
            ),
{
    let mut v: Vec<u32> = Vec::new();
    let mut i: usize = 0;
    while i < 64
        invariant
            i % 4 == 0,
            i <= 64,
            v.len() == i / 4,
            forall|k: int| 0 <= k < v.len() ==> v[k] == le_word_at(buf@, k),
        decreases 64 - i,
    {
        v.push(make_word(buf[i], buf[i + 1], buf[i + 2], buf[i + 3]));
        i = i + 4;
    }
    assert(v@ =~= le_words(buf@));
    v
}

/// Writes words out as bytes, each word in the given order.
pub fn words_to_bytes(v: &Vec<u32>, order: Endianness) -> (r: Vec<u8>)
    ensures
        r@ == word_bytes(v@, order),
        r.len() == 4 * v.len(),
{
    let mut r: Vec<u8> = Vec::new();
    let mut k: usize = 0;
    while k < v.len()
        invariant
            k <= v.len(),
            r.len() == 4 * k,
            forall|i: int| 0 <= i < r.len() ==> r[i] == word_bytes(v@, order)[i],
        decreases v.len() - k,
    {
        let w: u32 = v[k];
        match order {
            Endianness::Little => {
                r.push(word_byte(w, 0));
                r.push(word_byte(w, 1));
                r.push(word_byte(w, 2));
                r.push(word_byte(w, 3));
            },
            Endianness::Big => {
                r.push(word_byte(w, 3));
                r.push(word_byte(w, 2));
                r.push(word_byte(w, 1));
                r.push(word_byte(w, 0));
            },
        }
        k = k + 1;
    }
    assert(r@ =~= word_bytes(v@, order));
    r
}

/// Writes words out as bytes, each word most significant byte first.
pub fn vu32_to_vu8(v: Vec<u32>) -> (r: Vec<u8>)
    ensures
        r@ == be_bytes(v@),
        r.len() == 4 * v.len(),
{
    words_to_bytes(&v, Endianness::Big)
}

/// What the wire carries for a host buffer: the buffer filled up with zero
/// bytes to whole words, each word in the given order.
pub open spec fn wire_image(host: Seq<u8>, order: Endianness) -> Seq<u8> {
    word_bytes(le_words(host), order)
}

/// What a host buffer holds for the bytes received from the wire: as many
/// bytes as were received, each whole word put back in little-endian order.
pub open spec fn host_image(wire: Seq<u8>, order: Endianness) -> Seq<u8> {
    wire_image(wire, order).take(wire.len() as int)
}

/// The four bytes that the wire carries for one register value.
pub open spec fn register_image(val: u32, order: Endianness) -> Seq<u8> {
    word_bytes(seq![val], order)
}

/// The register value that four bytes from the wire stand for.
pub open spec fn register_value(b: Seq<u8>, order: Endianness) -> u32
    recommends
        b.len() == 4,
{
    match order {
        Endianness::Little => word_of(b[0], b[1], b[2], b[3]),
        Endianness::Big => word_of(b[3], b[2], b[1], b[0]),
    }
}

/// Byte by byte, what the wire carries: in little-endian order the buffer
/// itself followed by zero bytes, in big-endian order each group of four
/// bytes reversed.
pub proof fn lemma_wire_image_bytes(host: Seq<u8>, order: Endianness)
    ensures
        wire_image(host, order).len() == 4 * word_count(host.len()),
        host.len() <= wire_image(host, order).len() < host.len() + 4,
        forall|i: int|
            0 <= i < wire_image(host, order).len() ==> #[trigger] wire_image(host, order)[i] == (
            match order {
                Endianness::Little => padded(host, i),
                Endianness::Big => padded(host, 4 * (i / 4) + 3 - i % 4),
            }),
{
    let img = wire_image(host, order);
    assert forall|i: int| 0 <= i < img.len() implies #[trigger] img[i] == (match order {
        Endianness::Little => padded(host, i),
        Endianness::Big => padded(host, 4 * (i / 4) + 3 - i % 4),
    }) by {
        let k = i / 4;
        lemma_bytes_of_word(
            padded(host, 4 * k),
            padded(host, 4 * k + 1),
            padded(host, 4 * k + 2),
            padded(host, 4 * k + 3),
        );
    }
}

/// A buffer sent and received back unchanged by the device gives the same
/// buffer, as far as its length is kept: always in little-endian order, and
/// in big-endian order when it is made of whole words.
pub proof fn lemma_wire_round_trip(host: Seq<u8>, order: Endianness)
    requires
        order == Endianness::Little || host.len() % 4 == 0,
    ensures
        host_image(wire_image(host, order).take(host.len() as int), order) == host,
{
    let n = host.len() as int;
    lemma_wire_image_bytes(host, order);
    let echoed = wire_image(host, order).take(n);
    lemma_wire_image_bytes(echoed, order);
    let back = host_image(echoed, order);
    assert(back.len() == n);
    assert forall|i: int| 0 <= i < n implies back[i] == host[i] by {
        assert(back[i] == wire_image(echoed, order)[i]);
        if order == Endianness::Big {
            let j = 4 * (i / 4) + 3 - i % 4;
            assert(0 <= j < n);
            assert(echoed[j] == wire_image(host, order)[j]);
            assert(4 * (j / 4) + 3 - j % 4 == i);
        } else {
            assert(echoed[i] == wire_image(host, order)[i]);
        }
    }
    assert(back =~= host);
}

/// A register value sent and received back gives the same value, in either
/// byte order.
pub proof fn lemma_register_round_trip(val: u32, order: Endianness)
    ensures
        register_image(val, order).len() == 4,
        register_value(register_image(val, order), order) == val,
{
    lemma_word_of_bytes(val);
}

/// Lays a host buffer out for the wire.
pub fn to_wire(buf: &[u8], order: Endianness) -> (r: Vec<u8>)
    ensures
        r@ == wire_image(buf@, order),
        r.len() == 4 * word_count(buf@.len()),
{
    let words = u8_le_slice_to_u32_vec(buf);
    words_to_bytes(&words, order)
}

/// Puts bytes received from the wire into host order.
pub fn from_wire(wire: &[u8], order: Endianness) -> (r: Vec<u8>)
    ensures
        r@ == host_image(wire@, order),
        r.len() == wire@.len(),
{
    let mut r = to_wire(wire, order);
    r.truncate(wire.len());
    r
}

/// Lays one register value out for the wire.
pub fn register_to_wire(val: u32, order: Endianness) -> (r: Vec<u8>)
    ensures
        r@ == register_image(val, order),
        r.len() == 4,
{
    let mut words: Vec<u32> = Vec::new();
    words.push(val);
    assert(words@ =~= seq![val]);
    words_to_bytes(&words, order)
}

/// Reads one register value from four bytes received from the wire.
pub fn register_from_wire(b: &[u8; 4], order: Endianness) -> (val: u32)
    ensures
        val == register_value(b@, order),
{
    match order {
        Endianness::Little => make_word(b[0], b[1], b[2], b[3]),
        Endianness::Big => make_word(b[3], b[2], b[1], b[0]),
    }
}

} // verus!
