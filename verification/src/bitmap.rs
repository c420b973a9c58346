//! Validity bitmaps: one bit per element, packed eight to a byte.
use crate::buffer::share;
use std::sync::Arc;
use vstd::prelude::*;

verus! {

/// Whether bit `k` of `byte` is set, for `k < 8`.
pub open spec fn bit(byte: u8, k: u8) -> bool {
    byte & (1u8 << k) != 0
}

/// Bit `i` of the bits that `bytes` packs, least significant bit first.
pub open spec fn bit_at(bytes: Seq<u8>, i: int) -> bool {
    bit(bytes[i / 8], (i % 8) as u8)
}

/// The first `length` bits that `bytes` packs.
pub open spec fn bits_of(bytes: Seq<u8>, length: nat) -> Seq<bool> {
    Seq::new(length, |i: int| bit_at(bytes, i))
}

/// The number of unset bits, each of which marks a null element.
pub open spec fn count_nulls(bits: Seq<bool>) -> nat
    decreases bits.len(),
{
    if bits.len() == 0 {
        0
    } else {
        count_nulls(bits.drop_last()) + if bits.last() {
            0nat
        } else {
            1nat
        }
    }
}

/// There are no more nulls than bits.
pub proof fn lemma_count_nulls_bound(bits: Seq<bool>)
    ensures
        count_nulls(bits) <= bits.len(),
    decreases bits.len(),
{
    if bits.len() > 0 {
        lemma_count_nulls_bound(bits.drop_last());
    }
}

/// The count of nulls is zero exactly when every bit is set.
pub proof fn lemma_count_nulls_zero(bits: Seq<bool>)
    ensures
        count_nulls(bits) == 0 <==> forall|i: int| 0 <= i < bits.len() ==> bits[i],
    decreases bits.len(),
{
    if bits.len() > 0 {
        let front = bits.drop_last();
        lemma_count_nulls_zero(front);
        if count_nulls(bits) == 0 {
            assert forall|i: int| 0 <= i < bits.len() implies bits[i] by {
                if i < front.len() {
                    assert(front[i]);
                }
            }
        } else if bits.last() {
            let i = choose|i: int| 0 <= i < front.len() && !front[i];
            assert(!bits[i]);
        }
    }
}

proof fn lemma_count_nulls_push(bits: Seq<bool>, value: bool)
    ensures
        count_nulls(bits.push(value)) == count_nulls(bits) + if value {
            0nat
        } else {
            1nat
        },
{
    assert(bits.push(value).drop_last() == bits);
}

proof fn lemma_bit_set(byte: u8, k: u8, j: u8)
    requires
        k < 8,
        j < 8,
    ensures
        bit(byte | (1u8 << k), j) == (bit(byte, j) || j == k),
        !bit(0u8, j),
{
    assert(((byte | (1u8 << k)) & (1u8 << j) != 0) == ((byte & (1u8 << j) != 0) || j == k))
        by (bit_vector)
        requires
            k < 8,
            j < 8,
    ;
    assert(0u8 & (1u8 << j) == 0) by (bit_vector);
}

proof fn lemma_bit_and(a: u8, b: u8, j: u8)
    requires
        j < 8,
    ensures
        bit(a & b, j) == (bit(a, j) && bit(b, j)),
{
    assert(((a & b) & (1u8 << j) != 0) == ((a & (1u8 << j) != 0) && (b & (1u8 << j) != 0)))
        by (bit_vector);
}

/// Reads bit `i` of a packed sequence of bits.
fn read_bit(bytes: &Vec<u8>, i: usize) -> (r: bool)
    requires
        i < bytes.len() * 8,
    ensures
        r == bit_at(bytes@, i as int),
{
    let byte = bytes[i / 8];
    let mask = 1u8 << ((i % 8) as u8);
    (byte & mask) != 0
}

/// An immutable sequence of validity bits. A set bit marks a valid element, an
/// unset bit a null one. Cloning shares the storage.
#[derive(Debug)]
pub struct Bitmap {
    bytes: Arc<Vec<u8>>,
    length: usize,
    null_count: usize,
}

impl View for Bitmap {
    type V = Seq<bool>;

    closed spec fn view(&self) -> Seq<bool> {
        bits_of(self.bytes@, self.length as nat)
    }
}

impl Clone for Bitmap {
    fn clone(&self) -> (r: Self)
        ensures
            r == *self,
    {
        Bitmap { bytes: share(&self.bytes), length: self.length, null_count: self.null_count }
    }
}

impl Bitmap {
    /// The storage is exactly as long as the bits need, and the cached count of
    /// nulls is right.
    pub closed spec fn wf(&self) -> bool {
        &&& self.bytes@.len() == (self.length + 7) / 8
        &&& self.null_count == count_nulls(self@)
    }

    /// The number of bits.
    pub fn len(&self) -> (r: usize)
        ensures
            r == self@.len(),
    {
        self.length
    }

    /// The number of unset bits.
    pub fn null_count(&self) -> (r: usize)
        requires
            self.wf(),
        ensures
            r == count_nulls(self@),
    {
        self.null_count
    }

    /// Bit `i`.
    pub fn get_bit(&self, i: usize) -> (r: bool)
        requires
            self.wf(),
            i < self@.len(),
        ensures
            r == self@[i as int],
    {
        read_bit(&self.bytes, i)
    }

    /// The bitmap whose bits are those of `bits`, in order.
    pub fn from_bools(bits: &Vec<bool>) -> (r: Bitmap)
        ensures
            r.wf(),
            r@ == bits@,
    {
        let mut builder = MutableBitmap::with_capacity(bits.len());
        let mut i: usize = 0;
        while i < bits.len()
            invariant
                i <= bits.len(),
                builder.wf(),
                builder@ == bits@.take(i as int),
            decreases bits.len() - i,
        {
            builder.push(bits[i]);
            assert(bits@.take(i as int).push(bits[i as int]) == bits@.take(i + 1));
            i += 1;
        }
        assert(bits@.take(bits.len() as int) == bits@);
        builder.into_bitmap()
    }

    /// The bitwise AND of two bitmaps of one length: a bit of the result is set
    /// where it is set in both.
    pub fn and(&self, other: &Bitmap) -> (r: Bitmap)
        requires
            self.wf(),
            other.wf(),
            self@.len() == other@.len(),
        ensures
            r.wf(),
            r@ == and_bits(self@, other@),
    {
        let n = self.bytes.len();
        let mut bytes: Vec<u8> = Vec::with_capacity(n);
        let mut j: usize = 0;
        while j < n
            invariant
                n == self.bytes@.len(),
                n == other.bytes@.len(),
                j <= n,
                bytes@.len() == j,
                forall|k: int| 0 <= k < j ==> bytes@[k] == self.bytes@[k] & other.bytes@[k],
            decreases n - j,
        {
            bytes.push(self.bytes[j] & other.bytes[j]);
            j += 1;
        }
        let ghost length = self.length as nat;
        assert(bits_of(bytes@, length) =~= and_bits(self@, other@)) by {
            assert forall|i: int| 0 <= i < length implies bits_of(bytes@, length)[i] == (self@[i]
                && other@[i]) by {
                lemma_bit_and(self.bytes@[i / 8], other.bytes@[i / 8], (i % 8) as u8);
            }
        }
        let null_count = count_unset(&bytes, self.length);
        Bitmap { bytes: Arc::new(bytes), length: self.length, null_count }
    }
}

/// The elementwise conjunction of two sequences of bits of one length.
pub open spec fn and_bits(a: Seq<bool>, b: Seq<bool>) -> Seq<bool> {
    Seq::new(a.len(), |i: int| a[i] && b[i])
}

/// Counts the unset bits among the first `length` bits of `bytes`.
fn count_unset(bytes: &Vec<u8>, length: usize) -> (r: usize)
    requires
        length <= bytes.len() * 8,
    ensures
        r == count_nulls(bits_of(bytes@, length as nat)),
{
    let ghost bits = bits_of(bytes@, length as nat);
    let mut count: usize = 0;
    let mut i: usize = 0;
    while i < length
        invariant
            i <= length,
            length <= bytes.len() * 8,
            bits == bits_of(bytes@, length as nat),
            count == count_nulls(bits.take(i as int)),
            count <= i,
        decreases length - i,
    {
        let set = read_bit(bytes, i);
        proof {
            assert(bits.take(i as int).push(bits[i as int]) == bits.take(i + 1));
            lemma_count_nulls_push(bits.take(i as int), bits[i as int]);
        }
        if !set {
            count += 1;
        }
        i += 1;
    }
    assert(bits.take(length as int) == bits);
    count
}

/// A bitmap under construction, to which bits are appended one at a time.
#[derive(Debug)]
pub struct MutableBitmap {
    buffer: Vec<u8>,
    length: usize,
    null_count: usize,
}

impl View for MutableBitmap {
    type V = Seq<bool>;

    closed spec fn view(&self) -> Seq<bool> {
        bits_of(self.buffer@, self.length as nat)
    }
}

impl MutableBitmap {
    /// The storage is exactly as long as the bits need, the bits of its last
    /// byte that are not yet in use are unset, and the count of nulls is right.
    pub closed spec fn wf(&self) -> bool {
        &&& self.buffer@.len() == (self.length + 7) / 8
        &&& forall|i: int|
            self.length <= i < self.buffer@.len() * 8 ==> !#[trigger] bit_at(self.buffer@, i)
        &&& self.null_count == count_nulls(self@)
    }

    /// An empty bitmap.
    pub fn new() -> (r: Self)
        ensures
            r.wf(),
            r@ == Seq::<bool>::empty(),
    {
        MutableBitmap::with_capacity(0)
    }

    /// An empty bitmap with room for `capacity` bits.
    pub fn with_capacity(capacity: usize) -> (r: Self)
        ensures
            r.wf(),
            r@ == Seq::<bool>::empty(),
    {
        let r = MutableBitmap { buffer: Vec::with_capacity(capacity / 8 + 1), length: 0, null_count: 0 };
        assert(r@ =~= Seq::<bool>::empty());
        r
    }

    /// The number of bits pushed so far.
    pub fn len(&self) -> (r: usize)
        ensures
            r == self@.len(),
    {
        self.length
    }

    /// The number of unset bits pushed so far.
    pub fn null_count(&self) -> (r: usize)
        requires
            self.wf(),
        ensures
            r == count_nulls(self@),
    {
        self.null_count
    }

    /// Appends one bit.
    pub fn push(&mut self, value: bool)
        requires
            old(self).wf(),
            old(self)@.len() < usize::MAX,
        ensures
            final(self).wf(),
            final(self)@ == old(self)@.push(value),
    {
        let ghost before = *self;
        let k = (self.length % 8) as u8;
        if k == 0 {
            self.buffer.push(0u8);
        }
        let last = self.buffer.len() - 1;
        let byte = self.buffer[last];
        if value {
            self.buffer.set(last, byte | (1u8 << k));
        } else {
            proof {
                lemma_count_nulls_bound(before@);
            }
            self.null_count += 1;
        }
        self.length += 1;
        proof {
            let n = before.length as int;
            assert(last == n / 8 && k == n % 8);
            assert(k != 0 ==> byte == before.buffer@[n / 8]);
            assert forall|i: int| 0 <= i < self.buffer@.len() * 8 implies #[trigger] bit_at(
                self.buffer@,
                i,
            ) == if i < n {
                bit_at(before.buffer@, i)
            } else {
                i == n && value
            } by {
                let j = (i % 8) as u8;
                lemma_bit_set(byte, k, j);
                if i / 8 == last && n <= i && k != 0 {
                    assert(!bit_at(before.buffer@, i));
                }
            }
            assert(self@ =~= before@.push(value));
            lemma_count_nulls_push(before@, value);
        }
    }

    /// Freezes the bits pushed so far.
    pub fn into_bitmap(self) -> (r: Bitmap)
        requires
            self.wf(),
        ensures
            r.wf(),
            r@ == self@,
    {
        Bitmap { bytes: Arc::new(self.buffer), length: self.length, null_count: self.null_count }
    }
}

} // verus!
