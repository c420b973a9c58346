//! Typed arrays: a logical type, a buffer of elements and an optional validity
//! bitmap.
use crate::bitmap::{count_nulls, lemma_count_nulls_bound, lemma_count_nulls_zero, Bitmap, MutableBitmap};
use crate::buffer::Buffer;
use crate::datatypes::DataType;
use crate::error::{ArrowError, InvalidArgument};
use crate::types::NativeType;
use vstd::prelude::*;

verus! {

/// What a typed array holds: its logical type, the stored elements, and the
/// validity of each slot. Without a validity every slot is valid.
pub struct PrimitiveView<T> {
    pub data_type: DataType,
    pub values: Seq<T>,
    pub validity: Option<Seq<bool>>,
}

impl<T> PrimitiveView<T> {
    /// The number of slots.
    pub open spec fn len(self) -> nat {
        self.values.len()
    }

    /// Whether slot `i` holds a value rather than a null.
    pub open spec fn is_valid(self, i: int) -> bool {
        match self.validity {
            Some(bits) => bits[i],
            None => true,
        }
    }

    /// The value of slot `i`, or `None` where the slot is null.
    pub open spec fn get(self, i: int) -> Option<T> {
        if self.is_valid(i) {
            Some(self.values[i])
        } else {
            None
        }
    }

    /// The array as a sequence of optional values. Two arrays with the same
    /// logical type and the same sequence are equal as values, whatever they
    /// store in their null slots.
    pub open spec fn options(self) -> Seq<Option<T>> {
        Seq::new(self.len(), |i: int| self.get(i))
    }

    /// The number of null slots.
    pub open spec fn null_count(self) -> nat {
        match self.validity {
            Some(bits) => count_nulls(bits),
            None => 0,
        }
    }
}

impl<T: NativeType> PrimitiveView<T> {
    /// The logical type is one that `T` stores, and a validity has one bit per
    /// slot.
    pub open spec fn wf(self) -> bool {
        &&& T::spec_is_valid(self.data_type)
        &&& self.validity matches Some(bits) ==> bits.len() == self.values.len()
    }
}

/// The bits of an optional bitmap.
pub open spec fn validity_view(validity: Option<Bitmap>) -> Option<Seq<bool>> {
    match validity {
        Some(bitmap) => Some(bitmap@),
        None => None,
    }
}

/// Whether an optional bitmap is well formed where there is one.
pub open spec fn validity_wf(validity: Option<Bitmap>) -> bool {
    validity matches Some(bitmap) ==> bitmap.wf()
}

/// The null slots of an array are as many as its length at most, and none
/// exactly when every slot is valid.
pub proof fn lemma_null_count<T>(a: PrimitiveView<T>)
    requires
        a.validity matches Some(bits) ==> bits.len() == a.values.len(),
    ensures
        a.null_count() <= a.len(),
        a.null_count() == 0 <==> forall|i: int| 0 <= i < a.len() ==> a.is_valid(i),
{
    if let Some(bits) = a.validity {
        lemma_count_nulls_bound(bits);
        lemma_count_nulls_zero(bits);
        if forall|i: int| 0 <= i < a.len() ==> a.is_valid(i) {
            assert forall|i: int| 0 <= i < bits.len() implies bits[i] by {
                assert(a.is_valid(i));
            }
        }
    }
}

/// An immutable array of elements of type `T`, each of which may be null.
#[derive(Debug)]
pub struct PrimitiveArray<T: NativeType> {
    data_type: DataType,
    values: Buffer<T>,
    validity: Option<Bitmap>,
}

impl<T: NativeType> View for PrimitiveArray<T> {
    type V = PrimitiveView<T>;

    closed spec fn view(&self) -> PrimitiveView<T> {
        PrimitiveView {
            data_type: self.data_type,
            values: self.values@,
            validity: validity_view(self.validity),
        }
    }
}

impl<T: NativeType> Clone for PrimitiveArray<T> {
    fn clone(&self) -> (r: Self)
        ensures
            r == *self,
    {
        let validity = match &self.validity {
            Some(bitmap) => Some(bitmap.clone()),
            None => None,
        };
        PrimitiveArray { data_type: self.data_type, values: self.values.clone(), validity }
    }
}

impl<T: NativeType> PrimitiveArray<T> {
    /// The invariant of an array: what it holds is well formed, and so is its
    /// bitmap.
    pub open spec fn wf(&self) -> bool {
        &&& self@.wf()
        &&& self.bitmap_wf()
    }

    /// The validity bitmap, where there is one, is well formed.
    pub closed spec fn bitmap_wf(&self) -> bool {
        validity_wf(self.validity)
    }

    /// Makes an array of its three parts, or says which of them does not fit.
    pub fn try_new(data_type: DataType, values: Buffer<T>, validity: Option<Bitmap>) -> (r: Result<
        Self,
        ArrowError,
    >)
        requires
            validity_wf(validity),
        ensures
            r == Err::<Self, ArrowError>(
                ArrowError::InvalidArgumentError(InvalidArgument::ElementType(data_type)),
            ) <==> !T::spec_is_valid(data_type),
            r == Err::<Self, ArrowError>(
                ArrowError::InvalidArgumentError(InvalidArgument::ValidityLength),
            ) <==> T::spec_is_valid(data_type) && (validity matches Some(bitmap) && bitmap@.len()
                != values@.len()),
            r matches Ok(array) ==> array.wf() && array@ == (PrimitiveView {
                data_type,
                values: values@,
                validity: validity_view(validity),
            }),
            r matches Err(e) ==> e == ArrowError::InvalidArgumentError(
                InvalidArgument::ElementType(data_type),
            ) || e == ArrowError::InvalidArgumentError(InvalidArgument::ValidityLength),
    {
        if !T::is_valid(&data_type) {
            return Err(ArrowError::InvalidArgumentError(InvalidArgument::ElementType(data_type)));
        }
        if let Some(bitmap) = &validity {
            if bitmap.len() != values.len() {
                return Err(ArrowError::InvalidArgumentError(InvalidArgument::ValidityLength));
            }
        }
        Ok(PrimitiveArray { data_type, values, validity })
    }

    /// Makes an array of three parts that fit.
    pub fn from_data(data_type: DataType, values: Buffer<T>, validity: Option<Bitmap>) -> (r: Self)
        requires
            T::spec_is_valid(data_type),
            validity_wf(validity),
            validity matches Some(bitmap) ==> bitmap@.len() == values@.len(),
        ensures
            r.wf(),
            r@ == (PrimitiveView { data_type, values: values@, validity: validity_view(validity) }),
    {
        PrimitiveArray { data_type, values, validity }
    }

    /// The array of the given values, none of them null.
    pub fn from_slice(values: &[T], data_type: DataType) -> (r: Result<Self, ArrowError>)
        ensures
            !T::spec_is_valid(data_type) ==> r == Err::<Self, ArrowError>(
                ArrowError::InvalidArgumentError(InvalidArgument::ElementType(data_type)),
            ),
            T::spec_is_valid(data_type) ==> r is Ok && r->Ok_0.wf() && r->Ok_0@ == (PrimitiveView {
                data_type,
                values: values@,
                validity: None,
            }),
    {
        if !T::is_valid(&data_type) {
            return Err(ArrowError::InvalidArgumentError(InvalidArgument::ElementType(data_type)));
        }
        let mut stored: Vec<T> = Vec::with_capacity(values.len());
        let mut i: usize = 0;
        while i < values.len()
            invariant
                i <= values.len(),
                stored@ == values@.take(i as int),
            decreases values.len() - i,
        {
            stored.push(values[i]);
            assert(values@.take(i as int).push(values[i as int]) == values@.take(i + 1));
            i += 1;
        }
        assert(values@.take(values.len() as int) == values@);
        Ok(PrimitiveArray { data_type, values: Buffer::from_vec(stored), validity: None })
    }

    /// The array of the given optional values. A null slot stores the default
    /// of `T`. The array has a validity only where a value is missing.
    pub fn from_options(values: &[Option<T>], data_type: DataType) -> (r: Result<Self, ArrowError>)
        ensures
            !T::spec_is_valid(data_type) ==> r == Err::<Self, ArrowError>(
                ArrowError::InvalidArgumentError(InvalidArgument::ElementType(data_type)),
            ),
            T::spec_is_valid(data_type) ==> r is Ok && r->Ok_0.wf() && r->Ok_0@ == stored_options(
                data_type,
                values@,
            ),
    {
        if !T::is_valid(&data_type) {
            return Err(ArrowError::InvalidArgumentError(InvalidArgument::ElementType(data_type)));
        }
        let mut stored: Vec<T> = Vec::with_capacity(values.len());
        let mut bits = MutableBitmap::with_capacity(values.len());
        let mut i: usize = 0;
        while i < values.len()
            invariant
                i <= values.len(),
                bits.wf(),
                stored@ == Seq::new(i as nat, |k: int| stored_value(values@[k])),
                bits@ == Seq::new(i as nat, |k: int| values@[k] is Some),
            decreases values.len() - i,
        {
            match values[i] {
                Some(value) => {
                    stored.push(value);
                    bits.push(true);
                },
                None => {
                    stored.push(T::default_value());
                    bits.push(false);
                },
            }
            i += 1;
            assert(stored@ =~= Seq::new(i as nat, |k: int| stored_value(values@[k])));
            assert(bits@ =~= Seq::new(i as nat, |k: int| values@[k] is Some));
        }
        proof {
            lemma_count_nulls_zero(bits@);
            if forall|i: int| 0 <= i < values@.len() ==> values@[i] is Some {
                assert forall|i: int| 0 <= i < bits@.len() implies bits@[i] by {
                    assert(values@[i] is Some);
                }
            } else {
                let i = choose|i: int| 0 <= i < values@.len() && !(values@[i] is Some);
                assert(!bits@[i]);
            }
        }
        let validity = if bits.null_count() > 0 {
            Some(bits.into_bitmap())
        } else {
            None
        };
        Ok(PrimitiveArray { data_type, values: Buffer::from_vec(stored), validity })
    }

    /// The logical type.
    pub fn data_type(&self) -> (r: &DataType)
        ensures
            *r == self@.data_type,
    {
        &self.data_type
    }

    /// The stored elements, those of null slots included.
    pub fn values(&self) -> (r: &Buffer<T>)
        ensures
            r@ == self@.values,
    {
        &self.values
    }

    /// The validity bitmap, if the array has one.
    pub fn validity(&self) -> (r: &Option<Bitmap>)
        ensures
            validity_view(*r) == self@.validity,
            self.wf() ==> validity_wf(*r),
    {
        &self.validity
    }

    /// The number of slots.
    pub fn len(&self) -> (r: usize)
        ensures
            r == self@.len(),
    {
        self.values.len()
    }

    /// The number of null slots.
    pub fn null_count(&self) -> (r: usize)
        requires
            self.wf(),
        ensures
            r == self@.null_count(),
    {
        match &self.validity {
            Some(bitmap) => bitmap.null_count(),
            None => 0,
        }
    }

    /// Whether slot `i` holds a value.
    pub fn is_valid(&self, i: usize) -> (r: bool)
        requires
            self.wf(),
            i < self@.len(),
        ensures
            r == self@.is_valid(i as int),
    {
        match &self.validity {
            Some(bitmap) => bitmap.get_bit(i),
            None => true,
        }
    }

    /// Whether slot `i` is null.
    pub fn is_null(&self, i: usize) -> (r: bool)
        requires
            self.wf(),
            i < self@.len(),
        ensures
            r == !self@.is_valid(i as int),
    {
        !self.is_valid(i)
    }

    /// The element stored in slot `i`, which means nothing where the slot is
    /// null.
    pub fn value(&self, i: usize) -> (r: T)
        requires
            i < self@.len(),
        ensures
            r == self@.values[i as int],
    {
        self.values.get(i)
    }

    /// The value of slot `i`, or `None` where the slot is null.
    pub fn get(&self, i: usize) -> (r: Option<T>)
        requires
            self.wf(),
            i < self@.len(),
        ensures
            r == self@.get(i as int),
    {
        if self.is_valid(i) {
            Some(self.values.get(i))
        } else {
            None
        }
    }

    /// The array as a vector of optional values.
    pub fn to_options(&self) -> (r: Vec<Option<T>>)
        requires
            self.wf(),
        ensures
            r@ == self@.options(),
    {
        let n = self.len();
        let mut out: Vec<Option<T>> = Vec::with_capacity(n);
        let mut i: usize = 0;
        while i < n
            invariant
                self.wf(),
                n == self@.len(),
                i <= n,
                out@ == self@.options().take(i as int),
            decreases n - i,
        {
            out.push(self.get(i));
            assert(self@.options().take(i as int).push(self@.get(i as int)) == self@.options().take(
                i + 1,
            ));
            i += 1;
        }
        assert(self@.options().take(n as int) == self@.options());
        out
    }

    /// Whether two arrays are equal as values: they have the same logical type,
    /// the same nulls, and the same value in every slot that is not null.
    pub fn equals(&self, other: &Self) -> (r: bool)
        requires
            self.wf(),
            other.wf(),
        ensures
            r == (self@.data_type == other@.data_type && self@.options() == other@.options()),
    {
        if self.data_type != other.data_type || self.len() != other.len() {
            assert(self@.options().len() == self@.len());
            assert(other@.options().len() == other@.len());
            return false;
        }
        let n = self.len();
        let mut i: usize = 0;
        while i < n
            invariant
                self.wf(),
                other.wf(),
                n == self@.len(),
                n == other@.len(),
                i <= n,
                forall|k: int| 0 <= k < i ==> self@.get(k) == other@.get(k),
            decreases n - i,
        {
            let same = match (self.get(i), other.get(i)) {
                (Some(a), Some(b)) => a.is_equal(&b),
                (None, None) => true,
                _ => false,
            };
            if !same {
                assert(self@.options()[i as int] != other@.options()[i as int]);
                return false;
            }
            i += 1;
        }
        assert(self@.options() =~= other@.options());
        true
    }
}

/// What a fallible kernel returned, with the array replaced by what it holds.
pub open spec fn result_view<T: NativeType>(r: Result<PrimitiveArray<T>, ArrowError>) -> Result<
    PrimitiveView<T>,
    ArrowError,
> {
    match r {
        Ok(array) => Ok(array@),
        Err(e) => Err(e),
    }
}

/// What a null slot stores when an array is made of optional values.
pub open spec fn stored_value<T: NativeType>(value: Option<T>) -> T {
    match value {
        Some(v) => v,
        None => T::spec_default(),
    }
}

/// The array made of optional values.
pub open spec fn stored_options<T: NativeType>(
    data_type: DataType,
    values: Seq<Option<T>>,
) -> PrimitiveView<T> {
    PrimitiveView {
        data_type,
        values: Seq::new(values.len(), |i: int| stored_value(values[i])),
        validity: if forall|i: int| 0 <= i < values.len() ==> values[i] is Some {
            None
        } else {
            Some(Seq::new(values.len(), |i: int| values[i] is Some))
        },
    }
}

/// An array made of optional values holds those values.
pub proof fn lemma_stored_options<T: NativeType>(data_type: DataType, values: Seq<Option<T>>)
    ensures
        stored_options(data_type, values).options() == values,
        stored_options(data_type, values).data_type == data_type,
{
    assert(stored_options(data_type, values).options() =~= values);
}

/// What an array of any element type holds.
pub enum ArrayView {
    Int8(PrimitiveView<i8>),
    Int16(PrimitiveView<i16>),
    Int32(PrimitiveView<i32>),
    Int64(PrimitiveView<i64>),
    Int128(PrimitiveView<i128>),
    UInt8(PrimitiveView<u8>),
    UInt16(PrimitiveView<u16>),
    UInt32(PrimitiveView<u32>),
    UInt64(PrimitiveView<u64>),
}

impl ArrayView {
    /// The logical type.
    pub open spec fn data_type(self) -> DataType {
        match self {
            ArrayView::Int8(a) => a.data_type,
            ArrayView::Int16(a) => a.data_type,
            ArrayView::Int32(a) => a.data_type,
            ArrayView::Int64(a) => a.data_type,
            ArrayView::Int128(a) => a.data_type,
            ArrayView::UInt8(a) => a.data_type,
            ArrayView::UInt16(a) => a.data_type,
            ArrayView::UInt32(a) => a.data_type,
            ArrayView::UInt64(a) => a.data_type,
        }
    }

    /// The number of slots.
    pub open spec fn len(self) -> nat {
        match self {
            ArrayView::Int8(a) => a.len(),
            ArrayView::Int16(a) => a.len(),
            ArrayView::Int32(a) => a.len(),
            ArrayView::Int64(a) => a.len(),
            ArrayView::Int128(a) => a.len(),
            ArrayView::UInt8(a) => a.len(),
            ArrayView::UInt16(a) => a.len(),
            ArrayView::UInt32(a) => a.len(),
            ArrayView::UInt64(a) => a.len(),
        }
    }
}

/// An array whose element type is known only when the program runs: one
/// variant for each element type.
#[derive(Debug)]
pub enum Array {
    Int8(PrimitiveArray<i8>),
    Int16(PrimitiveArray<i16>),
    Int32(PrimitiveArray<i32>),
    Int64(PrimitiveArray<i64>),
    Int128(PrimitiveArray<i128>),
    UInt8(PrimitiveArray<u8>),
    UInt16(PrimitiveArray<u16>),
    UInt32(PrimitiveArray<u32>),
    UInt64(PrimitiveArray<u64>),
}

impl View for Array {
    type V = ArrayView;

    open spec fn view(&self) -> ArrayView {
        match self {
            Array::Int8(a) => ArrayView::Int8(a@),
            Array::Int16(a) => ArrayView::Int16(a@),
            Array::Int32(a) => ArrayView::Int32(a@),
            Array::Int64(a) => ArrayView::Int64(a@),
            Array::Int128(a) => ArrayView::Int128(a@),
            Array::UInt8(a) => ArrayView::UInt8(a@),
            Array::UInt16(a) => ArrayView::UInt16(a@),
            Array::UInt32(a) => ArrayView::UInt32(a@),
            Array::UInt64(a) => ArrayView::UInt64(a@),
        }
    }
}

impl Array {
    /// The array inside is well formed.
    pub open spec fn wf(&self) -> bool {
        match self {
            Array::Int8(a) => a.wf(),
            Array::Int16(a) => a.wf(),
            Array::Int32(a) => a.wf(),
            Array::Int64(a) => a.wf(),
            Array::Int128(a) => a.wf(),
            Array::UInt8(a) => a.wf(),
            Array::UInt16(a) => a.wf(),
            Array::UInt32(a) => a.wf(),
            Array::UInt64(a) => a.wf(),
        }
    }

    /// The logical type.
    pub fn data_type(&self) -> (r: &DataType)
        ensures
            *r == self@.data_type(),
    {
        match self {
            Array::Int8(a) => a.data_type(),
            Array::Int16(a) => a.data_type(),
            Array::Int32(a) => a.data_type(),
            Array::Int64(a) => a.data_type(),
            Array::Int128(a) => a.data_type(),
            Array::UInt8(a) => a.data_type(),
            Array::UInt16(a) => a.data_type(),
            Array::UInt32(a) => a.data_type(),
            Array::UInt64(a) => a.data_type(),
        }
    }

    /// The number of slots.
    pub fn len(&self) -> (r: usize)
        ensures
            r == self@.len(),
    {
        match self {
            Array::Int8(a) => a.len(),
            Array::Int16(a) => a.len(),
            Array::Int32(a) => a.len(),
            Array::Int64(a) => a.len(),
            Array::Int128(a) => a.len(),
            Array::UInt8(a) => a.len(),
            Array::UInt16(a) => a.len(),
            Array::UInt32(a) => a.len(),
            Array::UInt64(a) => a.len(),
        }
    }
}

/// Well-formed arrays of one logical type have one element type, except that
/// no array stores floating-point elements.
pub proof fn lemma_same_type_same_variant(lhs: &Array, rhs: &Array)
    requires
        lhs.wf(),
        rhs.wf(),
        lhs@.data_type() == rhs@.data_type(),
    ensures
        match (lhs@, rhs@) {
            (ArrayView::Int8(_), ArrayView::Int8(_)) => true,
            (ArrayView::Int16(_), ArrayView::Int16(_)) => true,
            (ArrayView::Int32(_), ArrayView::Int32(_)) => true,
            (ArrayView::Int64(_), ArrayView::Int64(_)) => true,
            (ArrayView::Int128(_), ArrayView::Int128(_)) => true,
            (ArrayView::UInt8(_), ArrayView::UInt8(_)) => true,
            (ArrayView::UInt16(_), ArrayView::UInt16(_)) => true,
            (ArrayView::UInt32(_), ArrayView::UInt32(_)) => true,
            (ArrayView::UInt64(_), ArrayView::UInt64(_)) => true,
            _ => false,
        },
        !(lhs@.data_type() is Float16 || lhs@.data_type() is Float32 || lhs@.data_type()
            is Float64),
{
}

} // verus!
