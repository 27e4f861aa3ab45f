use crate::interop_read_only_span::InteropReadOnlySpan;
use vstd::prelude::*;

verus! {

/// Native-owned contiguous buffer whose ownership can cross the boundary in
/// either direction. It is created and destroyed by exactly one matching pair
/// of operations; destroying consumes the array by value, so a second destroy
/// of the same array is impossible within the language.
pub struct InteropArray<T> {
    items: Vec<T>,
}

impl<T> View for InteropArray<T> {
    type V = Seq<T>;

    closed spec fn view(&self) -> Seq<T> {
        self.items@
    }
}

impl<T> InteropArray<T> {
    /// The boundary indexes arrays with 32-bit signed integers, so a
    /// well-formed array never exceeds that range.
    pub open spec fn wf(&self) -> bool {
        self@.len() <= i32::MAX
    }

    pub fn len(&self) -> (r: i32)
        requires
            self.wf(),
        ensures
            r == self@.len(),
    {
        self.items.len() as i32
    }

    /// Destroy the array, freeing its buffer. Consumes the array: it cannot
    /// be read, written or destroyed again afterwards.
    pub fn destroy(self) {
    }

    /// Borrow the current contents as a contiguous read-only view.
    pub fn as_slice(&self) -> (r: &[T])
        ensures
            r@ == self@,
    {
        self.items.as_slice()
    }

    /// Borrow the current contents as a span; reflects the current length and
    /// copies nothing.
    pub fn as_span(&self) -> (r: InteropReadOnlySpan<'_, T>)
        ensures
            r@ == self@,
    {
        let s = self.items.as_slice();
        let r = InteropReadOnlySpan::from(s);
        proof {
            crate::interop_read_only_span::lemma_span_of_slice(s);
        }
        r
    }
}

impl<T: Copy> InteropArray<T> {
    /// Allocate an owned buffer of `length` elements, each caller-initialized
    /// to `fill`.
    pub fn new(length: i32, fill: T) -> (r: Self)
        requires
            0 <= length,
        ensures
            r.wf(),
            r@.len() == length as int,
            forall|i: int| 0 <= i < length as int ==> r@[i] == fill,
    {
        let n = length as usize;
        let mut items: Vec<T> = Vec::new();
        let mut i: usize = 0;
        while i < n
            invariant
                i <= n,
                n == length as int,
                items@.len() == i as int,
                forall|k: int| 0 <= k < i as int ==> items@[k] == fill,
            decreases n - i,
        {
            items.push(fill);
            i = i + 1;
        }
        InteropArray { items }
    }

    /// Read the element at `index`; the index must be in bounds (an
    /// out-of-bounds index is a contract violation, not a recoverable error).
    pub fn read(&self, index: i32) -> (r: T)
        requires
            0 <= index < self@.len(),
        ensures
            r == self@[index as int],
    {
        self.items[index as usize]
    }

    /// Write `value` at `index`; the index must be in bounds.
    pub fn write(&mut self, index: i32, value: T)
        requires
            0 <= index < old(self)@.len(),
        ensures
            final(self)@ == old(self)@.update(index as int, value),
    {
        self.items.set(index as usize, value);
    }

    /// Bounds-checked read: returns the element exactly when `index` lies in
    /// `[0, length)`, and `None` otherwise — never a wrong-looking value.
    pub fn try_read(&self, index: i32) -> (r: Option<T>)
        ensures
            0 <= index < self@.len() ==> r == Some(self@[index as int]),
            !(0 <= index < self@.len()) ==> r is None,
    {
        if 0 <= index && (index as usize) < self.items.len() {
            Some(self.items[index as usize])
        } else {
            None
        }
    }

    /// Bounds-checked write: updates and returns true exactly when `index`
    /// lies in `[0, length)`; otherwise leaves the array unchanged.
    pub fn try_write(&mut self, index: i32, value: T) -> (r: bool)
        ensures
            0 <= index < old(self)@.len() ==> r && final(self)@ == old(self)@.update(
                index as int,
                value,
            ),
            !(0 <= index < old(self)@.len()) ==> !r && final(self)@ == old(self)@,
    {
        if 0 <= index && (index as usize) < self.items.len() {
            self.items.set(index as usize, value);
            true
        } else {
            false
        }
    }
}

/// Law: a write followed by a read of the same index returns the written
/// value, stated over the sequence model that `write` and `read` ensure.
pub proof fn lemma_write_then_read<T>(s: Seq<T>, index: int, value: T)
    requires
        0 <= index < s.len(),
    ensures
        s.update(index, value)[index] == value,
        s.update(index, value).len() == s.len(),
{
}

/// Test-support entry point: build an array of `length` elements whose value
/// at each index is that index.
pub fn interop_interop_array_test_unmanaged_create(length: i32) -> (r: InteropArray<i32>)
    requires
        0 <= length,
    ensures
        r.wf(),
        r@.len() == length as int,
        forall|i: int| 0 <= i < length as int ==> r@[i] == i as i32,
{
    let mut array = InteropArray::new(length, 0i32);
    let mut i: i32 = 0;
    while i < length
        invariant
            0 <= i <= length,
            array.wf(),
            array@.len() == length as int,
            forall|k: int| 0 <= k < i as int ==> array@[k] == k as i32,
        decreases length - i,
    {
        array.write(i, i);
        i = i + 1;
    }
    array
}

/// Test-support entry point: take ownership of the array back and free it.
pub fn interop_interop_array_test_unmanaged_destroy(array: InteropArray<i32>) {
    array.destroy();
}

/// Test-support entry point: read one element; the index must be in bounds.
pub fn interop_interop_array_test_unmanaged_read(array: &InteropArray<i32>, index: i32) -> (r: i32)
    requires
        0 <= index < array@.len(),
    ensures
        r == array@[index as int],
{
    array.read(index)
}

/// Test-support entry point: write one element; the index must be in bounds.
pub fn interop_interop_array_test_unmanaged_write(array: &mut InteropArray<i32>, index: i32, value: i32)
    requires
        0 <= index < old(array)@.len(),
    ensures
        final(array)@ == old(array)@.update(index as int, value),
{
    array.write(index, value)
}

} // verus!
