use vstd::prelude::*;
use vstd::arithmetic::div_mod::lemma_div_by_multiple;
use core::marker::PhantomData;
use crate::dirtybits::{DirtyBits, MAX_BITS};
use crate::glbuffer::{Buffer, BufferTarget};
use crate::coalesce::{coalesce_dirty, is_coalesced, lemma_coalesced_unique};

verus! {

/// The type that could be the item of a buffer vector.
pub trait BufferVecItem: Copy + Sized {
}

impl<T: Copy + Sized> BufferVecItem for T {
}

/// What both buffer vectors offer: the buffer object behind them, the
/// number of valid items and the number the allocation holds.
pub trait BufferVec<T: BufferVecItem>: Sized {
    spec fn buffer_of(&self) -> Buffer;

    spec fn len_of(&self) -> nat;

    spec fn capacity_of(&self) -> nat;

    /// Get the underlying `Buffer`
    fn get_buffer(&self) -> (r: &Buffer)
        ensures
            *r == self.buffer_of(),
    ;

    /// Get the number of valid items
    fn len(&self) -> (r: usize)
        ensures
            r == self.len_of(),
    ;

    /// Get the number of items the allocation holds
    fn capacity(&self) -> (r: usize)
        ensures
            r == self.capacity_of(),
    ;

    /// Check if no item is valid
    fn is_empty(&self) -> (r: bool)
        ensures
            r == (self.len_of() == 0),
    ;
}

/// The size in bytes of one item.
pub open spec fn item_size<T>() -> nat {
    vstd::layout::size_of::<T>()
}

/// A typed view of a buffer object with no cache: it knows how many items
/// are populated and how many the buffer object can hold. Each read or write
/// of an item is a device operation made by the caller.
#[derive(Debug)]
pub struct BufferVecStatic<T: BufferVecItem> {
    buffer: Buffer,
    num_items: usize,
    capacity: usize,
    item: PhantomData<T>,
}

impl<T: BufferVecItem> BufferVecStatic<T> {
    pub closed spec fn spec_buffer(&self) -> Buffer {
        self.buffer
    }

    pub closed spec fn spec_len(&self) -> nat {
        self.num_items as nat
    }

    pub closed spec fn spec_capacity(&self) -> nat {
        self.capacity as nat
    }

    /// The capacity is what the buffer object's byte size holds, and the
    /// populated items fit in it.
    pub open spec fn wf(&self) -> bool {
        &&& item_size::<T>() > 0
        &&& self.spec_capacity() == self.spec_buffer().spec_size() as nat / item_size::<T>()
        &&& self.spec_len() <= self.spec_capacity()
    }

    /// Get the internal name
    pub fn get_name(&self) -> (r: u32)
        ensures
            r == self.spec_buffer().spec_name(),
    {
        self.buffer.get_name()
    }

    /// Wrap `buffer`: the capacity is its byte size over the item size, and no
    /// item is populated yet.
    pub fn new(buffer: Buffer) -> (r: Self)
        requires
            item_size::<T>() > 0,
        ensures
            r.wf(),
            r.spec_buffer() == buffer,
            r.spec_len() == 0,
            r.spec_capacity() == buffer.spec_size() as nat / item_size::<T>(),
    {
        let capacity = buffer.size() / core::mem::size_of::<T>();
        BufferVecStatic { buffer, num_items: 0, capacity, item: PhantomData }
    }

    /// Get the underlying `Buffer`
    pub fn get_buffer(&self) -> (r: &Buffer)
        ensures
            *r == self.spec_buffer(),
    {
        &self.buffer
    }

    /// Get the default binding target of the buffer
    pub fn get_target(&self) -> (r: BufferTarget)
        ensures
            r == self.spec_buffer().spec_target(),
    {
        self.buffer.get_target()
    }

    /// Set the default binding target of the buffer
    pub fn set_target(&mut self, target: BufferTarget)
        ensures
            final(self).spec_buffer().spec_target() == target,
            final(self).spec_buffer().spec_name() == old(self).spec_buffer().spec_name(),
            final(self).spec_buffer().spec_size() == old(self).spec_buffer().spec_size(),
            final(self).spec_buffer().spec_usage() == old(self).spec_buffer().spec_usage(),
            final(self).spec_len() == old(self).spec_len(),
            final(self).spec_capacity() == old(self).spec_capacity(),
    {
        self.buffer.set_target(target)
    }

    /// Record that the buffer object was replaced by the one named `name`,
    /// which holds the same contents.
    pub fn set_name(&mut self, name: u32)
        ensures
            final(self).spec_buffer().spec_name() == name,
            final(self).spec_buffer().spec_target() == old(self).spec_buffer().spec_target(),
            final(self).spec_buffer().spec_size() == old(self).spec_buffer().spec_size(),
            final(self).spec_buffer().spec_usage() == old(self).spec_buffer().spec_usage(),
            final(self).spec_len() == old(self).spec_len(),
            final(self).spec_capacity() == old(self).spec_capacity(),
    {
        let size = self.buffer.size();
        self.buffer.resize(size, name)
    }

    /// Get the number of populated items
    pub fn len(&self) -> (r: usize)
        ensures
            r == self.spec_len(),
    {
        self.num_items
    }

    /// Get the number of items the buffer object can hold
    pub fn capacity(&self) -> (r: usize)
        ensures
            r == self.spec_capacity(),
    {
        self.capacity
    }

    /// Check if no item is populated
    pub fn is_empty(&self) -> (r: bool)
        ensures
            r == (self.spec_len() == 0),
    {
        self.num_items == 0
    }

    /// The byte offset and byte length of the `len` items starting at
    /// `start_index`, the range a device read or write of them maps.
    pub fn byte_range(&self, start_index: usize, len: usize) -> (r: (usize, usize))
        requires
            self.wf(),
            start_index + len <= self.spec_capacity(),
        ensures
            r.0 == start_index * item_size::<T>(),
            r.1 == len * item_size::<T>(),
            r.0 + r.1 <= self.spec_buffer().spec_size(),
    {
        let item_bytes = core::mem::size_of::<T>();
        proof {
            vstd::arithmetic::div_mod::lemma_fundamental_div_mod(
                self.buffer.spec_size() as int,
                item_bytes as int,
            );
            vstd::arithmetic::div_mod::lemma_mod_bound(
                self.buffer.spec_size() as int,
                item_bytes as int,
            );
            vstd::arithmetic::mul::lemma_mul_inequality(
                (start_index + len) as int,
                self.capacity as int,
                item_bytes as int,
            );
            vstd::arithmetic::mul::lemma_mul_is_commutative(
                item_bytes as int,
                self.capacity as int,
            );
            vstd::arithmetic::mul::lemma_mul_is_distributive_add_other_way(
                item_bytes as int,
                start_index as int,
                len as int,
            );
            vstd::arithmetic::mul::lemma_mul_inequality(
                start_index as int,
                (start_index + len) as int,
                item_bytes as int,
            );
            vstd::arithmetic::mul::lemma_mul_inequality(
                len as int,
                (start_index + len) as int,
                item_bytes as int,
            );
        }
        (start_index * item_bytes, len * item_bytes)
    }

    /// Set the number of populated items to `new_len`. Returns whether the
    /// buffer object must be reallocated, which is when `new_len` items do
    /// not fit in it; the new object holds exactly `new_len` items, the
    /// old contents first and then copies of the fill value.
    pub fn resize(&mut self, new_len: usize) -> (r: bool)
        requires
            old(self).wf(),
            new_len * item_size::<T>() <= usize::MAX,
        ensures
            final(self).wf(),
            r == (new_len > old(self).spec_capacity()),
            final(self).spec_len() == new_len,
            r ==> final(self).spec_capacity() == new_len,
            r ==> final(self).spec_buffer().spec_size() == new_len * item_size::<T>(),
            !r ==> final(self).spec_capacity() == old(self).spec_capacity(),
            !r ==> final(self).spec_buffer() == old(self).spec_buffer(),
            final(self).spec_buffer().spec_name() == old(self).spec_buffer().spec_name(),
            final(self).spec_buffer().spec_target() == old(self).spec_buffer().spec_target(),
            final(self).spec_buffer().spec_usage() == old(self).spec_buffer().spec_usage(),
    {
        let item_bytes = core::mem::size_of::<T>();
        if new_len > self.capacity {
            let name = self.buffer.get_name();
            self.buffer.resize(new_len * item_bytes, name);
            proof {
                lemma_div_by_multiple(new_len as int, item_bytes as int);
            }
            self.capacity = new_len;
            self.num_items = new_len;
            true
        } else {
            self.num_items = new_len;
            false
        }
    }

    /// Make the capacity exactly the number of populated items. Returns
    /// whether the buffer object must be reallocated to that size, which is
    /// when the capacity was larger.
    pub fn shrink_to_fit(&mut self) -> (r: bool)
        requires
            old(self).wf(),
        ensures
            final(self).wf(),
            r == (old(self).spec_capacity() > old(self).spec_len()),
            final(self).spec_len() == old(self).spec_len(),
            final(self).spec_capacity() == old(self).spec_len(),
            r ==> final(self).spec_buffer().spec_size() == old(self).spec_len() * item_size::<T>(),
            !r ==> final(self).spec_buffer() == old(self).spec_buffer(),
            final(self).spec_buffer().spec_name() == old(self).spec_buffer().spec_name(),
            final(self).spec_buffer().spec_target() == old(self).spec_buffer().spec_target(),
            final(self).spec_buffer().spec_usage() == old(self).spec_buffer().spec_usage(),
    {
        let item_bytes = core::mem::size_of::<T>();
        if self.capacity > self.num_items {
            let name = self.buffer.get_name();
            proof {
                vstd::arithmetic::div_mod::lemma_fundamental_div_mod(
                    self.buffer.spec_size() as int,
                    item_bytes as int,
                );
                vstd::arithmetic::mul::lemma_mul_inequality(
                    self.num_items as int,
                    self.capacity as int,
                    item_bytes as int,
                );
                vstd::arithmetic::mul::lemma_mul_is_commutative(
                    item_bytes as int,
                    self.capacity as int,
                );
                vstd::arithmetic::div_mod::lemma_mod_bound(
                    self.buffer.spec_size() as int,
                    item_bytes as int,
                );
                lemma_div_by_multiple(self.num_items as int, item_bytes as int);
            }
            self.buffer.resize(self.num_items * item_bytes, name);
            self.capacity = self.num_items;
            true
        } else {
            false
        }
    }
}


/// One contiguous device write that a flush asks for: `data` goes to the
/// items starting at index `start`.
#[derive(Debug)]
pub struct BufferWrite<T> {
    pub start: usize,
    pub data: Vec<T>,
}

/// Index of the first item a write covers.
pub open spec fn write_first<T>(w: BufferWrite<T>) -> int {
    w.start as int
}

/// Index of the last item a write covers.
pub open spec fn write_last<T>(w: BufferWrite<T>) -> int {
    w.start + w.data@.len() - 1
}

/// The span of items a write covers, first and last.
pub open spec fn write_spans<T>(ws: Seq<BufferWrite<T>>) -> Seq<(usize, usize)> {
    Seq::new(ws.len(), |k: int| (ws[k].start, (write_last(ws[k])) as usize))
}

/// Each write carries the mirror's items over the range it covers.
pub open spec fn writes_match<T>(mirror: Seq<T>, ws: Seq<BufferWrite<T>>) -> bool {
    forall|k: int|
        0 <= k < ws.len() ==> #[trigger] ws[k].data@ == mirror.subrange(
            write_first(ws[k]),
            write_first(ws[k]) + ws[k].data@.len(),
        )
}

/// The device contents after one write.
pub open spec fn apply_write<T>(dev: Seq<T>, w: BufferWrite<T>) -> Seq<T> {
    Seq::new(
        dev.len(),
        |i: int|
            if write_first(w) <= i <= write_last(w) {
                w.data@[i - write_first(w)]
            } else {
                dev[i]
            },
    )
}

/// The device contents after the writes, in order.
pub open spec fn apply_writes<T>(dev: Seq<T>, ws: Seq<BufferWrite<T>>) -> Seq<T>
    decreases ws.len(),
{
    if ws.len() == 0 {
        dev
    } else {
        apply_write(apply_writes(dev, ws.drop_last()), ws.last())
    }
}

/// A buffer vector with a full copy of the device contents in system memory
/// (the mirror) and one dirty flag per item. Reads and writes touch only the
/// mirror; `flush` hands back the writes that bring the device up to date.
#[derive(Debug)]
pub struct BufferVecDynamic<T: BufferVecItem> {
    buffer: BufferVecStatic<T>,
    cache: Vec<T>,
    cache_modified_bitmap: DirtyBits,
    cache_modified: bool,
}

impl<T: BufferVecItem> BufferVecDynamic<T> {
    pub closed spec fn spec_static(&self) -> BufferVecStatic<T> {
        self.buffer
    }

    pub closed spec fn mirror(&self) -> Seq<T> {
        self.cache@
    }

    pub closed spec fn dirty(&self) -> Seq<bool> {
        self.cache_modified_bitmap@
    }

    pub closed spec fn modified(&self) -> bool {
        self.cache_modified
    }

    pub open spec fn spec_len(&self) -> nat {
        self.spec_static().spec_len()
    }

    pub open spec fn spec_capacity(&self) -> nat {
        self.spec_static().spec_capacity()
    }

    /// No item below the length is dirty.
    pub open spec fn is_clean(&self) -> bool {
        forall|i: int| 0 <= i < self.spec_len() ==> !#[trigger] self.dirty()[i]
    }

    /// The mirror and the flags have one entry per slot, at least one per
    /// populated item and at most one per item of capacity; no flag beyond
    /// the length is set, and none at all while the aggregate flag is clear.
    pub open spec fn wf(&self) -> bool {
        &&& self.spec_static().wf()
        &&& self.mirror().len() == self.dirty().len()
        &&& self.spec_len() <= self.mirror().len() <= self.spec_capacity()
        &&& self.mirror().len() <= MAX_BITS
        &&& forall|i: int| self.spec_len() <= i < self.dirty().len() ==> !#[trigger] self.dirty()[i]
        &&& !self.modified() ==> self.is_clean()
    }

    /// What a flush from `a` to `b` that returned `ws` guarantees.
    pub open spec fn flush_post(a: Self, b: Self, ws: Seq<BufferWrite<T>>) -> bool {
        &&& b.wf()
        &&& b.spec_static() == a.spec_static()
        &&& b.mirror() == a.mirror()
        &&& !b.modified()
        &&& b.is_clean()
        &&& Self::flush_writes(a, ws)
        &&& !a.modified() ==> b.dirty() == a.dirty()
    }

    /// `ws` are the writes a flush of `a` asks for: the dirty items below
    /// the length coalesced into non-empty spans, each carrying the
    /// mirror's items; none when nothing was written since the last flush.
    pub open spec fn flush_writes(a: Self, ws: Seq<BufferWrite<T>>) -> bool {
        &&& is_coalesced(a.dirty(), a.spec_len() as int, write_spans(ws))
        &&& writes_match(a.mirror(), ws)
        &&& forall|k: int|
            0 <= k < ws.len() ==> 0 < (#[trigger] ws[k]).data@.len() && ws[k].start
                + ws[k].data@.len() <= a.spec_len()
        &&& !a.modified() ==> ws.len() == 0
    }

    /// Get the internal name
    pub fn get_name(&self) -> (r: u32)
        ensures
            r == self.spec_static().spec_buffer().spec_name(),
    {
        self.buffer.get_name()
    }

    /// Wrap `buffer`, whose full contents, `capacity` items read in one bulk
    /// read, are `contents`. Nothing is dirty.
    pub fn new(buffer: BufferVecStatic<T>, contents: Vec<T>) -> (r: Self)
        requires
            buffer.wf(),
            contents@.len() == buffer.spec_capacity(),
            buffer.spec_capacity() <= MAX_BITS,
        ensures
            r.wf(),
            r.spec_static() == buffer,
            r.mirror() == contents@,
            !r.modified(),
            r.dirty() == Seq::new(contents@.len(), |_i: int| false),
    {
        let mut bits = DirtyBits::new();
        bits.resize(contents.len(), false);
        let r = BufferVecDynamic {
            buffer,
            cache: contents,
            cache_modified_bitmap: bits,
            cache_modified: false,
        };
        proof {
            assert(r.dirty() =~= Seq::new(r.mirror().len(), |_i: int| false));
        }
        r
    }

    /// Record that the device allocation was replaced by the buffer object
    /// named `name`, which holds the same contents.
    pub fn set_name(&mut self, name: u32)
        requires
            old(self).wf(),
        ensures
            final(self).wf(),
            final(self).spec_static().spec_buffer().spec_name() == name,
            final(self).spec_static().spec_buffer().spec_size() == old(
                self,
            ).spec_static().spec_buffer().spec_size(),
            final(self).spec_len() == old(self).spec_len(),
            final(self).spec_capacity() == old(self).spec_capacity(),
            final(self).mirror() == old(self).mirror(),
            final(self).dirty() == old(self).dirty(),
            final(self).modified() == old(self).modified(),
    {
        self.buffer.set_name(name)
    }

    /// Get the underlying static view
    pub fn get_static(&self) -> (r: &BufferVecStatic<T>)
        ensures
            *r == self.spec_static(),
    {
        &self.buffer
    }

    /// Get the underlying `Buffer`
    pub fn get_buffer(&self) -> (r: &Buffer)
        ensures
            *r == self.spec_static().spec_buffer(),
    {
        self.buffer.get_buffer()
    }

    /// Get the default binding target of the buffer
    pub fn get_target(&self) -> (r: BufferTarget)
        ensures
            r == self.spec_static().spec_buffer().spec_target(),
    {
        self.buffer.get_target()
    }

    /// Get the number of logically valid items
    pub fn len(&self) -> (r: usize)
        ensures
            r == self.spec_len(),
    {
        self.buffer.len()
    }

    /// Get the number of items the device allocation holds
    pub fn capacity(&self) -> (r: usize)
        ensures
            r == self.spec_capacity(),
    {
        self.buffer.capacity()
    }

    /// Check if no item is valid
    pub fn is_empty(&self) -> (r: bool)
        ensures
            r == (self.spec_len() == 0),
    {
        self.buffer.is_empty()
    }

    /// Whether some item was written since the last flush.
    pub fn is_modified(&self) -> (r: bool)
        ensures
            r == self.modified(),
    {
        self.cache_modified
    }

    /// Whether the item at `index` was written since the last flush.
    pub fn is_dirty(&self, index: usize) -> (r: bool)
        requires
            self.wf(),
            index < self.spec_len(),
        ensures
            r == self.dirty()[index as int],
    {
        self.cache_modified_bitmap.get(index)
    }

    /// Read the item at `index` from the mirror.
    pub fn get(&self, index: usize) -> (r: T)
        requires
            self.wf(),
            index < self.spec_len(),
        ensures
            r == self.mirror()[index as int],
    {
        self.cache[index]
    }

    /// Write `data` at `index` into the mirror and mark that item dirty.
    pub fn set(&mut self, index: usize, data: &T)
        requires
            old(self).wf(),
            index < old(self).spec_len(),
        ensures
            final(self).wf(),
            final(self).spec_static() == old(self).spec_static(),
            final(self).mirror() == old(self).mirror().update(index as int, *data),
            final(self).dirty() == old(self).dirty().update(index as int, true),
            final(self).modified(),
    {
        self.cache.set(index, *data);
        self.cache_modified = true;
        self.cache_modified_bitmap.set(index, true);
    }

    /// Read `len` items starting at `start_index` from the mirror.
    pub fn get_slice_of_data(&self, start_index: usize, len: usize) -> (r: Vec<T>)
        requires
            self.wf(),
            start_index + len <= self.spec_len(),
        ensures
            r@ == self.mirror().subrange(start_index as int, start_index + len),
    {
        let mut r: Vec<T> = Vec::new();
        let mut i: usize = 0;
        while i < len
            invariant
                self.wf(),
                start_index + len <= self.spec_len(),
                i <= len,
                r@ == self.mirror().subrange(start_index as int, start_index + i),
            decreases len - i,
        {
            r.push(self.cache[start_index + i]);
            i = i + 1;
            proof {
                assert(r@ =~= self.mirror().subrange(start_index as int, start_index + i));
            }
        }
        r
    }

    /// Write `data` into the mirror starting at `start_index` and mark
    /// exactly those items dirty.
    pub fn set_slice_of_data(&mut self, start_index: usize, data: &[T])
        requires
            old(self).wf(),
            start_index + data@.len() <= old(self).spec_len(),
        ensures
            final(self).wf(),
            final(self).spec_static() == old(self).spec_static(),
            final(self).mirror().len() == old(self).mirror().len(),
            final(self).dirty().len() == old(self).dirty().len(),
            forall|i: int|
                0 <= i < old(self).mirror().len() ==> #[trigger] final(self).mirror()[i] == if start_index
                    <= i < start_index + data@.len() {
                    data@[i - start_index]
                } else {
                    old(self).mirror()[i]
                },
            forall|i: int|
                0 <= i < old(self).dirty().len() ==> #[trigger] final(self).dirty()[i] == (
                (start_index <= i < start_index + data@.len()) || old(self).dirty()[i]),
            data@.len() > 0 ==> final(self).modified(),
            data@.len() == 0 ==> final(self).modified() == old(self).modified(),
    {
        let n = data.len();
        if n > 0 {
            self.cache_modified = true;
        }
        let mut k: usize = 0;
        while k < n
            invariant
                self.wf(),
                n == data@.len(),
                start_index + n <= self.spec_len(),
                k <= n,
                n > 0 ==> self.modified(),
                n == 0 ==> self.modified() == old(self).modified(),
                self.spec_static() == old(self).spec_static(),
                self.mirror().len() == old(self).mirror().len(),
                self.dirty().len() == old(self).dirty().len(),
                forall|i: int|
                    0 <= i < old(self).mirror().len() ==> #[trigger] self.mirror()[i] == if start_index
                        <= i < start_index + k {
                        data@[i - start_index]
                    } else {
                        old(self).mirror()[i]
                    },
                forall|i: int|
                    0 <= i < old(self).dirty().len() ==> #[trigger] self.dirty()[i] == (
                    (start_index <= i < start_index + k) || old(self).dirty()[i]),
            decreases n - k,
        {
            self.cache.set(start_index + k, data[k]);
            self.cache_modified_bitmap.set(start_index + k, true);
            k = k + 1;
        }
        proof {
            if !self.modified() {
                assert forall|i: int| 0 <= i < self.spec_len() implies !#[trigger] self.dirty()[i] by {
                    assert(!old(self).dirty()[i]);
                }
            }
        }
    }
}

impl<T: BufferVecItem> BufferVecDynamic<T> {
    /// What a `resize(new_len, value)` from `a` to `b` that returned `r`
    /// guarantees.
    pub open spec fn resize_post(a: Self, new_len: usize, value: T, b: Self, r: bool) -> bool {
        &&& b.wf()
        &&& r == (new_len > a.spec_capacity())
        &&& b.spec_len() == new_len
        &&& b.mirror() == (if new_len <= a.mirror().len() {
            a.mirror().subrange(0, new_len as int)
        } else {
            a.mirror() + Seq::new((new_len - a.mirror().len()) as nat, |_i: int| value)
        })
        &&& r ==> b.spec_capacity() == new_len
        &&& r ==> b.spec_static().spec_buffer().spec_size() == new_len * item_size::<T>()
        &&& r ==> !b.modified()
        &&& r ==> b.dirty() == Seq::new(new_len as nat, |_i: int| false)
        &&& !r ==> b.spec_capacity() == a.spec_capacity()
        &&& !r ==> b.spec_static().spec_buffer() == a.spec_static().spec_buffer()
        &&& !r ==> b.modified() == a.modified()
        &&& !r ==> b.dirty() == (if new_len <= a.dirty().len() {
            a.dirty().subrange(0, new_len as int)
        } else {
            a.dirty() + Seq::new((new_len - a.dirty().len()) as nat, |_i: int| false)
        })
        &&& b.spec_static().spec_buffer().spec_name() == a.spec_static().spec_buffer().spec_name()
        &&& b.spec_static().spec_buffer().spec_target() == a.spec_static().spec_buffer().spec_target()
        &&& b.spec_static().spec_buffer().spec_usage() == a.spec_static().spec_buffer().spec_usage()
    }

    /// What a `shrink_to_fit()` from `a` to `b` that returned `r` guarantees.
    pub open spec fn shrink_post(a: Self, b: Self, r: bool) -> bool {
        &&& b.wf()
        &&& r == (a.spec_capacity() > a.spec_len())
        &&& b.spec_len() == a.spec_len()
        &&& b.spec_capacity() == a.spec_len()
        &&& r ==> b.spec_static().spec_buffer().spec_size() == a.spec_len() * item_size::<T>()
        &&& r ==> b.mirror() == a.mirror().subrange(0, a.spec_len() as int)
        &&& r ==> b.dirty() == Seq::new(a.spec_len(), |_i: int| false)
        &&& r ==> !b.modified()
        &&& !r ==> b.spec_static() == a.spec_static()
        &&& !r ==> b.mirror() == a.mirror()
        &&& !r ==> b.dirty() == a.dirty()
        &&& !r ==> b.modified() == a.modified()
        &&& b.spec_static().spec_buffer().spec_name() == a.spec_static().spec_buffer().spec_name()
        &&& b.spec_static().spec_buffer().spec_target() == a.spec_static().spec_buffer().spec_target()
        &&& b.spec_static().spec_buffer().spec_usage() == a.spec_static().spec_buffer().spec_usage()
    }

    /// Resize to `new_len` items: the mirror is truncated, or extended with
    /// copies of `value`. Returns whether the device allocation must be
    /// reallocated, which is when `new_len` exceeds the capacity; the new
    /// allocation holds exactly `new_len` items, the old contents first and
    /// then copies of `value`, and is taken to agree with the mirror, so all
    /// dirty state is dropped. Otherwise the flags follow the mirror: kept
    /// below `new_len`, clean above the old length.
    pub fn resize(&mut self, new_len: usize, value: T) -> (r: bool)
        requires
            old(self).wf(),
            new_len <= MAX_BITS,
            new_len * item_size::<T>() <= usize::MAX,
        ensures
            Self::resize_post(*old(self), new_len, value, *final(self), r),
    {
        let old_len = self.cache.len();
        if new_len <= old_len {
            self.cache.truncate(new_len);
        } else {
            let mut k: usize = old_len;
            while k < new_len
                invariant
                    old_len <= k <= new_len,
                    old_len == old(self).mirror().len(),
                    self.buffer == old(self).buffer,
                    self.cache_modified_bitmap == old(self).cache_modified_bitmap,
                    self.cache_modified == old(self).cache_modified,
                    self.cache@ == old(self).mirror() + Seq::new(
                        (k - old_len) as nat,
                        |_i: int| value,
                    ),
                decreases new_len - k,
            {
                self.cache.push(value);
                k = k + 1;
                proof {
                    assert(self.cache@ =~= old(self).mirror() + Seq::new(
                        (k - old_len) as nat,
                        |_i: int| value,
                    ));
                }
            }
        }
        let grow = new_len > self.buffer.capacity();
        if grow {
            self.cache_modified_bitmap.clear();
            self.cache_modified_bitmap.resize(new_len, false);
            self.cache_modified = false;
        } else {
            self.cache_modified_bitmap.resize(new_len, false);
        }
        let r = self.buffer.resize(new_len);
        proof {
            if grow {
                assert(self.dirty() =~= Seq::new(new_len as nat, |_i: int| false));
            } else if !self.modified() {
                assert forall|i: int| 0 <= i < self.spec_len() implies !#[trigger] self.dirty()[i] by {
                    if i < old(self).dirty().len() {
                        assert(!old(self).dirty()[i]);
                    }
                }
            }
        }
        r
    }

    /// Make the capacity exactly the length. Returns whether the device
    /// allocation must be reallocated to that size, which is when the
    /// capacity was larger; the mirror is then cut to the length, and, as
    /// the reallocation copies the device contents, all dirty state is
    /// dropped.
    pub fn shrink_to_fit(&mut self) -> (r: bool)
        requires
            old(self).wf(),
        ensures
            Self::shrink_post(*old(self), *final(self), r),
    {
        let n = self.buffer.len();
        if self.buffer.capacity() > n {
            self.cache.truncate(n);
            self.cache_modified_bitmap.clear();
            self.cache_modified_bitmap.resize(n, false);
            self.buffer.shrink_to_fit();
            self.cache_modified = false;
            proof {
                assert(self.dirty() =~= Seq::new(n as nat, |_i: int| false));
            }
            true
        } else {
            false
        }
    }

    /// Give back the static view, flushing first. Returns the view and the
    /// writes that flush asks for, which the caller makes before using the
    /// view.
    pub fn into_static(self) -> (r: (BufferVecStatic<T>, Vec<BufferWrite<T>>))
        requires
            self.wf(),
        ensures
            r.0 == self.spec_static(),
            Self::flush_writes(self, r.1@),
    {
        let mut b = self;
        let writes = b.flush();
        (b.buffer, writes)
    }

    /// Give back the buffer object, flushing first. Returns it and the
    /// writes that flush asks for.
    pub fn into_buffer(self) -> (r: (Buffer, Vec<BufferWrite<T>>))
        requires
            self.wf(),
        ensures
            r.0 == self.spec_static().spec_buffer(),
            Self::flush_writes(self, r.1@),
    {
        let (view, writes) = self.into_static();
        (view.buffer, writes)
    }

    /// Write every dirty item below the length back to the device. Returns
    /// the writes to make, in order: the dirty indices coalesced into runs,
    /// bridging up to `crate::coalesce::MAXIMUM_GAP` clean items, each run carrying the
    /// mirror's items. Afterwards nothing is dirty. When nothing was
    /// written since the last flush, there is no write.
    #[verifier::rlimit(30)]
    pub fn flush(&mut self) -> (r: Vec<BufferWrite<T>>)
        requires
            old(self).wf(),
        ensures
            Self::flush_post(*old(self), *final(self), r@),
    {
        let mut writes: Vec<BufferWrite<T>> = Vec::new();
        if !self.cache_modified {
            proof {
                assert(write_spans(writes@) =~= Seq::<(usize, usize)>::empty());
            }
            return writes;
        }
        let n = self.buffer.len();
        let runs = coalesce_dirty(&self.cache_modified_bitmap, n);
        let mut k: usize = 0;
        while k < runs.len()
            invariant
                self.wf(),
                self == old(self),
                k <= runs@.len(),
                is_coalesced(self.dirty(), n as int, runs@),
                n == self.spec_len(),
                writes@.len() == k,
                forall|j: int|
                    0 <= j < k ==> (#[trigger] writes@[j]).start == runs@[j].0 && writes@[j].data@
                        == self.mirror().subrange(runs@[j].0 as int, runs@[j].1 + 1),
            decreases runs@.len() - k,
        {
            let (first, last) = runs[k];
            let data = self.get_slice_of_data(first, last + 1 - first);
            writes.push(BufferWrite { start: first, data });
            k = k + 1;
        }
        proof {
            assert(write_spans(writes@) =~= runs@);
        }
        let total = self.cache_modified_bitmap.len();
        self.cache_modified_bitmap.clear();
        self.cache_modified_bitmap.resize(total, false);
        self.cache_modified = false;
        writes
    }
}


/// Applying writes that carry `mirror`'s items leaves every item either as
/// it was on the device or equal to the mirror, and every item that a write
/// covers equal to the mirror.
proof fn lemma_apply_writes<T>(dev: Seq<T>, mirror: Seq<T>, ws: Seq<BufferWrite<T>>)
    requires
        writes_match(mirror, ws),
        forall|k: int|
            0 <= k < ws.len() ==> 0 <= write_first(#[trigger] ws[k]) && write_last(ws[k])
                < dev.len() && write_first(ws[k]) + ws[k].data@.len() <= mirror.len(),
    ensures
        apply_writes(dev, ws).len() == dev.len(),
        forall|i: int|
            0 <= i < dev.len() ==> #[trigger] apply_writes(dev, ws)[i] == mirror[i]
                || apply_writes(dev, ws)[i] == dev[i],
        forall|k: int, i: int|
            #![trigger ws[k], apply_writes(dev, ws)[i]]
            0 <= k < ws.len() && write_first(ws[k]) <= i <= write_last(ws[k]) ==> apply_writes(
                dev,
                ws,
            )[i] == mirror[i],
    decreases ws.len(),
{
    if ws.len() > 0 {
        let init = ws.drop_last();
        assert forall|k: int| 0 <= k < init.len() implies #[trigger] init[k].data@ == mirror.subrange(
            write_first(init[k]),
            write_first(init[k]) + init[k].data@.len(),
        ) by {
            assert(init[k] == ws[k]);
        }
        assert forall|k: int| 0 <= k < init.len() implies 0 <= write_first(#[trigger] init[k])
            && write_last(init[k]) < dev.len() && write_first(init[k]) + init[k].data@.len()
            <= mirror.len() by {
            assert(init[k] == ws[k]);
        }
        lemma_apply_writes(dev, mirror, init);
        let prev = apply_writes(dev, init);
        let w = ws.last();
        assert(w == ws[ws.len() - 1]);
        assert(w.data@ == mirror.subrange(write_first(w), write_first(w) + w.data@.len()));
        assert forall|k: int, i: int|
            #![trigger ws[k], apply_writes(dev, ws)[i]]
            0 <= k < ws.len() && write_first(ws[k]) <= i <= write_last(ws[k]) implies apply_writes(
            dev,
            ws,
        )[i] == mirror[i] by {
            if !(write_first(w) <= i <= write_last(w)) {
                assert(init[k] == ws[k]);
                assert(prev[i] == mirror[i]);
            }
        }
    }
}

/// A dirty index below `n` at or after the start of span `j` lies in span
/// `j` or a later one.
proof fn lemma_dirty_is_covered_from(
    dirty: Seq<bool>,
    n: int,
    runs: Seq<(usize, usize)>,
    i: int,
    j: int,
)
    requires
        is_coalesced(dirty, n, runs),
        0 <= i < n,
        dirty[i],
        0 <= j < runs.len(),
        runs[j].0 <= i,
    ensures
        exists|k: int| 0 <= k < runs.len() && (#[trigger] runs[k]).0 <= i <= runs[k].1,
    decreases runs.len() - j,
{
    if i <= runs[j].1 {
        assert(runs[j].0 <= i <= runs[j].1);
    } else if j == runs.len() - 1 {
        assert(!dirty[i]);
    } else if i < runs[j + 1].0 {
        assert(!dirty[i]);
    } else {
        lemma_dirty_is_covered_from(dirty, n, runs, i, j + 1);
    }
}

/// Every dirty index below `n` lies in one of the coalesced spans.
proof fn lemma_dirty_is_covered(dirty: Seq<bool>, n: int, runs: Seq<(usize, usize)>, i: int)
    requires
        is_coalesced(dirty, n, runs),
        0 <= i < n,
        dirty[i],
    ensures
        exists|k: int| 0 <= k < runs.len() && (#[trigger] runs[k]).0 <= i <= runs[k].1,
{
    if runs.len() == 0 || i < runs[0].0 {
        assert(!dirty[i]);
    } else {
        lemma_dirty_is_covered_from(dirty, n, runs, i, 0);
    }
}

impl<T: BufferVecItem> BufferVecDynamic<T> {
    /// `dev` holds the mirror's item at every clean index below the length.
    pub open spec fn agrees_on_clean(self, dev: Seq<T>) -> bool {
        &&& dev.len() >= self.spec_len()
        &&& forall|i: int|
            0 <= i < self.spec_len() && !self.dirty()[i] ==> #[trigger] dev[i] == self.mirror()[i]
    }

    /// Writing items through the mirror keeps unchanged device contents in
    /// agreement on the clean items: every item written becomes dirty.
    pub proof fn lemma_writes_keep_agreement(a: Self, b: Self, dev: Seq<T>)
        requires
            a.agrees_on_clean(dev),
            b.spec_len() == a.spec_len(),
            b.dirty().len() == a.dirty().len(),
            b.mirror().len() == a.mirror().len(),
            forall|i: int|
                0 <= i < a.spec_len() && b.mirror()[i] != a.mirror()[i] ==> #[trigger] b.dirty()[i],
            forall|i: int| 0 <= i < a.spec_len() && a.dirty()[i] ==> #[trigger] b.dirty()[i],
        ensures
            b.agrees_on_clean(dev),
    {
    }

    /// After a flush, making its writes on device contents that agreed with
    /// the mirror on every clean item below the length leaves the device
    /// agreeing with the mirror on every item below the length.
    pub proof fn lemma_flush_syncs_device(a: Self, b: Self, ws: Seq<BufferWrite<T>>, dev: Seq<T>)
        requires
            a.wf(),
            Self::flush_post(a, b, ws),
            a.agrees_on_clean(dev),
        ensures
            apply_writes(dev, ws).len() == dev.len(),
            forall|i: int| 0 <= i < b.spec_len() ==> #[trigger] apply_writes(dev, ws)[i] == b.mirror()[i],
    {
        let n = a.spec_len() as int;
        let spans = write_spans(ws);
        assert forall|k: int| 0 <= k < ws.len() implies 0 <= write_first(#[trigger] ws[k])
            && write_last(ws[k]) < dev.len() && write_first(ws[k]) + ws[k].data@.len()
            <= a.mirror().len() by {
        }
        lemma_apply_writes(dev, a.mirror(), ws);
        assert forall|i: int| 0 <= i < b.spec_len() implies #[trigger] apply_writes(dev, ws)[i]
            == b.mirror()[i] by {
            if a.dirty()[i] {
                lemma_dirty_is_covered(a.dirty(), n, spans, i);
                let k = choose|k: int| 0 <= k < spans.len() && (#[trigger] spans[k]).0 <= i <= spans[k].1;
                assert(spans[k] == (ws[k].start, write_last(ws[k]) as usize));
                assert(write_first(ws[k]) <= i <= write_last(ws[k]));
            }
        }
    }

    /// The writes a flush asks for are determined by the state flushed: the
    /// same spans, carrying the same items.
    #[verifier::rlimit(40)]
    pub proof fn lemma_flush_writes_determined(
        a: Self,
        w1: Seq<BufferWrite<T>>,
        w2: Seq<BufferWrite<T>>,
    )
        requires
            a.wf(),
            Self::flush_writes(a, w1),
            Self::flush_writes(a, w2),
        ensures
            w1.len() == w2.len(),
            forall|k: int|
                0 <= k < w1.len() ==> (#[trigger] w1[k]).start == w2[k].start && w1[k].data@
                    == w2[k].data@,
    {
        lemma_coalesced_unique(a.dirty(), a.spec_len() as int, write_spans(w1), write_spans(w2));
        assert forall|k: int| 0 <= k < w1.len() implies (#[trigger] w1[k]).start == w2[k].start
            && w1[k].data@ == w2[k].data@ by {
            assert(write_spans(w1)[k] == write_spans(w2)[k]);
            assert(0 < w1[k].data@.len() && w1[k].start + w1[k].data@.len() <= a.spec_len());
            assert(0 < w2[k].data@.len() && w2[k].start + w2[k].data@.len() <= a.spec_len());
            assert(w1[k].data@.len() == w2[k].data@.len());
            assert(w1[k].data@ == a.mirror().subrange(
                write_first(w1[k]),
                write_first(w1[k]) + w1[k].data@.len(),
            ));
            assert(w2[k].data@ == a.mirror().subrange(
                write_first(w2[k]),
                write_first(w2[k]) + w2[k].data@.len(),
            ));
        }
    }

    /// A second flush with no write in between has no write to make and
    /// changes nothing.
    pub proof fn lemma_flush_twice(
        a: Self,
        b: Self,
        c: Self,
        first: Seq<BufferWrite<T>>,
        second: Seq<BufferWrite<T>>,
    )
        requires
            Self::flush_post(a, b, first),
            Self::flush_post(b, c, second),
        ensures
            second.len() == 0,
            c.mirror() == b.mirror(),
            c.dirty() == b.dirty(),
            c.spec_static() == b.spec_static(),
    {
    }

    /// A resize beyond the capacity leaves nothing dirty: the next flush
    /// has no write to make.
    pub proof fn lemma_flush_after_growth(
        a: Self,
        new_len: usize,
        value: T,
        b: Self,
        c: Self,
        ws: Seq<BufferWrite<T>>,
    )
        requires
            a.wf(),
            new_len > a.spec_capacity(),
            Self::resize_post(a, new_len, value, b, true),
            Self::flush_post(b, c, ws),
        ensures
            !b.modified(),
            forall|i: int| 0 <= i < b.dirty().len() ==> !#[trigger] b.dirty()[i],
            ws.len() == 0,
            c.mirror() == b.mirror(),
    {
    }

    /// Shrinking after a resize down to `k` below the capacity leaves the
    /// length and the capacity at `k`, and the device allocation at `k`
    /// items.
    pub proof fn lemma_shrink_after_resize_down(
        a: Self,
        k: usize,
        value: T,
        b: Self,
        c: Self,
        r: bool,
    )
        requires
            a.wf(),
            k < a.spec_capacity(),
            Self::resize_post(a, k, value, b, false),
            Self::shrink_post(b, c, r),
        ensures
            r,
            c.spec_len() == k,
            c.spec_capacity() == k,
            c.spec_static().spec_buffer().spec_size() == k * item_size::<T>(),
    {
    }
}

impl<T: BufferVecItem> BufferVec<T> for BufferVecStatic<T> {
    open spec fn buffer_of(&self) -> Buffer {
        self.spec_buffer()
    }

    open spec fn len_of(&self) -> nat {
        self.spec_len()
    }

    open spec fn capacity_of(&self) -> nat {
        self.spec_capacity()
    }

    fn get_buffer(&self) -> (r: &Buffer) {
        BufferVecStatic::get_buffer(self)
    }

    fn len(&self) -> (r: usize) {
        BufferVecStatic::len(self)
    }

    fn capacity(&self) -> (r: usize) {
        BufferVecStatic::capacity(self)
    }

    fn is_empty(&self) -> (r: bool) {
        BufferVecStatic::is_empty(self)
    }
}

impl<T: BufferVecItem> BufferVec<T> for BufferVecDynamic<T> {
    open spec fn buffer_of(&self) -> Buffer {
        self.spec_static().spec_buffer()
    }

    open spec fn len_of(&self) -> nat {
        self.spec_len()
    }

    open spec fn capacity_of(&self) -> nat {
        self.spec_capacity()
    }

    fn get_buffer(&self) -> (r: &Buffer) {
        BufferVecDynamic::get_buffer(self)
    }

    fn len(&self) -> (r: usize) {
        BufferVecDynamic::len(self)
    }

    fn capacity(&self) -> (r: usize) {
        BufferVecDynamic::capacity(self)
    }

    fn is_empty(&self) -> (r: bool) {
        BufferVecDynamic::is_empty(self)
    }
}

} // verus!
