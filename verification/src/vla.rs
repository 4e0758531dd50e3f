//! Variable-length trailing-array records.
//!
//! The audio hardware API lays several of its structs out as a fixed header
//! followed by a run of equally sized elements; the element count sits in a
//! 32-bit word of the header and is the single source of truth for the
//! record's length.  This module owns such a record as a block of 32-bit
//! words, sizes the block from the count with one formula shared by the
//! allocation and the release paths, and offers bounds-checked access to the
//! header and the elements.  Records below the inline capacity live in a
//! fixed-size buffer ([`StackVLA`]); larger ones get a block sized exactly to
//! their count ([`HeapVLA`]); [`BorrowedRecord`] reads a record inside a
//! buffer that someone else owns and never frees or resizes it.

use vstd::prelude::*;
use vstd::arithmetic::div_mod::lemma_fundamental_div_mod;
use vstd::arithmetic::div_mod::lemma_div_multiples_vanish;

verus! {

/// Number of bytes in one storage word, the allocation granularity.
pub const WORD_BYTES: usize = 4;

/// Capacity, in words, of the fixed inline buffer.
pub const INLINE_WORDS: usize = 64;

/// Shape of a trailing-array record.  All sizes are in bytes and must be
/// whole multiples of [`WORD_BYTES`]; a shape that is not word-aligned is
/// rejected at construction rather than padded.
#[derive(Clone, Copy, PartialEq, Eq, Structural, Debug)]
pub struct RecordShape {
    /// Size of the fixed header, including the count word.
    pub header_bytes: usize,
    /// Byte offset of the 32-bit element count within the header.
    pub count_offset: usize,
    /// Size of one trailing element.
    pub item_bytes: usize,
}

impl RecordShape {
    pub open spec fn wf(self) -> bool {
        &&& self.header_bytes % WORD_BYTES == 0
        &&& self.count_offset % WORD_BYTES == 0
        &&& self.item_bytes % WORD_BYTES == 0
        &&& self.count_offset + WORD_BYTES <= self.header_bytes
        &&& self.item_bytes >= WORD_BYTES
    }

    /// Total size in bytes of a record with `n` trailing elements.
    pub open spec fn total_bytes(self, n: nat) -> int {
        self.header_bytes + n * self.item_bytes
    }

    /// Byte offset of element `i`: the header, then `i` whole elements.
    pub open spec fn elem_offset_bytes(self, i: nat) -> int {
        self.header_bytes + i * self.item_bytes
    }

    pub open spec fn header_words(self) -> int {
        self.header_bytes as int / WORD_BYTES as int
    }

    pub open spec fn item_words(self) -> int {
        self.item_bytes as int / WORD_BYTES as int
    }

    pub open spec fn count_word(self) -> int {
        self.count_offset as int / WORD_BYTES as int
    }

    /// Total size in words of a record with `n` trailing elements; the
    /// formula shared by allocation and release.
    pub open spec fn total_words(self, n: nat) -> int {
        self.header_words() + n * self.item_words()
    }

    /// Word offset of element `i`.
    pub open spec fn elem_offset_words(self, i: nat) -> int {
        self.header_words() + i * self.item_words()
    }

    /// Builds a shape, rejecting sizes that are not whole words.
    pub fn new(header_bytes: usize, count_offset: usize, item_bytes: usize) -> (r: Option<RecordShape>)
        ensures
            ({
                let s = RecordShape { header_bytes, count_offset, item_bytes };
                match r {
                    Some(t) => t == s && s.wf(),
                    None => !s.wf(),
                }
            }),
    {
        let s = RecordShape { header_bytes, count_offset, item_bytes };
        if header_bytes % WORD_BYTES == 0 && count_offset % WORD_BYTES == 0
            && item_bytes % WORD_BYTES == 0 && count_offset <= usize::MAX - WORD_BYTES
            && count_offset + WORD_BYTES <= header_bytes && item_bytes >= WORD_BYTES
        {
            Some(s)
        } else {
            None
        }
    }

    /// Word index of the count field.
    fn count_word_index(&self) -> (w: usize)
        requires
            self.wf(),
        ensures
            w == self.count_word(),
    {
        self.count_offset / WORD_BYTES
    }

    /// Number of words a record with `n` elements occupies: the one sizing
    /// formula, used when the block is allocated and again when it is
    /// released.
    pub fn words_for(&self, n: usize) -> (w: usize)
        requires
            self.wf(),
            self.total_bytes(n as nat) <= usize::MAX,
        ensures
            w == self.total_words(n as nat),
    {
        proof {
            lemma_shape_arith(*self, n as nat);
            lemma_div_multiples_vanish(self.total_words(n as nat), WORD_BYTES as int);
        }
        let bytes = self.header_bytes + n * self.item_bytes;
        bytes / WORD_BYTES
    }

    /// Word index where element `i` of a record with `n` elements starts.
    fn elem_word_index(&self, i: usize, n: usize) -> (w: usize)
        requires
            self.wf(),
            i < n,
            self.total_bytes(n as nat) <= usize::MAX,
        ensures
            w == self.elem_offset_words(i as nat),
    {
        proof {
            lemma_shape_arith(*self, n as nat);
            lemma_elem_arith(*self, n as nat, i as nat);
        }
        self.header_bytes / WORD_BYTES + i * (self.item_bytes / WORD_BYTES)
    }
}

/// Word sizes follow byte sizes: each of the byte quantities of a
/// well-formed shape is exactly [`WORD_BYTES`] times its word counterpart.
pub(crate) proof fn lemma_shape_arith(shape: RecordShape, n: nat)
    requires
        shape.wf(),
    ensures
        WORD_BYTES * shape.header_words() == shape.header_bytes,
        WORD_BYTES * shape.item_words() == shape.item_bytes,
        WORD_BYTES * shape.count_word() == shape.count_offset,
        WORD_BYTES * shape.total_words(n) == shape.total_bytes(n),
        shape.count_word() < shape.header_words(),
        shape.item_words() >= 1,
        shape.header_words() <= shape.total_words(n),
        n * shape.item_words() >= 0,
{
    lemma_fundamental_div_mod(shape.header_bytes as int, WORD_BYTES as int);
    lemma_fundamental_div_mod(shape.item_bytes as int, WORD_BYTES as int);
    lemma_fundamental_div_mod(shape.count_offset as int, WORD_BYTES as int);
    let hw = shape.header_words();
    let iw = shape.item_words();
    let cw = shape.count_word();
    assert(WORD_BYTES * (n * iw) == n * (shape.item_bytes as int)) by (nonlinear_arith)
        requires WORD_BYTES * iw == shape.item_bytes;
    assert(n * iw >= 0) by (nonlinear_arith)
        requires iw >= 0;
    assert(cw < hw) by (nonlinear_arith)
        requires
            WORD_BYTES * cw == shape.count_offset,
            WORD_BYTES * hw == shape.header_bytes,
            shape.count_offset + WORD_BYTES <= shape.header_bytes;
}

/// Element `i` lies after the header and, for `i < n`, inside a record of
/// `n` elements.
pub(crate) proof fn lemma_elem_arith(shape: RecordShape, n: nat, i: nat)
    requires
        shape.wf(),
        i < n,
    ensures
        shape.header_words() <= shape.elem_offset_words(i),
        shape.elem_offset_words(i) + shape.item_words() <= shape.total_words(n),
        shape.header_bytes <= shape.elem_offset_bytes(i),
        shape.elem_offset_bytes(i) + shape.item_bytes <= shape.total_bytes(n),
{
    let iw = shape.item_words();
    let ib = shape.item_bytes as int;
    lemma_shape_arith(shape, n);
    assert(i * iw >= 0 && i * iw + iw <= n * iw) by (nonlinear_arith)
        requires iw >= 1, i < n;
    assert(i * ib >= 0 && i * ib + ib <= n * ib) by (nonlinear_arith)
        requires ib >= 1, i < n;
}

/// The element count a block of words stores, read at the shape's count
/// word.
pub open spec fn stored_count(shape: RecordShape, words: Seq<u32>) -> nat {
    words[shape.count_word()] as nat
}

/// A block holds a well-formed record: the shape is sound, the record's
/// total size fits the machine, and the block covers the whole record.
pub open spec fn block_wf(shape: RecordShape, words: Seq<u32>) -> bool {
    &&& shape.wf()
    &&& shape.total_bytes(stored_count(shape, words)) <= usize::MAX
    &&& shape.total_words(stored_count(shape, words)) <= words.len()
}

/// The words of the record itself: the block up to the size the stored
/// count dictates.
pub open spec fn record_view(shape: RecordShape, words: Seq<u32>) -> Seq<u32> {
    words.take(shape.total_words(stored_count(shape, words)))
}

/// The header words of the record.
pub open spec fn header_view(shape: RecordShape, words: Seq<u32>) -> Seq<u32> {
    words.take(shape.header_words())
}

/// The words of element `i`.
pub open spec fn item_view(shape: RecordShape, words: Seq<u32>, i: nat) -> Seq<u32> {
    words.subrange(shape.elem_offset_words(i), shape.elem_offset_words(i) + shape.item_words())
}

/// The record a fresh construction with count `n` holds: every word zero
/// but the count word.
pub open spec fn fresh_record(shape: RecordShape, n: u32) -> Seq<u32> {
    Seq::new(
        shape.total_words(n as nat) as nat,
        |w: int| if w == shape.count_word() { n } else { 0u32 },
    )
}

/// Record storage in the fixed-capacity inline buffer: the buffer's size is
/// [`INLINE_WORDS`] no matter the count, so small records avoid a sized
/// allocation.
pub struct StackVLA {
    shape: RecordShape,
    words: Vec<u32>,
}

/// Record storage sized exactly to the stored count, never larger.
pub struct HeapVLA {
    shape: RecordShape,
    words: Vec<u32>,
}

/// An owned trailing-array record, stored inline when it fits the fixed
/// inline buffer and in an exactly sized block otherwise.  Dropping it
/// releases whichever storage it owns; a record read from memory owned
/// elsewhere is a [`BorrowedRecord`] instead.
pub enum VariableLengthArray {
    Inline(StackVLA),
    Heap(HeapVLA),
}

impl StackVLA {
    pub closed spec fn shape(self) -> RecordShape {
        self.shape
    }

    pub closed spec fn raw(self) -> Seq<u32> {
        self.words@
    }

    pub open spec fn wf(self) -> bool {
        &&& block_wf(self.shape(), self.raw())
        &&& self.raw().len() == INLINE_WORDS
        &&& self.shape().total_words(stored_count(self.shape(), self.raw())) <= INLINE_WORDS
    }
}

impl HeapVLA {
    pub closed spec fn shape(self) -> RecordShape {
        self.shape
    }

    pub closed spec fn raw(self) -> Seq<u32> {
        self.words@
    }

    pub open spec fn wf(self) -> bool {
        &&& block_wf(self.shape(), self.raw())
        &&& self.raw().len() == self.shape().total_words(stored_count(self.shape(), self.raw()))
    }
}

impl VariableLengthArray {
    pub open spec fn shape(self) -> RecordShape {
        match self {
            VariableLengthArray::Inline(s) => s.shape(),
            VariableLengthArray::Heap(h) => h.shape(),
        }
    }

    pub open spec fn raw(self) -> Seq<u32> {
        match self {
            VariableLengthArray::Inline(s) => s.raw(),
            VariableLengthArray::Heap(h) => h.raw(),
        }
    }

    pub open spec fn wf(self) -> bool {
        match self {
            VariableLengthArray::Inline(s) => s.wf(),
            VariableLengthArray::Heap(h) => h.wf(),
        }
    }

    /// The element count, as stored in the header.
    pub open spec fn count(self) -> nat {
        stored_count(self.shape(), self.raw())
    }

    /// The whole record: header words then element words.
    pub open spec fn record(self) -> Seq<u32> {
        record_view(self.shape(), self.raw())
    }

    /// The header words.
    pub open spec fn header(self) -> Seq<u32> {
        header_view(self.shape(), self.raw())
    }

    /// The words of element `i`.
    pub open spec fn item(self, i: nat) -> Seq<u32> {
        item_view(self.shape(), self.raw(), i)
    }

    pub open spec fn is_inline(self) -> bool {
        self matches VariableLengthArray::Inline(_)
    }

    /// Builds an owned record of `len` elements: the header is zeroed, the
    /// count field is set to `len`, and every element starts out zero.  The
    /// record goes to the inline buffer exactly when it fits there.
    pub fn with_len(shape: RecordShape, len: u32) -> (r: VariableLengthArray)
        requires
            shape.wf(),
            shape.total_bytes(len as nat) <= usize::MAX,
        ensures
            r.wf(),
            r.shape() == shape,
            r.count() == len,
            r.record() == fresh_record(shape, len),
            r.header() == Seq::new(shape.header_words() as nat, |k: int| if k == shape.count_word() { len } else { 0u32 }),
            forall|i: nat| i < len ==> r.item(i) == Seq::new(shape.item_words() as nat, |j: int| 0u32),
            r.is_inline() <==> shape.total_words(len as nat) <= INLINE_WORDS,
    {
        proof {
            lemma_shape_arith(shape, len as nat);
        }
        let total = shape.words_for(len as usize);
        let cw = shape.count_word_index();
        if total <= INLINE_WORDS {
            let mut words = zero_words(INLINE_WORDS);
            words[cw] = len;
            let r = VariableLengthArray::Inline(StackVLA { shape, words });
            proof {
                assert(r.record() =~= fresh_record(shape, len));
                lemma_fresh_views(r, len);
            }
            r
        } else {
            let mut words = zero_words(total);
            words[cw] = len;
            let r = VariableLengthArray::Heap(HeapVLA { shape, words });
            proof {
                assert(r.record() =~= fresh_record(shape, len));
                lemma_fresh_views(r, len);
            }
            r
        }
    }

    /// The number of elements, read fresh from the count word of the
    /// header.
    pub fn len(&self) -> (n: usize)
        requires
            self.wf(),
        ensures
            n == self.count(),
    {
        proof {
            lemma_shape_arith(self.shape(), self.count());
        }
        let cw = self.shape_ref().count_word_index();
        let w = match self {
            VariableLengthArray::Inline(s) => s.words[cw],
            VariableLengthArray::Heap(h) => h.words[cw],
        };
        w as usize
    }

    /// The size of the owned storage, in words.
    pub fn storage_words(&self) -> (n: usize)
        requires
            self.wf(),
        ensures
            n == self.raw().len(),
            self.is_inline() ==> n == INLINE_WORDS,
            !self.is_inline() ==> n == self.shape().total_words(self.count()),
    {
        match self {
            VariableLengthArray::Inline(s) => s.words.len(),
            VariableLengthArray::Heap(h) => h.words.len(),
        }
    }

    /// The number of words the release path accounts for: it reads the
    /// count back out of the header and runs the same sizing formula the
    /// construction ran.  For a heap record this equals the words actually
    /// allocated; an inline record gives back its fixed buffer whole.
    pub fn release_words(&self) -> (n: usize)
        requires
            self.wf(),
        ensures
            n == self.shape().total_words(self.count()),
            !self.is_inline() ==> n == self.raw().len(),
    {
        let len = self.len();
        self.shape_ref().words_for(len)
    }

    /// Word `j` of element `i`.
    pub fn item_word(&self, i: usize, j: usize) -> (w: u32)
        requires
            self.wf(),
            i < self.count(),
            j < self.shape().item_words(),
        ensures
            w == self.item(i as nat)[j as int],
    {
        proof {
            lemma_elem_arith(self.shape(), self.count(), i as nat);
        }
        let len = self.len();
        let off = self.shape_ref().elem_word_index(i, len);
        match self {
            VariableLengthArray::Inline(s) => s.words[off + j],
            VariableLengthArray::Heap(h) => {
                // binding the length here lets the index be proved in range
                let total = h.words.len();
                h.words[off + j]
            },
        }
    }

    /// Writes word `j` of element `i`.  The count and every other word of
    /// the record stay as they were.
    pub fn set_item_word(&mut self, i: usize, j: usize, v: u32)
        requires
            old(self).wf(),
            i < old(self).count(),
            j < old(self).shape().item_words(),
        ensures
            final(self).wf(),
            final(self).shape() == old(self).shape(),
            final(self).count() == old(self).count(),
            final(self).is_inline() == old(self).is_inline(),
            final(self).item(i as nat) == old(self).item(i as nat).update(j as int, v),
            forall|k: nat| k < final(self).count() && k != i ==> final(self).item(k) == old(self).item(k),
            final(self).header() == old(self).header(),
    {
        proof {
            lemma_shape_arith(old(self).shape(), old(self).count());
            lemma_elem_arith(old(self).shape(), old(self).count(), i as nat);
        }
        let len = self.len();
        let off = self.shape_ref().elem_word_index(i, len);
        match self {
            VariableLengthArray::Inline(s) => {
                s.words[off + j] = v;
            },
            VariableLengthArray::Heap(h) => {
                h.words[off + j] = v;
            },
        }
        proof {
            lemma_block_update_item(old(self).shape(), old(self).raw(), self.raw(), i as nat, j as nat, v);
        }
    }

    /// Word `k` of the header.
    pub fn header_word(&self, k: usize) -> (w: u32)
        requires
            self.wf(),
            k < self.shape().header_words(),
        ensures
            w == self.header()[k as int],
    {
        proof {
            lemma_shape_arith(self.shape(), self.count());
        }
        let kk = k;
        match self {
            VariableLengthArray::Inline(s) => s.words[kk],
            VariableLengthArray::Heap(h) => h.words[kk],
        }
    }

    /// Writes header word `k`.  The count word is off limits: the count is
    /// set once, at construction, and a record's length never changes in
    /// place.
    pub fn set_header_word(&mut self, k: usize, v: u32)
        requires
            old(self).wf(),
            k < old(self).shape().header_words(),
            k != old(self).shape().count_word(),
        ensures
            final(self).wf(),
            final(self).shape() == old(self).shape(),
            final(self).count() == old(self).count(),
            final(self).is_inline() == old(self).is_inline(),
            final(self).header() == old(self).header().update(k as int, v),
            forall|i: nat| i < final(self).count() ==> final(self).item(i) == old(self).item(i),
    {
        proof {
            lemma_shape_arith(old(self).shape(), old(self).count());
        }
        let kk = k;
        match self {
            VariableLengthArray::Inline(s) => {
                s.words[kk] = v;
            },
            VariableLengthArray::Heap(h) => {
                h.words[kk] = v;
            },
        }
        proof {
            lemma_block_update_header(old(self).shape(), old(self).raw(), self.raw(), k as nat, v);
        }
    }

    /// Copies element `i` out as words.  The result is a pure function of
    /// the record's current contents, so two reads with no write between
    /// them return the same words.
    pub fn read_item(&self, i: usize) -> (r: Vec<u32>)
        requires
            self.wf(),
            i < self.count(),
        ensures
            r@ == self.item(i as nat),
    {
        proof {
            lemma_shape_arith(self.shape(), self.count());
            lemma_elem_arith(self.shape(), self.count(), i as nat);
        }
        let iw = self.shape_ref().item_bytes / WORD_BYTES;
        let mut r: Vec<u32> = Vec::new();
        let mut j: usize = 0;
        while j < iw
            invariant
                self.wf(),
                i < self.count(),
                iw == self.shape().item_words(),
                j <= iw,
                r@ == self.item(i as nat).take(j as int),
            decreases iw - j,
        {
            let w = self.item_word(i, j);
            r.push(w);
            proof {
                lemma_elem_arith(self.shape(), self.count(), i as nat);
                assert(r@ =~= self.item(i as nat).take(j + 1));
            }
            j = j + 1;
        }
        proof {
            assert(r@ =~= self.item(i as nat));
        }
        r
    }

    /// Overwrites element `i` with the given words.
    pub fn write_item(&mut self, i: usize, item: &Vec<u32>)
        requires
            old(self).wf(),
            i < old(self).count(),
            item@.len() == old(self).shape().item_words(),
        ensures
            final(self).wf(),
            final(self).shape() == old(self).shape(),
            final(self).count() == old(self).count(),
            final(self).is_inline() == old(self).is_inline(),
            final(self).item(i as nat) == item@,
            forall|k: nat| k < final(self).count() && k != i ==> final(self).item(k) == old(self).item(k),
            final(self).header() == old(self).header(),
    {
        proof {
            lemma_shape_arith(self.shape(), self.count());
            lemma_elem_arith(self.shape(), self.count(), i as nat);
        }
        let iw = self.shape_ref().item_bytes / WORD_BYTES;
        let mut j: usize = 0;
        while j < iw
            invariant
                old(self).wf(),
                i < old(self).count(),
                self.wf(),
                self.shape() == old(self).shape(),
                self.count() == old(self).count(),
                self.is_inline() == old(self).is_inline(),
                i < self.count(),
                item@.len() == iw,
                iw == self.shape().item_words(),
                j <= iw,
                self.item(i as nat) == item@.take(j as int) + old(self).item(i as nat).skip(j as int),
                forall|k: nat| k < self.count() && k != i ==> self.item(k) == old(self).item(k),
                self.header() == old(self).header(),
            decreases iw - j,
        {
            let v = item[j];
            let ghost prev = *self;
            self.set_item_word(i, j, v);
            proof {
                lemma_elem_arith(self.shape(), self.count(), i as nat);
                assert(self.item(i as nat) == prev.item(i as nat).update(j as int, v));
                assert(prev.item(i as nat) == item@.take(j as int) + old(self).item(i as nat).skip(j as int));
                let lhs = self.item(i as nat);
                let rhs = item@.take(j + 1 as int) + old(self).item(i as nat).skip(j + 1 as int);
                assert(old(self).item(i as nat).len() == iw);
                assert(lhs.len() == iw && rhs.len() == iw);
                assert forall|m: int| 0 <= m < iw implies lhs[m] == rhs[m] by {
                    if m < j {
                        assert(lhs[m] == item@[m]);
                        assert(rhs[m] == item@[m]);
                    } else if m == j {
                        assert(lhs[m] == v);
                        assert(rhs[m] == item@[j as int]);
                    } else {
                        assert(lhs[m] == old(self).item(i as nat)[m]);
                        assert(rhs[m] == old(self).item(i as nat).skip(j + 1 as int)[m - (j + 1)]);
                    }
                }
                assert(lhs =~= rhs);
            }
            j = j + 1;
        }
        proof {
            lemma_elem_arith(self.shape(), self.count(), i as nat);
            assert(self.item(i as nat) =~= item@);
        }
    }

    /// Shared access to the shape.
    fn shape_ref(&self) -> (s: &RecordShape)
        ensures
            *s == self.shape(),
    {
        match self {
            VariableLengthArray::Inline(s) => &s.shape,
            VariableLengthArray::Heap(h) => &h.shape,
        }
    }
}

/// A run of `n` zero words.
fn zero_words(n: usize) -> (r: Vec<u32>)
    ensures
        r@ == Seq::new(n as nat, |w: int| 0u32),
{
    let mut r: Vec<u32> = Vec::new();
    let mut k: usize = 0;
    while k < n
        invariant
            k <= n,
            r@ == Seq::new(k as nat, |w: int| 0u32),
        decreases n - k,
    {
        r.push(0);
        proof {
            assert(r@ =~= Seq::new((k + 1) as nat, |w: int| 0u32));
        }
        k = k + 1;
    }
    r
}

/// A record that holds a fresh block reads back as a zeroed header with
/// the count in its count word, and zeroed elements.
proof fn lemma_fresh_views(v: VariableLengthArray, len: u32)
    requires
        v.wf(),
        v.count() == len,
        v.record() == fresh_record(v.shape(), len),
    ensures
        v.header() == Seq::new(v.shape().header_words() as nat, |k: int| if k == v.shape().count_word() { len } else { 0u32 }),
        forall|i: nat| i < len ==> v.item(i) == Seq::new(v.shape().item_words() as nat, |j: int| 0u32),
{
    let shape = v.shape();
    lemma_shape_arith(shape, len as nat);
    assert forall|k: int| 0 <= k < shape.header_words() implies v.header()[k] == v.record()[k] by {}
    assert(v.header() =~= Seq::new(shape.header_words() as nat, |k: int| if k == shape.count_word() { len } else { 0u32 }));
    assert forall|i: nat| i < len implies v.item(i) == Seq::new(shape.item_words() as nat, |j: int| 0u32) by {
        lemma_elem_arith(shape, len as nat, i);
        let off = shape.elem_offset_words(i);
        assert forall|j: int| 0 <= j < shape.item_words() implies v.item(i)[j] == 0u32 by {
            assert(v.item(i)[j] == v.raw()[off + j]);
            assert(v.record()[off + j] == v.raw()[off + j]);
            assert(off + j != shape.count_word());
        }
        assert(v.item(i) =~= Seq::new(shape.item_words() as nat, |j: int| 0u32));
    }
}

/// Updating one word inside element `i` leaves the count, the header and
/// every other element of the block as they were.
proof fn lemma_block_update_item(
    shape: RecordShape,
    before: Seq<u32>,
    after: Seq<u32>,
    i: nat,
    j: nat,
    v: u32,
)
    requires
        block_wf(shape, before),
        i < stored_count(shape, before),
        j < shape.item_words(),
        after == before.update(shape.elem_offset_words(i) + j, v),
    ensures
        block_wf(shape, after),
        after.len() == before.len(),
        stored_count(shape, after) == stored_count(shape, before),
        item_view(shape, after, i) == item_view(shape, before, i).update(j as int, v),
        forall|k: nat|
            k < stored_count(shape, before) && k != i ==> item_view(shape, after, k) == item_view(
                shape,
                before,
                k,
            ),
        header_view(shape, after) == header_view(shape, before),
{
    let n = stored_count(shape, before);
    let p = shape.elem_offset_words(i) + j;
    lemma_shape_arith(shape, n);
    lemma_elem_arith(shape, n, i);
    assert(stored_count(shape, after) == n);
    assert(item_view(shape, after, i) =~= item_view(shape, before, i).update(j as int, v));
    assert(header_view(shape, after) =~= header_view(shape, before));
    assert forall|k: nat| k < n && k != i implies item_view(shape, after, k) == item_view(
        shape,
        before,
        k,
    ) by {
        lemma_elem_arith(shape, n, k);
        lemma_elems_disjoint(shape, i, k);
        assert(item_view(shape, after, k) =~= item_view(shape, before, k));
    }
}

/// Updating a header word other than the count word leaves the count and
/// every element as they were.
proof fn lemma_block_update_header(
    shape: RecordShape,
    before: Seq<u32>,
    after: Seq<u32>,
    k: nat,
    v: u32,
)
    requires
        block_wf(shape, before),
        k < shape.header_words(),
        k != shape.count_word(),
        after == before.update(k as int, v),
    ensures
        block_wf(shape, after),
        after.len() == before.len(),
        stored_count(shape, after) == stored_count(shape, before),
        header_view(shape, after) == header_view(shape, before).update(k as int, v),
        forall|i: nat|
            i < stored_count(shape, before) ==> item_view(shape, after, i) == item_view(
                shape,
                before,
                i,
            ),
{
    let n = stored_count(shape, before);
    lemma_shape_arith(shape, n);
    assert(stored_count(shape, after) == n);
    assert(header_view(shape, after) =~= header_view(shape, before).update(k as int, v));
    assert forall|i: nat| i < n implies item_view(shape, after, i) == item_view(
        shape,
        before,
        i,
    ) by {
        lemma_elem_arith(shape, n, i);
        assert(item_view(shape, after, i) =~= item_view(shape, before, i));
    }
}

/// Two distinct elements occupy disjoint word ranges.
proof fn lemma_elems_disjoint(shape: RecordShape, i: nat, k: nat)
    requires
        shape.wf(),
        i != k,
    ensures
        i < k ==> shape.elem_offset_words(i) + shape.item_words() <= shape.elem_offset_words(k),
        k < i ==> shape.elem_offset_words(k) + shape.item_words() <= shape.elem_offset_words(i),
{
    let iw = shape.item_words();
    lemma_shape_arith(shape, 0);
    assert(i < k ==> i * iw + iw <= k * iw) by (nonlinear_arith)
        requires iw >= 1;
    assert(k < i ==> k * iw + iw <= i * iw) by (nonlinear_arith)
        requires iw >= 1;
}

/// The address layout of a record is byte exact: element `i` starts
/// `header_bytes + i * item_bytes` bytes past the record's start, and the
/// word index the accessors use points at exactly that byte offset.
pub proof fn lemma_element_layout(shape: RecordShape, i: nat)
    requires
        shape.wf(),
    ensures
        shape.elem_offset_bytes(i) == shape.header_bytes + i * shape.item_bytes,
        WORD_BYTES * shape.elem_offset_words(i) == shape.elem_offset_bytes(i),
{
    lemma_shape_arith(shape, i);
    let iw = shape.item_words();
    assert(WORD_BYTES * (i * iw) == i * (shape.item_bytes as int)) by (nonlinear_arith)
        requires WORD_BYTES * iw == shape.item_bytes;
}

/// A caller-owned buffer can host a record the given shape describes if the
/// buffer covers the header, the record's total size fits the machine, and
/// the buffer covers the whole record the stored count dictates.
pub open spec fn borrowable(shape: RecordShape, words: Seq<u32>) -> bool {
    &&& shape.header_words() <= words.len()
    &&& shape.total_bytes(stored_count(shape, words)) <= usize::MAX
    &&& shape.total_words(stored_count(shape, words)) <= words.len()
}

/// A read-only view of a trailing-array record inside a buffer that the
/// caller owns.  The view holds a shared borrow, has no mutating method and
/// no drop glue, so constructing it and dropping it leave the buffer's
/// contents and ownership untouched.
pub struct BorrowedRecord<'a> {
    shape: RecordShape,
    words: &'a Vec<u32>,
}

impl<'a> BorrowedRecord<'a> {
    pub closed spec fn shape(self) -> RecordShape {
        self.shape
    }

    pub closed spec fn raw(self) -> Seq<u32> {
        self.words@
    }

    pub open spec fn wf(self) -> bool {
        block_wf(self.shape(), self.raw())
    }

    /// The element count, as stored in the buffer.
    pub open spec fn count(self) -> nat {
        stored_count(self.shape(), self.raw())
    }

    /// The record's words: the prefix of the buffer the stored count
    /// dictates.
    pub open spec fn record(self) -> Seq<u32> {
        record_view(self.shape(), self.raw())
    }

    /// The header words.
    pub open spec fn header(self) -> Seq<u32> {
        header_view(self.shape(), self.raw())
    }

    /// The words of element `i`.
    pub open spec fn item(self, i: nat) -> Seq<u32> {
        item_view(self.shape(), self.raw(), i)
    }

    /// Lays a view over a caller-owned buffer after checking, at this
    /// boundary, that the buffer really covers the record its count word
    /// announces.  No storage changes hands: the buffer is borrowed, never
    /// freed.
    pub fn from_words(shape: RecordShape, words: &'a Vec<u32>) -> (r: Option<BorrowedRecord<'a>>)
        requires
            shape.wf(),
        ensures
            r is Some <==> borrowable(shape, words@),
            match r {
                Some(b) => b.wf() && b.shape() == shape && b.raw() == words@,
                None => true,
            },
    {
        proof {
            lemma_shape_arith(shape, 0);
        }
        let hw = shape.header_bytes / WORD_BYTES;
        if words.len() < hw {
            return None;
        }
        let cw = shape.count_word_index();
        let n = words[cw] as usize;
        proof {
            lemma_shape_arith(shape, n as nat);
            lemma_fundamental_div_mod((usize::MAX - shape.header_bytes) as int, shape.item_bytes as int);
        }
        if n > (usize::MAX - shape.header_bytes) / shape.item_bytes {
            proof {
                let q = (usize::MAX - shape.header_bytes) as int / shape.item_bytes as int;
                assert(n * shape.item_bytes > usize::MAX - shape.header_bytes) by (nonlinear_arith)
                    requires
                        n > q,
                        shape.item_bytes >= 1,
                        (usize::MAX - shape.header_bytes) as int == q * shape.item_bytes + (
                        usize::MAX - shape.header_bytes) as int % shape.item_bytes as int,
                        0 <= (usize::MAX - shape.header_bytes) as int % shape.item_bytes as int,
                        ((usize::MAX - shape.header_bytes) as int % shape.item_bytes as int) < shape.item_bytes;
            }
            return None;
        }
        proof {
            let q = (usize::MAX - shape.header_bytes) as int / shape.item_bytes as int;
            assert(n * shape.item_bytes <= usize::MAX - shape.header_bytes) by (nonlinear_arith)
                requires
                    n <= q,
                    shape.item_bytes >= 1,
                    (usize::MAX - shape.header_bytes) as int == q * shape.item_bytes + (usize::MAX
                        - shape.header_bytes) as int % shape.item_bytes as int,
                    0 <= (usize::MAX - shape.header_bytes) as int % shape.item_bytes as int,
                    ((usize::MAX - shape.header_bytes) as int % shape.item_bytes as int) < shape.item_bytes;
        }
        let total = shape.words_for(n);
        if words.len() < total {
            return None;
        }
        Some(BorrowedRecord { shape, words })
    }

    /// The number of elements, read fresh from the count word.
    pub fn len(&self) -> (n: usize)
        requires
            self.wf(),
        ensures
            n == self.count(),
    {
        proof {
            lemma_shape_arith(self.shape(), self.count());
        }
        let cw = self.shape.count_word_index();
        self.words[cw] as usize
    }

    /// Word `j` of element `i`.
    pub fn item_word(&self, i: usize, j: usize) -> (w: u32)
        requires
            self.wf(),
            i < self.count(),
            j < self.shape().item_words(),
        ensures
            w == self.item(i as nat)[j as int],
    {
        proof {
            lemma_elem_arith(self.shape(), self.count(), i as nat);
        }
        let len = self.len();
        let off = self.shape.elem_word_index(i, len);
        // binding the length here lets the index be proved in range
        let total = self.words.len();
        self.words[off + j]
    }

    /// Copies element `i` out as words.
    pub fn read_item(&self, i: usize) -> (r: Vec<u32>)
        requires
            self.wf(),
            i < self.count(),
        ensures
            r@ == self.item(i as nat),
    {
        proof {
            lemma_shape_arith(self.shape(), self.count());
            lemma_elem_arith(self.shape(), self.count(), i as nat);
        }
        let iw = self.shape.item_bytes / WORD_BYTES;
        let mut r: Vec<u32> = Vec::new();
        let mut j: usize = 0;
        while j < iw
            invariant
                self.wf(),
                i < self.count(),
                iw == self.shape().item_words(),
                j <= iw,
                r@ == self.item(i as nat).take(j as int),
            decreases iw - j,
        {
            let w = self.item_word(i, j);
            r.push(w);
            proof {
                lemma_elem_arith(self.shape(), self.count(), i as nat);
                assert(r@ =~= self.item(i as nat).take(j + 1));
            }
            j = j + 1;
        }
        proof {
            assert(r@ =~= self.item(i as nat));
        }
        r
    }

    /// Word `k` of the header.
    pub fn header_word(&self, k: usize) -> (w: u32)
        requires
            self.wf(),
            k < self.shape().header_words(),
        ensures
            w == self.header()[k as int],
    {
        proof {
            lemma_shape_arith(self.shape(), self.count());
        }
        self.words[k]
    }
}

/// The storage strategy never shows through the accessors: two
/// well-formed records of the same shape whose record words agree — one
/// inline, one on the heap, or any other mix — agree in count, header and
/// every element.
pub proof fn lemma_storage_transparent(a: VariableLengthArray, b: VariableLengthArray)
    requires
        a.wf(),
        b.wf(),
        a.shape() == b.shape(),
        a.record() == b.record(),
    ensures
        a.count() == b.count(),
        a.header() == b.header(),
        forall|i: nat| i < a.count() ==> a.item(i) == b.item(i),
{
    let shape = a.shape();
    lemma_shape_arith(shape, a.count());
    lemma_shape_arith(shape, b.count());
    assert(a.record()[shape.count_word()] == a.raw()[shape.count_word()]);
    assert(b.record()[shape.count_word()] == b.raw()[shape.count_word()]);
    assert(a.header() =~= b.header());
    assert forall|i: nat| i < a.count() implies a.item(i) == b.item(i) by {
        lemma_elem_arith(shape, a.count(), i);
        let off = shape.elem_offset_words(i);
        assert forall|j: int| 0 <= j < shape.item_words() implies a.item(i)[j] == b.item(i)[j] by {
            assert(a.record()[off + j] == a.raw()[off + j]);
            assert(b.record()[off + j] == b.raw()[off + j]);
        }
        assert(a.item(i) =~= b.item(i));
    }
}

/// Allocation and release account for the same storage: for any
/// well-formed heap record, the size recomputed from the stored count
/// equals the size of the block the construction allocated.
pub proof fn lemma_release_matches_allocation(v: VariableLengthArray)
    requires
        v.wf(),
        !v.is_inline(),
    ensures
        v.raw().len() == v.shape().total_words(v.count()),
        WORD_BYTES * v.raw().len() == v.shape().total_bytes(v.count()),
{
    lemma_shape_arith(v.shape(), v.count());
}

} // verus!
