//! The buffer-list record: a 32-bit buffer count followed by that many
//! audio buffers, each naming a channel count, a byte size and the address
//! of its data block.

use vstd::prelude::*;
use crate::vla::INLINE_WORDS;
use crate::vla::RecordShape;
use crate::vla::VariableLengthArray;
use crate::vla::fresh_record;

verus! {

/// One buffer of audio data.  The data block itself lives outside the
/// record; the record holds its address, kept here as a plain integer.
#[derive(Clone, Copy, PartialEq, Eq, Structural, Debug)]
pub struct AudioBuffer {
    /// The number of interleaved channels in the buffer.
    pub num_channels: u32,
    /// The size in bytes of the buffer's data block.
    pub data_byte_size: u32,
    /// The address of the data block.
    pub data_address: u64,
}

impl AudioBuffer {
    /// The four words the buffer occupies in the record: channel count,
    /// byte size, then the address split low word first.
    pub open spec fn words(self) -> Seq<u32> {
        seq![
            self.num_channels,
            self.data_byte_size,
            (self.data_address & 0xFFFF_FFFF) as u32,
            (self.data_address >> 32) as u32,
        ]
    }

    /// The number of interleaved channels in the buffer.
    pub fn num_channels(&self) -> (n: usize)
        ensures
            n == self.num_channels,
    {
        self.num_channels as usize
    }
}

/// The buffer read back from four record words.
pub open spec fn buffer_of_words(s: Seq<u32>) -> AudioBuffer {
    AudioBuffer {
        num_channels: s[0],
        data_byte_size: s[1],
        data_address: s[2] as u64 | ((s[3] as u64) << 32),
    }
}

/// The shape of the buffer-list record: an 8-byte header whose first word
/// is the buffer count, then 16 bytes per buffer.
pub open spec fn buffer_list_shape() -> RecordShape {
    RecordShape { header_bytes: 8, count_offset: 0, item_bytes: 16 }
}

/// Reading the words a buffer writes gives the buffer back.
proof fn lemma_buffer_words_round_trip(b: AudioBuffer)
    ensures
        buffer_of_words(b.words()) == b,
{
    let a = b.data_address;
    assert(((a & 0xFFFF_FFFF) as u32) as u64 | ((((a >> 32) as u32) as u64) << 32) == a)
        by (bit_vector);
}

/// A list of [`AudioBuffer`]s laid out as the hardware API's buffer-list
/// record.  The list's length is fixed at construction; buffers are read
/// and written through bounds-checked accessors.
pub struct AudioBufferList {
    vla: VariableLengthArray,
}

impl AudioBufferList {
    pub closed spec fn vla(self) -> VariableLengthArray {
        self.vla
    }

    pub open spec fn wf(self) -> bool {
        &&& self.vla().wf()
        &&& self.vla().shape() == buffer_list_shape()
    }

    /// The buffers the record holds.
    pub open spec fn buffers(self) -> Seq<AudioBuffer> {
        Seq::new(self.vla().count(), |i: int| buffer_of_words(self.vla().item(i as nat)))
    }

    pub open spec fn is_inline(self) -> bool {
        self.vla().is_inline()
    }

    /// Builds a list of `len` buffers, each zeroed.
    pub fn with_len(len: usize) -> (r: AudioBufferList)
        requires
            len <= u32::MAX,
            8 + (len as int) * 16 <= usize::MAX,
        ensures
            r.wf(),
            r.buffers().len() == len,
            forall|i: int|
                0 <= i < len ==> r.buffers()[i] == (AudioBuffer {
                    num_channels: 0,
                    data_byte_size: 0,
                    data_address: 0,
                }),
            r.is_inline() <==> buffer_list_shape().total_words(len as nat) <= INLINE_WORDS,
    {
        let shape = RecordShape { header_bytes: 8, count_offset: 0, item_bytes: 16 };
        let vla = VariableLengthArray::with_len(shape, len as u32);
        let r = AudioBufferList { vla };
        proof {
            lemma_fresh_buffers(r, len as u32);
        }
        r
    }

    /// The number of buffers, read fresh from the record's count field.
    pub fn buffer_count(&self) -> (n: usize)
        requires
            self.wf(),
        ensures
            n == self.buffers().len(),
    {
        self.vla.len()
    }

    /// Buffer `i` of the list.
    pub fn get(&self, i: usize) -> (b: AudioBuffer)
        requires
            self.wf(),
            i < self.buffers().len(),
        ensures
            b == self.buffers()[i as int],
    {
        let w0 = self.vla.item_word(i, 0);
        let w1 = self.vla.item_word(i, 1);
        let w2 = self.vla.item_word(i, 2);
        let w3 = self.vla.item_word(i, 3);
        AudioBuffer {
            num_channels: w0,
            data_byte_size: w1,
            data_address: w2 as u64 | ((w3 as u64) << 32),
        }
    }

    /// Overwrites buffer `i`.  The count and the other buffers stay as
    /// they were.
    pub fn set(&mut self, i: usize, b: AudioBuffer)
        requires
            old(self).wf(),
            i < old(self).buffers().len(),
        ensures
            final(self).wf(),
            final(self).buffers() == old(self).buffers().update(i as int, b),
            final(self).is_inline() == old(self).is_inline(),
    {
        let lo = (b.data_address & 0xFFFF_FFFF) as u32;
        let hi = (b.data_address >> 32) as u32;
        let mut words: Vec<u32> = Vec::new();
        words.push(b.num_channels);
        words.push(b.data_byte_size);
        words.push(lo);
        words.push(hi);
        proof {
            assert(words@ =~= b.words());
        }
        self.vla.write_item(i, &words);
        proof {
            lemma_buffer_words_round_trip(b);
            assert(self.buffers() =~= old(self).buffers().update(i as int, b));
        }
    }
}

/// A fresh record of `len` zeroed items decodes to `len` zeroed buffers.
proof fn lemma_fresh_buffers(r: AudioBufferList, len: u32)
    requires
        r.wf(),
        r.vla().count() == len,
        r.vla().record() == fresh_record(buffer_list_shape(), len),
    ensures
        r.buffers().len() == len,
        forall|i: int|
            0 <= i < len ==> r.buffers()[i] == (AudioBuffer {
                num_channels: 0,
                data_byte_size: 0,
                data_address: 0,
            }),
{
    let shape = buffer_list_shape();
    assert forall|i: int| 0 <= i < len implies r.buffers()[i] == (AudioBuffer {
        num_channels: 0,
        data_byte_size: 0,
        data_address: 0,
    }) by {
        crate::vla::lemma_element_layout(shape, i as nat);
        let item = r.vla().item(i as nat);
        assert(item =~= fresh_record(shape, len).subrange(
            shape.elem_offset_words(i as nat),
            shape.elem_offset_words(i as nat) + shape.item_words(),
        ));
        assert(item[0] == 0u32 && item[1] == 0u32 && item[2] == 0u32 && item[3] == 0u32);
        assert((0u32 as u64 | ((0u32 as u64) << 32)) == 0u64) by (bit_vector);
    }
}

} // verus!
