//! The channel-layout record: a layout tag and a channel bitmap, a 32-bit
//! description count, then that many channel descriptions.

use vstd::prelude::*;
use crate::core_audio_types::AudioChannelFlags;
use crate::core_audio_types::AudioChannelLabel;
use crate::core_audio_types::AudioChannelLayoutTag;
use crate::core_audio_types::AudioChannelBitmap;
use crate::vla::INLINE_WORDS;
use crate::vla::RecordShape;
use crate::vla::VariableLengthArray;
use crate::vla::fresh_record;

verus! {

/// The coordinates of a channel read as left/right, back/front and
/// down/up offsets.  Each coordinate is the bit pattern of the API's
/// 32-bit floating-point value; this crate carries the bits through
/// unchanged.
#[derive(Clone, Copy, PartialEq, Eq, Structural, Debug)]
pub struct AudioChannelRectangularCoordinates {
    pub left_right: u32,
    pub back_front: u32,
    pub down_up: u32,
}

/// The coordinates of a channel read as azimuth, elevation and distance,
/// each kept as the bit pattern of the API's 32-bit floating-point value.
#[derive(Clone, Copy, PartialEq, Eq, Structural, Debug)]
pub struct AudioChannelSphericalCoordinates {
    pub azimuth: u32,
    pub elevation: u32,
    pub distance: u32,
}

/// Describes one channel: its label, flags saying how to read the
/// coordinates, and the three coordinate values as bit patterns.
#[derive(Clone, Copy, PartialEq, Eq, Structural, Debug)]
pub struct AudioChannelDescription {
    pub channel_label: AudioChannelLabel,
    pub channel_flags: AudioChannelFlags,
    /// Bit patterns of the three 32-bit floating-point coordinates.
    pub coord0: u32,
    pub coord1: u32,
    pub coord2: u32,
}

impl AudioChannelDescription {
    /// The five words the description occupies in the record.
    pub open spec fn words(self) -> Seq<u32> {
        seq![self.channel_label.0, self.channel_flags.0, self.coord0, self.coord1, self.coord2]
    }

    pub open spec fn coords(self) -> (u32, u32, u32) {
        (self.coord0, self.coord1, self.coord2)
    }

    /// A description with the given label, flags and coordinate bits.
    pub fn new(
        channel_label: AudioChannelLabel,
        channel_flags: AudioChannelFlags,
        coords: (u32, u32, u32),
    ) -> (r: AudioChannelDescription)
        ensures
            r.channel_label == channel_label,
            r.channel_flags == channel_flags,
            r.coords() == coords,
    {
        AudioChannelDescription {
            channel_label,
            channel_flags,
            coord0: coords.0,
            coord1: coords.1,
            coord2: coords.2,
        }
    }

    /// The coordinates read as rectangular, exactly when the flags say
    /// they are rectangular.
    pub fn rectangular_coordinate(&self) -> (r: Option<AudioChannelRectangularCoordinates>)
        ensures
            r is Some <==> self.channel_flags.0 & AudioChannelFlags::RECTANGULAR_COORDINATES
                == AudioChannelFlags::RECTANGULAR_COORDINATES,
            match r {
                Some(c) => c.left_right == self.coords().0 && c.back_front == self.coords().1
                    && c.down_up == self.coords().2,
                None => true,
            },
    {
        if self.channel_flags.contains(AudioChannelFlags(AudioChannelFlags::RECTANGULAR_COORDINATES)) {
            Some(AudioChannelRectangularCoordinates {
                left_right: self.coord0,
                back_front: self.coord1,
                down_up: self.coord2,
            })
        } else {
            None
        }
    }

    /// The coordinates read as spherical, exactly when the flags say they
    /// are spherical.
    pub fn spherical_coordinate(&self) -> (r: Option<AudioChannelSphericalCoordinates>)
        ensures
            r is Some <==> self.channel_flags.0 & AudioChannelFlags::SPHERICAL_COORDINATES
                == AudioChannelFlags::SPHERICAL_COORDINATES,
            match r {
                Some(c) => c.azimuth == self.coords().0 && c.elevation == self.coords().1
                    && c.distance == self.coords().2,
                None => true,
            },
    {
        if self.channel_flags.contains(AudioChannelFlags(AudioChannelFlags::SPHERICAL_COORDINATES)) {
            Some(AudioChannelSphericalCoordinates {
                azimuth: self.coord0,
                elevation: self.coord1,
                distance: self.coord2,
            })
        } else {
            None
        }
    }
}

/// The description read back from five record words.
pub open spec fn description_of_words(s: Seq<u32>) -> AudioChannelDescription {
    AudioChannelDescription {
        channel_label: AudioChannelLabel(s[0]),
        channel_flags: AudioChannelFlags(s[1]),
        coord0: s[2],
        coord1: s[3],
        coord2: s[4],
    }
}

/// The shape of the channel-layout record: a 12-byte header of tag,
/// bitmap and description count, then 20 bytes per description.
pub open spec fn channel_layout_shape() -> RecordShape {
    RecordShape { header_bytes: 12, count_offset: 8, item_bytes: 20 }
}

/// A channel layout laid out as the hardware API's record: a tag, a
/// bitmap and a run of channel descriptions whose length is fixed at
/// construction.
pub struct AudioChannelLayout {
    vla: VariableLengthArray,
}

impl AudioChannelLayout {
    pub closed spec fn vla(self) -> VariableLengthArray {
        self.vla
    }

    pub open spec fn wf(self) -> bool {
        &&& self.vla().wf()
        &&& self.vla().shape() == channel_layout_shape()
    }

    /// The channel descriptions the record holds.
    pub open spec fn descriptions(self) -> Seq<AudioChannelDescription> {
        Seq::new(self.vla().count(), |i: int| description_of_words(self.vla().item(i as nat)))
    }

    /// The layout tag stored in the header.
    pub open spec fn tag(self) -> AudioChannelLayoutTag {
        AudioChannelLayoutTag(self.vla().header()[0])
    }

    /// The channel bitmap stored in the header.
    pub open spec fn bitmap(self) -> AudioChannelBitmap {
        AudioChannelBitmap(self.vla().header()[1])
    }

    pub open spec fn is_inline(self) -> bool {
        self.vla().is_inline()
    }

    /// Builds a layout with `len` zeroed channel descriptions, the
    /// use-channel-descriptions tag and an empty bitmap.
    pub fn with_len(len: usize) -> (r: AudioChannelLayout)
        requires
            len <= u32::MAX,
            12 + (len as int) * 20 <= usize::MAX,
        ensures
            r.wf(),
            r.descriptions().len() == len,
            forall|i: int|
                0 <= i < len ==> r.descriptions()[i] == description_of_words(
                    seq![0u32, 0u32, 0u32, 0u32, 0u32],
                ),
            r.tag().0 == 0,
            r.bitmap().0 == 0,
            r.is_inline() <==> channel_layout_shape().total_words(len as nat) <= INLINE_WORDS,
    {
        let shape = RecordShape { header_bytes: 12, count_offset: 8, item_bytes: 20 };
        let vla = VariableLengthArray::with_len(shape, len as u32);
        let r = AudioChannelLayout { vla };
        proof {
            lemma_fresh_layout(r, len as u32);
        }
        r
    }

    /// The number of channel descriptions, read fresh from the record's
    /// count field.
    pub fn description_count(&self) -> (n: usize)
        requires
            self.wf(),
        ensures
            n == self.descriptions().len(),
    {
        self.vla.len()
    }

    /// Description `i` of the layout.
    pub fn get(&self, i: usize) -> (d: AudioChannelDescription)
        requires
            self.wf(),
            i < self.descriptions().len(),
        ensures
            d == self.descriptions()[i as int],
    {
        let w0 = self.vla.item_word(i, 0);
        let w1 = self.vla.item_word(i, 1);
        let w2 = self.vla.item_word(i, 2);
        let w3 = self.vla.item_word(i, 3);
        let w4 = self.vla.item_word(i, 4);
        AudioChannelDescription {
            channel_label: AudioChannelLabel(w0),
            channel_flags: AudioChannelFlags(w1),
            coord0: w2,
            coord1: w3,
            coord2: w4,
        }
    }

    /// Overwrites description `i`.  The header and the other descriptions
    /// stay as they were.
    pub fn set(&mut self, i: usize, d: AudioChannelDescription)
        requires
            old(self).wf(),
            i < old(self).descriptions().len(),
        ensures
            final(self).wf(),
            final(self).descriptions() == old(self).descriptions().update(i as int, d),
            final(self).tag() == old(self).tag(),
            final(self).bitmap() == old(self).bitmap(),
            final(self).is_inline() == old(self).is_inline(),
    {
        let mut words: Vec<u32> = Vec::new();
        words.push(d.channel_label.0);
        words.push(d.channel_flags.0);
        words.push(d.coord0);
        words.push(d.coord1);
        words.push(d.coord2);
        proof {
            assert(words@ =~= d.words());
        }
        self.vla.write_item(i, &words);
        proof {
            assert(description_of_words(d.words()) == d);
            assert(self.descriptions() =~= old(self).descriptions().update(i as int, d));
        }
    }

    /// All the descriptions, copied out in order.
    pub fn channel_descriptions(&self) -> (r: Vec<AudioChannelDescription>)
        requires
            self.wf(),
        ensures
            r@ == self.descriptions(),
    {
        let n = self.description_count();
        let mut r: Vec<AudioChannelDescription> = Vec::new();
        let mut i: usize = 0;
        while i < n
            invariant
                self.wf(),
                n == self.descriptions().len(),
                i <= n,
                r@ == self.descriptions().take(i as int),
            decreases n - i,
        {
            let d = self.get(i);
            r.push(d);
            proof {
                assert(r@ =~= self.descriptions().take(i + 1));
            }
            i = i + 1;
        }
        proof {
            assert(r@ =~= self.descriptions());
        }
        r
    }

    /// Writes the layout tag.  The count and the descriptions stay as
    /// they were.
    pub fn set_tag(&mut self, tag: AudioChannelLayoutTag)
        requires
            old(self).wf(),
        ensures
            final(self).wf(),
            final(self).tag() == tag,
            final(self).bitmap() == old(self).bitmap(),
            final(self).descriptions() == old(self).descriptions(),
            final(self).is_inline() == old(self).is_inline(),
    {
        self.vla.set_header_word(0, tag.0);
        proof {
            assert(self.descriptions() =~= old(self).descriptions());
        }
    }

    /// Writes the channel bitmap.  The count and the descriptions stay as
    /// they were.
    pub fn set_bitmap(&mut self, bitmap: AudioChannelBitmap)
        requires
            old(self).wf(),
        ensures
            final(self).wf(),
            final(self).bitmap() == bitmap,
            final(self).tag() == old(self).tag(),
            final(self).descriptions() == old(self).descriptions(),
            final(self).is_inline() == old(self).is_inline(),
    {
        self.vla.set_header_word(1, bitmap.0);
        proof {
            assert(self.descriptions() =~= old(self).descriptions());
        }
    }
}

/// A fresh record of `len` zeroed items decodes to `len` zeroed
/// descriptions under a zero tag and an empty bitmap.
proof fn lemma_fresh_layout(r: AudioChannelLayout, len: u32)
    requires
        r.wf(),
        r.vla().count() == len,
        r.vla().record() == fresh_record(channel_layout_shape(), len),
    ensures
        r.descriptions().len() == len,
        forall|i: int|
            0 <= i < len ==> r.descriptions()[i] == description_of_words(
                seq![0u32, 0u32, 0u32, 0u32, 0u32],
            ),
        r.tag().0 == 0,
        r.bitmap().0 == 0,
{
    let shape = channel_layout_shape();
    crate::vla::lemma_shape_arith(shape, len as nat);
    assert(r.vla().header() =~= fresh_record(shape, len).take(shape.header_words()));
    assert forall|i: int| 0 <= i < len implies r.descriptions()[i] == description_of_words(
        seq![0u32, 0u32, 0u32, 0u32, 0u32],
    ) by {
        crate::vla::lemma_elem_arith(shape, len as nat, i as nat);
        let item = r.vla().item(i as nat);
        assert(item =~= fresh_record(shape, len).subrange(
            shape.elem_offset_words(i as nat),
            shape.elem_offset_words(i as nat) + shape.item_words(),
        ));
        assert(item =~= seq![0u32, 0u32, 0u32, 0u32, 0u32]);
    }
}

} // verus!
