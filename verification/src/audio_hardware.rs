//! Plain value types of the hardware object model: object identifiers and
//! the stream descriptions that are not tied to a native call.

use vstd::prelude::*;

verus! {

/// Identifies one object of the hardware's object tree.  The identifier
/// zero names no object and marks the end of an object listing.
#[derive(Clone, Copy, PartialEq, Eq, Structural, Debug)]
pub struct AudioObject(pub u32);

impl AudioObject {
    /// The identifier that names no object.
    pub const UNKNOWN: u32 = 0;

    /// Whether this identifier names an object at all.
    pub fn is_known(&self) -> (r: bool)
        ensures
            r == (self.0 != 0),
    {
        self.0 != 0
    }
}

/// The objects of a listing up to its end marker: the longest prefix of
/// `v` that holds no unknown object.  A native call fills a fixed-size
/// table and leaves the tail at the unknown identifier; this returns the
/// objects actually listed.
pub fn audio_object_iter(v: &[AudioObject]) -> (r: Vec<AudioObject>)
    ensures
        r@.len() <= v@.len(),
        forall|i: int| 0 <= i < r@.len() ==> r@[i] == v@[i] && v@[i].0 != 0,
        r@.len() < v@.len() ==> v@[r@.len() as int].0 == 0,
{
    let mut r: Vec<AudioObject> = Vec::new();
    let mut i: usize = 0;
    while i < v.len()
        invariant
            i <= v@.len(),
            r@.len() == i,
            forall|k: int| 0 <= k < i ==> r@[k] == v@[k] && v@[k].0 != 0,
        decreases v@.len() - i,
    {
        let o = v[i];
        if o.0 == 0 {
            return r;
        }
        r.push(o);
        i = i + 1;
    }
    r
}

/// Which way samples flow through a stream.
#[derive(Clone, Copy, Debug, PartialEq, Eq, Structural)]
pub enum AudioStreamDirection {
    Output,
    Input,
}

impl AudioStreamDirection {
    /// The code the API uses for this direction: output is zero, input is
    /// one.
    pub fn as_u32(&self) -> (r: u32)
        ensures
            r == (match *self {
                AudioStreamDirection::Output => 0int,
                AudioStreamDirection::Input => 1int,
            }),
    {
        match *self {
            AudioStreamDirection::Output => 0,
            AudioStreamDirection::Input => 1,
        }
    }

    /// The direction a code names, if it names one.
    pub fn from_u32(code: u32) -> (r: Option<AudioStreamDirection>)
        ensures
            code == 0 ==> r == Some(AudioStreamDirection::Output),
            code == 1 ==> r == Some(AudioStreamDirection::Input),
            code > 1 ==> r is None,
    {
        match code {
            0 => Some(AudioStreamDirection::Output),
            1 => Some(AudioStreamDirection::Input),
            _ => None,
        }
    }
}

} // verus!
