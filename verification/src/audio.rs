//! The uncompressed audio container that links the synthesizer to the encoder.

use vstd::prelude::*;

verus! {

/// How a container stores one sample.
#[derive(Clone, Copy, Debug, PartialEq, Eq, Structural)]
pub enum SampleFormat {
    /// Signed integer PCM.
    Int,
    /// IEEE floating point.
    Float,
}

/// What a container's header says about its samples.
#[derive(Clone, Copy, Debug, PartialEq, Eq, Structural)]
pub struct WavHeader {
    /// Number of interleaved channels.
    pub channels: u16,
    /// Frames per second.
    pub sample_rate: u32,
    /// Bits in one sample.
    pub bits_per_sample: u16,
    /// Integer or floating point samples.
    pub sample_format: SampleFormat,
}

/// The mathematical content of an [`AudioContainer`].
pub struct ContainerView {
    /// The header the container was created with.
    pub header: WavHeader,
    /// The interleaved samples, in the order they were appended.
    pub samples: Seq<i16>,
}

/// A header and an append-only run of interleaved 16-bit samples.
///
/// The header is fixed when the container is created; samples can only be
/// added at the end.
pub struct AudioContainer {
    header: WavHeader,
    samples: Vec<i16>,
}

/// `left` and `right` woven into one sequence: `left[0], right[0], left[1], ...`.
pub open spec fn interleaved(left: Seq<i16>, right: Seq<i16>) -> Seq<i16> {
    Seq::new(
        2 * left.len(),
        |i: int|
            if i % 2 == 0 {
                left[i / 2]
            } else {
                right[i / 2]
            },
    )
}

/// Weaves two equally long channel buffers into one interleaved buffer.
pub fn interleave(left: &[i16], right: &[i16]) -> (out: Vec<i16>)
    requires
        left@.len() == right@.len(),
    ensures
        out@ == interleaved(left@, right@),
{
    let mut out: Vec<i16> = Vec::new();
    let n: usize = left.len();
    let mut i: usize = 0;
    while i < n
        invariant
            n == left@.len(),
            n == right@.len(),
            i <= n,
            out@.len() == 2 * i,
            forall|j: int|
                0 <= j < 2 * i ==> out@[j] == (if j % 2 == 0 {
                    left@[j / 2]
                } else {
                    right@[j / 2]
                }),
        decreases n - i,
    {
        out.push(left[i]);
        out.push(right[i]);
        i = i + 1;
    }
    assert(out@ =~= interleaved(left@, right@));
    out
}

impl View for AudioContainer {
    type V = ContainerView;

    closed spec fn view(&self) -> ContainerView {
        ContainerView { header: self.header, samples: self.samples@ }
    }
}

impl AudioContainer {
    /// An empty container with the given header.
    pub fn new(header: WavHeader) -> (c: AudioContainer)
        ensures
            c@.header == header,
            c@.samples == Seq::<i16>::empty(),
    {
        AudioContainer { header, samples: Vec::new() }
    }

    /// A container that holds `samples` under `header`.
    pub fn from_samples(header: WavHeader, samples: Vec<i16>) -> (c: AudioContainer)
        ensures
            c@.header == header,
            c@.samples == samples@,
    {
        AudioContainer { header, samples }
    }

    /// The header the container was created with.
    pub fn header(&self) -> (h: WavHeader)
        ensures
            h == self@.header,
    {
        self.header
    }

    /// The interleaved samples.
    pub fn samples(&self) -> (s: &Vec<i16>)
        ensures
            s@ == self@.samples,
    {
        &self.samples
    }

    /// Number of samples held, all channels together.
    pub fn len(&self) -> (n: usize)
        ensures
            n == self@.samples.len(),
    {
        self.samples.len()
    }

    /// Appends one buffer per channel as interleaved pairs, left before right.
    pub fn append(&mut self, left: &[i16], right: &[i16])
        requires
            left@.len() == right@.len(),
        ensures
            final(self)@.header == old(self)@.header,
            final(self)@.samples == old(self)@.samples + interleaved(left@, right@),
    {
        let n: usize = left.len();
        let mut i: usize = 0;
        while i < n
            invariant
                n == left@.len(),
                n == right@.len(),
                i <= n,
                self.header == old(self).header,
                self.samples@ == old(self).samples@ + interleaved(left@, right@).take(2 * i),
            decreases n - i,
        {
            self.samples.push(left[i]);
            self.samples.push(right[i]);
            assert(interleaved(left@, right@).take(2 * (i + 1)) =~= interleaved(
                left@,
                right@,
            ).take(2 * i).push(left@[i as int]).push(right@[i as int]));
            i = i + 1;
        }
        assert(interleaved(left@, right@).take(2 * n) =~= interleaved(left@, right@));
    }
}

} // verus!
