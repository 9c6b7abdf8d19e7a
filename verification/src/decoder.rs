//! The decoder capability: an abstract source of decoded audio frames.
//!
//! A decoder exposes its sample rate, optionally its total frame count, a
//! `decode` step returning the next chunk of frames, and a `seek` that moves
//! the decode cursor. The contract is stated against a specification-level
//! view of the decoded timeline: the sequence of all frames the source
//! decodes to, together with the cursor of the next frame `decode` emits.

use vstd::prelude::*;

use crate::frame::Frame;

verus! {

/// A failure reported by a decoder's `decode` or `seek`.
#[derive(Clone, Copy, Debug, PartialEq, Eq, Structural)]
pub struct DecoderError {
    /// A decoder-defined code describing the failure.
    pub code: u32,
}

/// An abstract decoder. Implementations outside this crate wrap real codecs;
/// the scheduler drives any implementation through this contract alone.
pub trait Decoder: Sized {
    /// The full decoded timeline of the source.
    spec fn source(&self) -> Seq<Frame>;

    /// The index of the next frame `decode` will emit.
    spec fn cursor(&self) -> int;

    /// The decoder's cursor stays within the source, whose length is
    /// addressable on this machine.
    spec fn wf(&self) -> bool;

    proof fn lemma_wf_bounds(&self)
        requires
            self.wf(),
        ensures
            0 <= self.cursor() <= self.source().len(),
            self.source().len() <= usize::MAX,
    ;

    /// The source's sample rate in frames per second.
    fn sample_rate(&self) -> u32;

    /// The total number of frames, when the source's length is known.
    fn num_frames(&self) -> (r: Option<usize>)
        requires
            self.wf(),
        ensures
            r matches Some(n) ==> n == self.source().len(),
    ;

    /// Decodes the next chunk: a run of frames starting at the cursor. An
    /// empty chunk is permitted only transiently between frames; a decoder
    /// that can make no progress fails instead.
    fn decode(&mut self) -> (r: Result<Vec<Frame>, DecoderError>)
        requires
            old(self).wf(),
        ensures
            final(self).wf(),
            final(self).source() == old(self).source(),
            r matches Ok(frames) ==> {
                &&& old(self).cursor() + frames@.len() <= old(self).source().len()
                &&& frames@ == old(self).source().subrange(
                    old(self).cursor(),
                    old(self).cursor() + frames@.len(),
                )
                &&& final(self).cursor() == old(self).cursor() + frames@.len()
            },
            r is Err ==> final(self).cursor() == old(self).cursor(),
    ;

    /// Moves the decode cursor toward `index`; returns the frame index the
    /// codec actually landed on, which may be smaller than `index`.
    fn seek(&mut self, index: usize) -> (r: Result<usize, DecoderError>)
        requires
            old(self).wf(),
        ensures
            final(self).wf(),
            final(self).source() == old(self).source(),
            r matches Ok(landed) ==> {
                &&& landed <= index
                &&& final(self).cursor() == landed
            },
            r is Err ==> final(self).cursor() == old(self).cursor(),
    ;
}

/// An in-memory decoder over a fixed vector of frames. It decodes the whole
/// remainder of the source in one chunk and seeks exactly, clamped to the
/// end of the source.
pub struct VecDecoder {
    /// The decoded source.
    pub frames: Vec<Frame>,
    /// The index of the next frame to decode.
    pub position: usize,
    /// The sample rate reported for this source.
    pub rate: u32,
}

impl VecDecoder {
    /// Builds an in-memory decoder positioned at the start of `frames`.
    pub fn new(frames: Vec<Frame>, rate: u32) -> (r: VecDecoder)
        ensures
            r.wf(),
            r.source() == frames@,
            r.cursor() == 0,
    {
        VecDecoder { frames, position: 0, rate }
    }
}

impl Decoder for VecDecoder {
    open spec fn source(&self) -> Seq<Frame> {
        self.frames@
    }

    open spec fn cursor(&self) -> int {
        self.position as int
    }

    open spec fn wf(&self) -> bool {
        self.position <= self.frames@.len()
    }

    proof fn lemma_wf_bounds(&self) {
        vstd::std_specs::vec::axiom_spec_len(&self.frames);
    }

    fn sample_rate(&self) -> u32 {
        self.rate
    }

    fn num_frames(&self) -> (r: Option<usize>) {
        Option::Some(self.frames.len())
    }

    fn decode(&mut self) -> (r: Result<Vec<Frame>, DecoderError>) {
        let remaining = self.frames.len() - self.position;
        if remaining == 0 {
            return Result::Err(DecoderError { code: 1 });
        }
        let mut chunk: Vec<Frame> = Vec::new();
        let mut i: usize = self.position;
        while i < self.frames.len()
            invariant
                self.position <= i <= self.frames@.len(),
                chunk@ == self.frames@.subrange(self.position as int, i as int),
            decreases self.frames@.len() - i,
        {
            chunk.push(self.frames[i]);
            i = i + 1;
        }
        self.position = self.frames.len();
        Result::Ok(chunk)
    }

    fn seek(&mut self, index: usize) -> (r: Result<usize, DecoderError>) {
        let landed = if index < self.frames.len() {
            index
        } else {
            self.frames.len()
        };
        self.position = landed;
        Result::Ok(landed)
    }
}

} // verus!
