//! Frames and frame sequences: the binary units exchanged with the device.

use vstd::prelude::*;

verus! {

/// Every frame of the protocol is exactly this many bytes long.
pub const FRAME_LEN: usize = 8;

/// One fixed-length binary unit, sent to the device as a feature report.
#[derive(Debug, Clone, PartialEq, Eq)]
pub struct Frame {
    pub bytes: Vec<u8>,
}

impl View for Frame {
    type V = Seq<u8>;

    open spec fn view(&self) -> Seq<u8> {
        self.bytes@
    }
}

impl Frame {
    /// A frame is well formed when it has the protocol's fixed length.
    pub open spec fn wf(&self) -> bool {
        self@.len() == FRAME_LEN
    }

    /// Builds a frame from its eight bytes.
    pub fn of_bytes(b0: u8, b1: u8, b2: u8, b3: u8, b4: u8, b5: u8, b6: u8, b7: u8) -> (f: Frame)
        ensures
            f@ =~= seq![b0, b1, b2, b3, b4, b5, b6, b7],
            f.wf(),
    {
        let mut bytes: Vec<u8> = Vec::new();
        bytes.push(b0);
        bytes.push(b1);
        bytes.push(b2);
        bytes.push(b3);
        bytes.push(b4);
        bytes.push(b5);
        bytes.push(b6);
        bytes.push(b7);
        Frame { bytes }
    }

    /// Reads one byte of the frame.
    pub fn get(&self, i: usize) -> (b: u8)
        requires
            i < self@.len(),
        ensures
            b == self@[i as int],
    {
        self.bytes[i]
    }

    /// Length of the frame in bytes.
    pub fn len(&self) -> (n: usize)
        ensures
            n == self@.len(),
    {
        self.bytes.len()
    }
}

/// An ordered sequence of frames; order is protocol-significant.
#[derive(Debug, Clone, PartialEq, Eq)]
pub struct FrameSequence {
    pub frames: Vec<Frame>,
}

impl View for FrameSequence {
    type V = Seq<Seq<u8>>;

    open spec fn view(&self) -> Seq<Seq<u8>> {
        Seq::new(self.frames@.len(), |i: int| self.frames@[i]@)
    }
}

impl FrameSequence {
    /// Every frame of the sequence has the protocol's fixed length.
    pub open spec fn wf(&self) -> bool {
        forall|i: int| 0 <= i < self@.len() ==> (#[trigger] self@[i]).len() == FRAME_LEN
    }

    /// Number of frames.
    pub fn len(&self) -> (n: usize)
        ensures
            n == self@.len(),
    {
        self.frames.len()
    }

    /// Borrows one frame.
    pub fn get(&self, i: usize) -> (f: &Frame)
        requires
            i < self@.len(),
        ensures
            f@ == self@[i as int],
    {
        &self.frames[i]
    }
}

} // verus!
