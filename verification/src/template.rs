//! The factory template: the full default command transaction of the
//! device, forty-eight frames of eight bytes, onto which setting patches
//! are applied.

use vstd::prelude::*;

use crate::frame::Frame;
use crate::frame::FrameSequence;
use crate::frame::FRAME_LEN;

verus! {

/// Number of frames in a full configuration transaction.
pub const TEMPLATE_LEN: usize = 48;

/// Index of the first frame of the LED brightness pair.
pub const BRIGHTNESS_FIRST_INDEX: usize = 3;

/// Index of the second frame of the LED brightness pair.
pub const BRIGHTNESS_SECOND_INDEX: usize = 10;

/// Index of the frame shared by DPI level, LED mode, LED status and
/// breathing speed.
pub const LED_FRAME_INDEX: usize = 11;

/// Index of the frame carrying the auto-fire repeat count.
pub const REPEAT_FRAME_INDEX: usize = 43;

/// Index of the frame carrying the firing interval.
pub const INTERVAL_FRAME_INDEX: usize = 44;

/// Index of the continuous-fire frame.
pub const CONTINUOUS_FRAME_INDEX: usize = 45;

/// The bytes of template frame `i`.
pub open spec fn spec_template_frame(i: int) -> Seq<u8> {
    if i == 0 {
        seq![0x04u8, 0x01, 0x00, 0x00, 0x00, 0x00, 0x00, 0x00]
    } else if i == 1 {
        seq![0x04u8, 0x03, 0x00, 0x00, 0x00, 0x00, 0x00, 0x00]
    } else if i == 2 {
        seq![0x04u8, 0x06, 0x00, 0x00, 0xff, 0x00, 0x00, 0x00]
    } else if i == 3 {
        seq![0x04u8, 0x07, 0x45, 0xf8, 0x06, 0x38, 0xff, 0x00]
    } else if i == 4 {
        seq![0x04u8, 0x07, 0x02, 0x04, 0x06, 0x07, 0x09, 0x0a]
    } else if i == 5 {
        seq![0x04u8, 0x07, 0x07, 0x01, 0x04, 0x03, 0x00, 0x02]
    } else if i == 6 {
        seq![0x04u8, 0x07, 0x05, 0x06, 0xff, 0x00, 0x7f, 0xff]
    } else if i == 7 {
        seq![0x04u8, 0x07, 0xff, 0xff, 0x00, 0xff, 0x00, 0xff]
    } else if i == 8 {
        seq![0x04u8, 0x07, 0x00, 0xff, 0x00, 0x00, 0xff, 0xff]
    } else if i == 9 {
        seq![0x04u8, 0x07, 0x00, 0x00, 0x00, 0xff, 0xff, 0xff]
    } else if i == 10 {
        seq![0x04u8, 0x07, 0xff, 0x00, 0xff, 0xff, 0xff, 0x71]
    } else if i == 11 {
        seq![0x04u8, 0x07, 0x01, 0xfe, 0x81, 0x7e, 0x80, 0x7f]
    } else if i == 12 {
        seq![0x04u8, 0x07, 0xff, 0xff, 0xff, 0xff, 0xff, 0xff]
    } else if i == 13 {
        seq![0x04u8, 0x07, 0xfe, 0xff, 0xff, 0xff, 0x01, 0x01]
    } else if i == 14 {
        seq![0x04u8, 0x07, 0x00, 0x01, 0x04, 0x00, 0x01, 0x02]
    } else if i == 15 {
        seq![0x04u8, 0x07, 0x00, 0x01, 0x08, 0x00, 0x01, 0x10]
    } else if i == 16 {
        seq![0x04u8, 0x07, 0x00, 0x05, 0x00, 0x00, 0x07, 0x00]
    } else if i == 17 {
        seq![0x04u8, 0x07, 0x00, 0x08, 0x00, 0x00, 0x06, 0x00]
    } else if i == 18 {
        seq![0x04u8, 0x07, 0xf0, 0x01, 0x01, 0x00, 0x01, 0x04]
    } else if i == 19 {
        seq![0x04u8, 0x07, 0x00, 0x01, 0x02, 0x00, 0x01, 0x08]
    } else if i == 20 {
        seq![0x04u8, 0x07, 0x00, 0x01, 0x10, 0x00, 0x05, 0x00]
    } else if i == 21 {
        seq![0x04u8, 0x07, 0x00, 0x07, 0x00, 0x00, 0x08, 0x00]
    } else if i == 22 {
        seq![0x04u8, 0x07, 0x00, 0x06, 0x00, 0xf0, 0x06, 0xff]
    } else if i == 23 {
        seq![0x04u8, 0x07, 0xfe, 0xff, 0xff, 0xff, 0xff, 0xff]
    } else if i == 24 {
        seq![0x04u8, 0x07, 0xfe, 0x99, 0x0e, 0x05, 0x01, 0x0e]
    } else if i == 25 {
        seq![0x04u8, 0x07, 0x05, 0x19, 0x0e, 0x05, 0x31, 0x0e]
    } else if i == 26 {
        seq![0x04u8, 0x07, 0x05, 0x49, 0x0e, 0x05, 0x61, 0x0e]
    } else if i == 27 {
        seq![0x04u8, 0x07, 0x05, 0x79, 0x0e, 0x05, 0x91, 0x0e]
    } else if i == 28 {
        seq![0x04u8, 0x07, 0x05, 0xa9, 0x0e, 0x05, 0xc1, 0x0e]
    } else if i == 29 {
        seq![0x04u8, 0x07, 0x05, 0xd9, 0xff, 0xff, 0xff, 0xff]
    } else if i == 30 {
        seq![0x04u8, 0x07, 0xff, 0xff, 0xff, 0xff, 0xff, 0xff]
    } else if i == 31 {
        seq![0x04u8, 0x07, 0xfe, 0xff, 0xff, 0xff, 0xff, 0xff]
    } else if i == 32 {
        seq![0x04u8, 0x07, 0xfd, 0xff, 0x00, 0xff, 0x00, 0xff]
    } else if i == 33 {
        seq![0x04u8, 0x07, 0x00, 0xff, 0x00, 0xff, 0x00, 0xff]
    } else if i == 34 {
        seq![0x04u8, 0x07, 0x00, 0xff, 0x00, 0xff, 0x00, 0xff]
    } else if i == 35 {
        seq![0x04u8, 0x07, 0x00, 0xff, 0x00, 0xff, 0xff, 0xff]
    } else if i == 36 {
        seq![0x04u8, 0x07, 0xfe, 0xff, 0xff, 0xff, 0xff, 0xff]
    } else if i == 37 {
        seq![0x04u8, 0x07, 0xfd, 0xff, 0xff, 0xff, 0xff, 0x00]
    } else if i == 38 {
        seq![0x04u8, 0x07, 0x00, 0x00, 0xff, 0x00, 0x00, 0x00]
    } else if i == 39 {
        seq![0x04u8, 0x07, 0xff, 0xff, 0xff, 0x00, 0xff, 0x00]
    } else if i == 40 {
        seq![0x04u8, 0x07, 0xff, 0x00, 0xff, 0xff, 0xff, 0x80]
    } else if i == 41 {
        seq![0x04u8, 0x07, 0x00, 0xff, 0x00, 0x80, 0x00, 0xff]
    } else if i == 42 {
        seq![0x04u8, 0x07, 0x80, 0xff, 0xff, 0xff, 0xff, 0xff]
    } else if i == 43 {
        seq![0x04u8, 0x07, 0x0a, 0xfd, 0x03, 0xa1, 0xfe, 0x03]
    } else if i == 44 {
        seq![0x04u8, 0x07, 0x21, 0xfe, 0x08, 0xfc, 0x94, 0xff]
    } else if i == 45 {
        seq![0x04u8, 0x07, 0xfd, 0xff, 0xff, 0xfc, 0x94, 0xff]
    } else if i == 46 {
        seq![0x04u8, 0x08, 0x00, 0x00, 0x00, 0x00, 0x00, 0x00]
    } else if i == 47 {
        seq![0x04u8, 0x02, 0x00, 0x00, 0x00, 0x00, 0x00, 0x00]
    } else {
        seq![]
    }
}

/// The factory template as a sequence of byte frames.
pub open spec fn spec_template() -> Seq<Seq<u8>> {
    Seq::new(TEMPLATE_LEN as nat, |i: int| spec_template_frame(i))
}

/// Every template frame has the protocol's fixed length.
pub proof fn lemma_template_wf()
    ensures
        forall|i: int|
            0 <= i < TEMPLATE_LEN ==> (#[trigger] spec_template()[i]).len() == FRAME_LEN,
{
}

/// The repeat frame is the only template frame with its marker byte.
pub proof fn lemma_repeat_placeholder_unique()
    ensures
        forall|i: int|
            0 <= i < TEMPLATE_LEN && i != REPEAT_FRAME_INDEX ==> (#[trigger] spec_template()[
                i
            ])[2] != 0x0a,
{
}

/// The first brightness frame is the only template frame with its marker
/// byte.
pub proof fn lemma_brightness_first_unique()
    ensures
        forall|i: int|
            0 <= i < TEMPLATE_LEN && i != BRIGHTNESS_FIRST_INDEX ==> (#[trigger] spec_template()[
                i
            ])[2] != 0x45,
{
}

/// The second brightness frame is the only template frame with its marker
/// byte pair.
pub proof fn lemma_brightness_second_unique()
    ensures
        forall|i: int|
            0 <= i < TEMPLATE_LEN && i != BRIGHTNESS_SECOND_INDEX ==> ((#[trigger] spec_template()[
                i
            ])[2] != 0xff || spec_template()[i][7] != 0x71),
{
}

/// Template frame `i`, as a value.
fn template_frame_at(i: usize) -> (f: Frame)
    requires
        i < TEMPLATE_LEN,
    ensures
        f@ =~= spec_template_frame(i as int),
        f.wf(),
{
    if i == 0 {
        Frame::of_bytes(0x04, 0x01, 0x00, 0x00, 0x00, 0x00, 0x00, 0x00)
    } else if i == 1 {
        Frame::of_bytes(0x04, 0x03, 0x00, 0x00, 0x00, 0x00, 0x00, 0x00)
    } else if i == 2 {
        Frame::of_bytes(0x04, 0x06, 0x00, 0x00, 0xff, 0x00, 0x00, 0x00)
    } else if i == 3 {
        Frame::of_bytes(0x04, 0x07, 0x45, 0xf8, 0x06, 0x38, 0xff, 0x00)
    } else if i == 4 {
        Frame::of_bytes(0x04, 0x07, 0x02, 0x04, 0x06, 0x07, 0x09, 0x0a)
    } else if i == 5 {
        Frame::of_bytes(0x04, 0x07, 0x07, 0x01, 0x04, 0x03, 0x00, 0x02)
    } else if i == 6 {
        Frame::of_bytes(0x04, 0x07, 0x05, 0x06, 0xff, 0x00, 0x7f, 0xff)
    } else if i == 7 {
        Frame::of_bytes(0x04, 0x07, 0xff, 0xff, 0x00, 0xff, 0x00, 0xff)
    } else if i == 8 {
        Frame::of_bytes(0x04, 0x07, 0x00, 0xff, 0x00, 0x00, 0xff, 0xff)
    } else if i == 9 {
        Frame::of_bytes(0x04, 0x07, 0x00, 0x00, 0x00, 0xff, 0xff, 0xff)
    } else if i == 10 {
        Frame::of_bytes(0x04, 0x07, 0xff, 0x00, 0xff, 0xff, 0xff, 0x71)
    } else if i == 11 {
        Frame::of_bytes(0x04, 0x07, 0x01, 0xfe, 0x81, 0x7e, 0x80, 0x7f)
    } else if i == 12 {
        Frame::of_bytes(0x04, 0x07, 0xff, 0xff, 0xff, 0xff, 0xff, 0xff)
    } else if i == 13 {
        Frame::of_bytes(0x04, 0x07, 0xfe, 0xff, 0xff, 0xff, 0x01, 0x01)
    } else if i == 14 {
        Frame::of_bytes(0x04, 0x07, 0x00, 0x01, 0x04, 0x00, 0x01, 0x02)
    } else if i == 15 {
        Frame::of_bytes(0x04, 0x07, 0x00, 0x01, 0x08, 0x00, 0x01, 0x10)
    } else if i == 16 {
        Frame::of_bytes(0x04, 0x07, 0x00, 0x05, 0x00, 0x00, 0x07, 0x00)
    } else if i == 17 {
        Frame::of_bytes(0x04, 0x07, 0x00, 0x08, 0x00, 0x00, 0x06, 0x00)
    } else if i == 18 {
        Frame::of_bytes(0x04, 0x07, 0xf0, 0x01, 0x01, 0x00, 0x01, 0x04)
    } else if i == 19 {
        Frame::of_bytes(0x04, 0x07, 0x00, 0x01, 0x02, 0x00, 0x01, 0x08)
    } else if i == 20 {
        Frame::of_bytes(0x04, 0x07, 0x00, 0x01, 0x10, 0x00, 0x05, 0x00)
    } else if i == 21 {
        Frame::of_bytes(0x04, 0x07, 0x00, 0x07, 0x00, 0x00, 0x08, 0x00)
    } else if i == 22 {
        Frame::of_bytes(0x04, 0x07, 0x00, 0x06, 0x00, 0xf0, 0x06, 0xff)
    } else if i == 23 {
        Frame::of_bytes(0x04, 0x07, 0xfe, 0xff, 0xff, 0xff, 0xff, 0xff)
    } else if i == 24 {
        Frame::of_bytes(0x04, 0x07, 0xfe, 0x99, 0x0e, 0x05, 0x01, 0x0e)
    } else if i == 25 {
        Frame::of_bytes(0x04, 0x07, 0x05, 0x19, 0x0e, 0x05, 0x31, 0x0e)
    } else if i == 26 {
        Frame::of_bytes(0x04, 0x07, 0x05, 0x49, 0x0e, 0x05, 0x61, 0x0e)
    } else if i == 27 {
        Frame::of_bytes(0x04, 0x07, 0x05, 0x79, 0x0e, 0x05, 0x91, 0x0e)
    } else if i == 28 {
        Frame::of_bytes(0x04, 0x07, 0x05, 0xa9, 0x0e, 0x05, 0xc1, 0x0e)
    } else if i == 29 {
        Frame::of_bytes(0x04, 0x07, 0x05, 0xd9, 0xff, 0xff, 0xff, 0xff)
    } else if i == 30 {
        Frame::of_bytes(0x04, 0x07, 0xff, 0xff, 0xff, 0xff, 0xff, 0xff)
    } else if i == 31 {
        Frame::of_bytes(0x04, 0x07, 0xfe, 0xff, 0xff, 0xff, 0xff, 0xff)
    } else if i == 32 {
        Frame::of_bytes(0x04, 0x07, 0xfd, 0xff, 0x00, 0xff, 0x00, 0xff)
    } else if i == 33 {
        Frame::of_bytes(0x04, 0x07, 0x00, 0xff, 0x00, 0xff, 0x00, 0xff)
    } else if i == 34 {
        Frame::of_bytes(0x04, 0x07, 0x00, 0xff, 0x00, 0xff, 0x00, 0xff)
    } else if i == 35 {
        Frame::of_bytes(0x04, 0x07, 0x00, 0xff, 0x00, 0xff, 0xff, 0xff)
    } else if i == 36 {
        Frame::of_bytes(0x04, 0x07, 0xfe, 0xff, 0xff, 0xff, 0xff, 0xff)
    } else if i == 37 {
        Frame::of_bytes(0x04, 0x07, 0xfd, 0xff, 0xff, 0xff, 0xff, 0x00)
    } else if i == 38 {
        Frame::of_bytes(0x04, 0x07, 0x00, 0x00, 0xff, 0x00, 0x00, 0x00)
    } else if i == 39 {
        Frame::of_bytes(0x04, 0x07, 0xff, 0xff, 0xff, 0x00, 0xff, 0x00)
    } else if i == 40 {
        Frame::of_bytes(0x04, 0x07, 0xff, 0x00, 0xff, 0xff, 0xff, 0x80)
    } else if i == 41 {
        Frame::of_bytes(0x04, 0x07, 0x00, 0xff, 0x00, 0x80, 0x00, 0xff)
    } else if i == 42 {
        Frame::of_bytes(0x04, 0x07, 0x80, 0xff, 0xff, 0xff, 0xff, 0xff)
    } else if i == 43 {
        Frame::of_bytes(0x04, 0x07, 0x0a, 0xfd, 0x03, 0xa1, 0xfe, 0x03)
    } else if i == 44 {
        Frame::of_bytes(0x04, 0x07, 0x21, 0xfe, 0x08, 0xfc, 0x94, 0xff)
    } else if i == 45 {
        Frame::of_bytes(0x04, 0x07, 0xfd, 0xff, 0xff, 0xfc, 0x94, 0xff)
    } else if i == 46 {
        Frame::of_bytes(0x04, 0x08, 0x00, 0x00, 0x00, 0x00, 0x00, 0x00)
    } else if i == 47 {
        Frame::of_bytes(0x04, 0x02, 0x00, 0x00, 0x00, 0x00, 0x00, 0x00)
    } else {
        Frame::of_bytes(0x00, 0x00, 0x00, 0x00, 0x00, 0x00, 0x00, 0x00)
    }
}

/// Builds the factory template.
pub fn template() -> (t: FrameSequence)
    ensures
        t@ =~= spec_template(),
        t.wf(),
        t@.len() == TEMPLATE_LEN,
{
    let mut frames: Vec<Frame> = Vec::new();
    let mut i: usize = 0;
    while i < TEMPLATE_LEN
        invariant
            i <= TEMPLATE_LEN,
            frames@.len() == i,
            forall|j: int| 0 <= j < i ==> (#[trigger] frames@[j])@ =~= spec_template_frame(j),
            forall|j: int| 0 <= j < i ==> (#[trigger] frames@[j])@.len() == FRAME_LEN,
        decreases TEMPLATE_LEN - i,
    {
        let f = template_frame_at(i);
        frames.push(f);
        i = i + 1;
    }
    let t = FrameSequence { frames };
    proof {
        assert(t@ =~= spec_template());
    }
    t
}

} // verus!
