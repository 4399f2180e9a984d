use vstd::prelude::*;

use crate::control::GStreamerMessage;

verus! {

/// A decoded RGBA frame: four bytes per pixel, rows tightly packed.
#[derive(Debug)]
pub struct FrameData {
    pub pixels: Vec<u8>,
    pub width: u32,
    pub height: u32,
}

/// The mathematical value of a frame: its bytes and its dimensions.
pub struct FrameView {
    pub pixels: Seq<u8>,
    pub width: nat,
    pub height: nat,
}

/// Number of bytes that an RGBA frame of the given dimensions occupies.
pub open spec fn rgba_len(width: nat, height: nat) -> nat {
    width * height * 4
}

impl View for FrameData {
    type V = FrameView;

    open spec fn view(&self) -> FrameView {
        FrameView { pixels: self.pixels@, width: self.width as nat, height: self.height as nat }
    }
}

impl FrameData {
    /// A frame is well formed when its buffer holds exactly one RGBA pixel per cell.
    pub open spec fn wf(&self) -> bool {
        self.pixels@.len() == rgba_len(self.width as nat, self.height as nat)
    }

    /// A copy of the frame with the same bytes and dimensions.
    pub fn duplicate(&self) -> (r: FrameData)
        ensures
            r@ == self@,
    {
        let pixels = self.pixels.clone();
        proof {
            assert(pixels@ =~= self.pixels@);
        }
        FrameData { pixels, width: self.width, height: self.height }
    }

    /// Builds a frame from a decoded sample whose caps give the dimensions as
    /// signed integers. The sample is refused when a dimension is negative or
    /// when the buffer does not hold exactly `width * height` RGBA pixels.
    pub fn from_sample(pixels: Vec<u8>, width: i32, height: i32) -> (r: Option<FrameData>)
        ensures
            r.is_some() <==> (width >= 0 && height >= 0 && pixels@.len() == rgba_len(
                width as nat,
                height as nat,
            )),
            r.is_some() ==> r.unwrap().wf() && r.unwrap().pixels@ == pixels@
                && r.unwrap().width == width && r.unwrap().height == height,
    {
        if width < 0 || height < 0 {
            return None;
        }
        let w = width as u64;
        let h = height as u64;
        assert(w * h < 0x4000_0000_0000_0000u64) by (nonlinear_arith)
            requires
                w < 0x8000_0000u64,
                h < 0x8000_0000u64,
        ;
        let expected: u64 = w * h * 4;
        if pixels.len() as u64 != expected {
            return None;
        }
        Some(FrameData { pixels, width: width as u32, height: height as u32 })
    }
}

/// A single-slot holder for the most recently decoded frame. Each write
/// replaces whatever was there; a frame that was never read is dropped.
#[derive(Debug)]
pub struct FrameSlot {
    frame: Option<FrameData>,
}

/// What a slot holds after one more write.
pub open spec fn slot_after_write(slot: Option<FrameView>, f: FrameView) -> Option<FrameView> {
    Some(f)
}

/// What a slot holds after a whole sequence of writes, in order.
pub open spec fn slot_after_writes(slot: Option<FrameView>, fs: Seq<FrameView>) -> Option<
    FrameView,
>
    decreases fs.len(),
{
    if fs.len() == 0 {
        slot
    } else {
        slot_after_write(slot_after_writes(slot, fs.drop_last()), fs.last())
    }
}

impl View for FrameSlot {
    type V = Option<FrameView>;

    closed spec fn view(&self) -> Option<FrameView> {
        match self.frame {
            Some(f) => Some(f@),
            None => None,
        }
    }
}

impl FrameSlot {
    /// A frame present in the slot is always well formed.
    pub closed spec fn wf(&self) -> bool {
        match self.frame {
            Some(f) => f.wf(),
            None => true,
        }
    }

    /// An empty slot.
    pub fn new() -> (r: FrameSlot)
        ensures
            r.wf(),
            r@ == None::<FrameView>,
    {
        FrameSlot { frame: None }
    }

    /// Replaces the content of the slot with `frame`, unconditionally.
    pub fn write(&mut self, frame: FrameData)
        requires
            old(self).wf(),
            frame.wf(),
        ensures
            final(self).wf(),
            final(self)@ == slot_after_write(old(self)@, frame@),
    {
        self.frame = Some(frame);
    }

    /// A copy of the current content, or `None` before the first write.
    pub fn read(&self) -> (r: Option<FrameData>)
        requires
            self.wf(),
        ensures
            r is Some ==> r.unwrap().wf(),
            r is Some <==> self@ is Some,
            r is Some ==> self@ == Some(r.unwrap()@),
    {
        match &self.frame {
            Some(f) => Some(f.duplicate()),
            None => None,
        }
    }

    /// The producer side of the hand-off, run for each decoded sample: a
    /// well-formed sample replaces the slot's content and yields the
    /// notification to send; a malformed one is dropped and the slot is left
    /// as it was.
    pub fn accept_sample(&mut self, pixels: Vec<u8>, width: i32, height: i32) -> (r: Option<
        GStreamerMessage,
    >)
        requires
            old(self).wf(),
        ensures
            final(self).wf(),
            r is Some <==> (width >= 0 && height >= 0 && pixels@.len() == rgba_len(
                width as nat,
                height as nat,
            )),
            r is Some ==> r == Some(GStreamerMessage::FrameUpdate) && final(self)@ == Some(
                FrameView { pixels: pixels@, width: width as nat, height: height as nat },
            ),
            r is None ==> final(self)@ == old(self)@,
    {
        match FrameData::from_sample(pixels, width, height) {
            Some(f) => {
                self.write(f);
                Some(GStreamerMessage::FrameUpdate)
            },
            None => None,
        }
    }
}

/// After any non-empty sequence of writes, a read returns the last frame
/// written, whatever the slot held before.
pub proof fn lemma_read_after_writes_is_last(slot: Option<FrameView>, fs: Seq<FrameView>)
    requires
        fs.len() > 0,
    ensures
        slot_after_writes(slot, fs) == Some(fs.last()),
{
}

/// A slot that has never been written to reads as empty.
pub proof fn lemma_fresh_slot_is_empty(fs: Seq<FrameView>)
    requires
        fs.len() == 0,
    ensures
        slot_after_writes(None, fs) == None::<FrameView>,
{
}

} // verus!
