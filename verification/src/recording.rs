//! A display that keeps what it is handed, for use in place of a panel.

use vstd::prelude::*;
use crate::display::{DisplayDevice, DisplayTransferError, TransportFault};
use crate::framebuffer::Framebuffer;
use crate::pixel::PixelWrite;

verus! {

/// A display device in memory. It records every pixel write that reaches it
/// and can be set up to fault once a number of writes has gone through.
pub struct RecordingDisplay {
    /// Every pixel write accepted so far, oldest first.
    pub received: Vec<PixelWrite>,
    /// How many more pixel writes go through before the transport faults;
    /// `None` for a transport that never does.
    pub budget: Option<usize>,
    /// The fault that is reported once the budget is used up.
    pub fault: TransportFault,
}

impl RecordingDisplay {
    /// A display that accepts every write.
    pub fn reliable() -> (display: RecordingDisplay)
        ensures
            display.received@ == Seq::<PixelWrite>::empty(),
            display.budget is None,
            display.fault == TransportFault::BusWrite,
    {
        RecordingDisplay { received: Vec::new(), budget: None, fault: TransportFault::BusWrite }
    }

    /// A display that accepts `writes` pixel writes and answers the next one
    /// with `fault`.
    pub fn failing_after(writes: usize, fault: TransportFault) -> (display: RecordingDisplay)
        ensures
            display.received@ == Seq::<PixelWrite>::empty(),
            display.budget == Some(writes),
            display.fault == fault,
    {
        RecordingDisplay { received: Vec::new(), budget: Some(writes), fault }
    }

    /// How many of `count` pixel writes go through.
    pub open spec fn accepts(&self, count: nat) -> nat {
        match self.budget {
            Some(left) if left < count => left as nat,
            _ => count,
        }
    }
}

impl DisplayDevice for RecordingDisplay {
    /// The display records the writes that go through, in their order. Where
    /// all of them do, it answers `Ok` and its budget shrinks by their
    /// number. Where the budget ends first, it records the writes up to there,
    /// answers with its fault, and has no budget left.
    open spec fn transfers(
        &self,
        pixels: Seq<PixelWrite>,
        after: &Self,
        outcome: Result<(), DisplayTransferError>,
    ) -> bool {
        let through = self.accepts(pixels.len());
        &&& after.received@ == self.received@ + pixels.take(through as int)
        &&& after.fault == self.fault
        &&& after.budget == match self.budget {
            Some(left) => Some((left - through) as usize),
            None => None,
        }
        &&& outcome == if through == pixels.len() {
            Ok::<(), DisplayTransferError>(())
        } else {
            Err::<(), DisplayTransferError>(DisplayTransferError { fault: self.fault })
        }
    }

    fn write_pixels(&mut self, pixels: &[PixelWrite]) -> (outcome: Result<
        (),
        DisplayTransferError,
    >) {
        let through: usize = match self.budget {
            Some(left) => if left < pixels.len() {
                left
            } else {
                pixels.len()
            },
            None => pixels.len(),
        };
        let mut i: usize = 0;
        while i < through
            invariant
                i <= through <= pixels.len(),
                self.received@ == old(self).received@ + pixels@.take(i as int),
                self.budget == old(self).budget,
                self.fault == old(self).fault,
            decreases through - i,
        {
            self.received.push(pixels[i]);
            i += 1;
            assert(pixels@.take(i as int) == pixels@.take(i - 1).push(pixels@[i - 1]));
        }
        if let Some(left) = self.budget {
            self.budget = Some(left - through);
        }
        if through == pixels.len() {
            Ok(())
        } else {
            Err(DisplayTransferError { fault: self.fault })
        }
    }
}

/// A display that never faults answers a flush with `Ok`, and has then
/// received one pixel write for each cell of the grid: the grid's transfer
/// sequence, behind what it held before.
pub proof fn lemma_reliable_display_receives_frame(
    before: RecordingDisplay,
    after: RecordingDisplay,
    fbuf: Framebuffer,
    outcome: Result<(), DisplayTransferError>,
)
    requires
        fbuf.wf(),
        before.budget is None,
        before.transfers(fbuf.pixel_sequence(), &after, outcome),
    ensures
        outcome is Ok,
        after.received@ == before.received@ + fbuf.pixel_sequence(),
        after.received@.len() == before.received@.len() + fbuf.spec_width() * fbuf.spec_height(),
        after.budget is None,
{
    fbuf.lemma_size();
    let pixels = fbuf.pixel_sequence();
    assert(pixels.take(pixels.len() as int) == pixels);
}

/// A display whose budget ends inside the frame answers a flush with its
/// fault, and has then received the frame's first entries, as many as the
/// budget allowed.
pub proof fn lemma_exhausted_display_reports_fault(
    before: RecordingDisplay,
    after: RecordingDisplay,
    fbuf: Framebuffer,
    outcome: Result<(), DisplayTransferError>,
    writes: usize,
)
    requires
        fbuf.wf(),
        before.budget == Some(writes),
        writes < fbuf.spec_width() * fbuf.spec_height(),
        before.transfers(fbuf.pixel_sequence(), &after, outcome),
    ensures
        outcome == Err::<(), DisplayTransferError>(DisplayTransferError { fault: before.fault }),
        after.received@ == before.received@ + fbuf.pixel_sequence().take(writes as int),
        after.received@.len() == before.received@.len() + writes,
        after.budget == Some(0usize),
{
    fbuf.lemma_size();
}

} // verus!
