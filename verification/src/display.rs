//! The display device and the flush that commits a grid to it.

use vstd::prelude::*;
use crate::framebuffer::Framebuffer;
use crate::pixel::PixelWrite;

verus! {

/// What went wrong on the way to the panel.
#[derive(Clone, Copy, Debug, PartialEq, Eq, Structural)]
pub enum TransportFault {
    /// The bus did not take the data in time.
    BusTimeout,
    /// The panel was not ready for a transfer.
    DeviceNotReady,
    /// A write on the bus failed.
    BusWrite,
    /// A control line of the panel could not be driven.
    ControlPin,
    /// The panel's interface did not take the data as it was given.
    DataRejected,
}

/// A transfer to the display did not complete.
#[derive(Clone, Copy, Debug, PartialEq, Eq, Structural)]
pub struct DisplayTransferError {
    pub fault: TransportFault,
}

/// A device that takes an ordered sequence of positioned colours in one bulk
/// write and shows each colour at its position.
pub trait DisplayDevice: Sized {
    /// What the device promises of one bulk write: whether a write of
    /// `pixels` may take it from the state `self` to the state `after` with
    /// the answer `outcome`. A device that promises nothing admits every
    /// step, and that is what a device says unless it says otherwise.
    open spec fn transfers(
        &self,
        pixels: Seq<PixelWrite>,
        after: &Self,
        outcome: Result<(), DisplayTransferError>,
    ) -> bool {
        true
    }

    /// Writes `pixels` in their order. Answers `Ok` when the whole sequence
    /// was transferred, and with the transport's fault when it was not.
    fn write_pixels(&mut self, pixels: &[PixelWrite]) -> (outcome: Result<
        (),
        DisplayTransferError,
    >)
        ensures
            old(self).transfers(pixels@, final(self), outcome),
    ;
}

/// What a flush answers once the device has answered the bulk write: success
/// for success, and for a fault the same fault.
pub fn surface(answer: Result<(), DisplayTransferError>) -> (outcome: Result<
    (),
    DisplayTransferError,
>)
    ensures
        outcome == answer,
{
    match answer {
        Ok(done) => Ok(done),
        Err(fault) => Err(fault),
    }
}

/// Commits the grid to the display: hands the device the grid's whole
/// transfer sequence in a single bulk write and gives the device's answer
/// back unchanged. The grid is only read.
pub fn flush<D: DisplayDevice>(display: &mut D, fbuf: &Framebuffer) -> (outcome: Result<
    (),
    DisplayTransferError,
>)
    ensures
        old(display).transfers(fbuf.pixel_sequence(), final(display), outcome),
{
    let pixels = fbuf.produce_pixel_sequence();
    let answer = display.write_pixels(pixels.as_slice());
    surface(answer)
}

} // verus!
