use embedded_graphics::pixelcolor::Rgb565;
use embedded_graphics::prelude::RgbColor;
use lcd_flush::display::{flush, DisplayDevice, DisplayTransferError, TransportFault};
use lcd_flush::framebuffer::{Framebuffer, PIXEL_COUNT};
use lcd_flush::pixel::PixelWrite;

/// Counts the bulk writes and keeps the last one.
struct Counting {
    calls: usize,
    last: Vec<PixelWrite>,
}

impl DisplayDevice for Counting {
    fn write_pixels(&mut self, pixels: &[PixelWrite]) -> Result<(), DisplayTransferError> {
        self.calls += 1;
        self.last = pixels.to_vec();
        Ok(())
    }
}

/// Refuses every bulk write.
struct Refusing {
    calls: usize,
    fault: TransportFault,
}

impl DisplayDevice for Refusing {
    fn write_pixels(&mut self, _pixels: &[PixelWrite]) -> Result<(), DisplayTransferError> {
        self.calls += 1;
        Err(DisplayTransferError { fault: self.fault })
    }
}

#[test]
fn flush_makes_one_bulk_write_of_the_whole_grid() {
    let mut fb = Framebuffer::new([Rgb565::BLACK; PIXEL_COUNT], 240, 240);
    fb.clear(Rgb565::YELLOW);
    let mut display = Counting { calls: 0, last: Vec::new() };
    assert_eq!(flush(&mut display, &fb), Ok(()));
    assert_eq!(display.calls, 1);
    assert_eq!(display.last.len(), PIXEL_COUNT);
    assert_eq!(display.last, fb.produce_pixel_sequence());
    assert_eq!(display.last[0], PixelWrite { x: 0, y: 0, color: Rgb565::YELLOW });
    assert_eq!(display.last[PIXEL_COUNT - 1], PixelWrite { x: 239, y: 239, color: Rgb565::YELLOW });
}

#[test]
fn flush_does_not_retry_a_refused_write() {
    let mut fb = Framebuffer::new([Rgb565::BLACK; PIXEL_COUNT], 240, 240);
    fb.clear(Rgb565::CYAN);
    let mut display = Refusing { calls: 0, fault: TransportFault::DeviceNotReady };
    assert_eq!(
        flush(&mut display, &fb),
        Err(DisplayTransferError { fault: TransportFault::DeviceNotReady })
    );
    assert_eq!(display.calls, 1);
    for y in 0..240usize {
        for x in 0..240usize {
            assert_eq!(fb.get(x, y), Some(Rgb565::CYAN));
        }
    }
}
