//! The fixed facts of the link: display geometry, device identity, line
//! speed and frame budget, gathered in one value that every component is
//! handed.

use crate::device::UsbIdentity;
use vstd::prelude::*;

verus! {

/// Width of the display, in pixels.
pub const SCREEN_WIDTH: u32 = 320;

/// Height of the display, in pixels.
pub const SCREEN_HEIGHT: u32 = 240;

/// USB vendor number of the display controller.
pub const USB_VENDOR_ID: u16 = 0x2E8A;

/// USB product number of the display controller.
pub const USB_PRODUCT_ID: u16 = 0x000A;

/// Speed of the serial link, in baud.
pub const BAUD_RATE: u32 = 115_200;

/// Frames per second that playback aims at.
pub const TARGET_FPS: u64 = 24;

/// Time allotted to one frame, in whole milliseconds.
pub const FRAME_BUDGET_MS: u64 = 1000 / TARGET_FPS;

/// Everything the producing side must agree on with the display.
#[derive(Clone, Copy, Debug, PartialEq, Eq, Structural)]
pub struct DisplayConfig {
    pub width: u32,
    pub height: u32,
    pub identity: UsbIdentity,
    pub baud_rate: u32,
    pub frame_budget_ms: u64,
}

impl DisplayConfig {
    /// The configuration of the reference display: 320 by 240 pixels, the
    /// controller's USB identity, 115200 baud, 24 frames per second.
    pub open spec fn reference() -> DisplayConfig {
        DisplayConfig {
            width: 320,
            height: 240,
            identity: UsbIdentity { vendor_id: 0x2E8A, product_id: 0x000A },
            baud_rate: 115_200,
            frame_budget_ms: 41,
        }
    }

    /// The number of bytes of one frame on the wire: two per pixel.
    pub open spec fn frame_len(&self) -> nat {
        2 * (self.width as nat * self.height as nat)
    }

    /// The configuration of the reference display.
    pub fn rp2040() -> (config: DisplayConfig)
        ensures
            config == DisplayConfig::reference(),
            config.frame_len() == 153_600,
            config.frame_budget_ms == 1000u64 / TARGET_FPS,
    {
        assert(SCREEN_WIDTH as nat * SCREEN_HEIGHT as nat == 76_800) by (nonlinear_arith)
            requires
                SCREEN_WIDTH == 320,
                SCREEN_HEIGHT == 240,
        ;
        DisplayConfig {
            width: SCREEN_WIDTH,
            height: SCREEN_HEIGHT,
            identity: UsbIdentity { vendor_id: USB_VENDOR_ID, product_id: USB_PRODUCT_ID },
            baud_rate: BAUD_RATE,
            frame_budget_ms: FRAME_BUDGET_MS,
        }
    }
}

} // verus!
