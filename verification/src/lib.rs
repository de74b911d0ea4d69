//! Frame production for a fixed-resolution display on a USB-serial link.
//!
//! - [`device`] selects the display among the host's serial ports.
//! - [`assets`] selects the image assets among the entries of a directory.
//! - [`raster`] decodes an asset and stretches it to the display's size.
//! - [`encoder`] packs a frame into the display's 16-bit wire format.
//! - [`pipeline`] joins the two: from the bytes of an asset to one frame on
//!   the wire.
//! - [`stream`] is the pacing and failure logic of the endless send loop.
//! - [`config`] and [`frame`] hold the values the others share.
//!
//! The library neither lists ports or files nor reads, writes or sleeps: it
//! is handed what was found and answers what to do.

pub mod assets;
pub mod config;
pub mod device;
pub mod encoder;
pub mod frame;
pub mod pipeline;
pub mod raster;
pub mod stream;
