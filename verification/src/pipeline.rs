//! One frame, from the bytes of an asset to the bytes on the wire.

use crate::config::DisplayConfig;
use crate::encoder::encode;
use crate::encoder::encoded;
use crate::raster::can_make_frame;
use crate::raster::decode_and_resample;
use crate::raster::png_extent;
use crate::raster::DecodeError;
use vstd::prelude::*;

verus! {

/// Decodes an asset, stretches it to the display's size and encodes it for
/// the wire.
///
/// A buffer comes back exactly for the assets of which a frame of the
/// display's size can be made. It is the wire form of that frame, so one
/// whole frame: two bytes for every pixel of the display, neither more nor
/// fewer. An asset that the decoder refuses is [`DecodeError::Malformed`],
/// one that cannot be resampled to the display is [`DecodeError::TooLarge`].
pub fn render_frame(source: &[u8], config: &DisplayConfig) -> (wire: Result<Vec<u8>, DecodeError>)
    ensures
        wire is Ok <==> can_make_frame(source@, config.width, config.height),
        wire matches Ok(bytes) ==> bytes@.len() == config.frame_len() && exists|rgba: Seq<u8>|
            rgba.len() == 4 * (config.width as nat * config.height as nat) && bytes@
                == #[trigger] encoded(rgba),
        wire matches Err(e) ==> (e == DecodeError::Malformed <==> png_extent(source@) is None),
        wire matches Err(e) ==> (e == DecodeError::TooLarge <==> png_extent(source@) is Some),
{
    match decode_and_resample(source, config.width, config.height) {
        Ok(frame) => {
            let wire = encode(&frame);
            assert(wire@ == encoded(frame@));
            Ok(wire)
        },
        Err(error) => Err(error),
    }
}

} // verus!
