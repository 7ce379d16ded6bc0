use crate::model::{Compression, MovieHeader};
use swf::{Rectangle, Twips};
use vstd::prelude::*;

verus! {

/// The bytes that the SWF writer produces for a header with no compression
/// and an empty tag stream; they depend on the header's fields alone.
pub uninterp spec fn uncompressed_image(h: MovieHeader) -> Seq<u8>;

/// Relies on `swf::write_swf` with no tags. It writes the signature `FWS`
/// for no compression, the version byte and a 4-byte length, then the stage
/// rectangle (5 + 4n bits, n <= 31, padded to a byte), the frame rate and
/// frame count as little-endian 16-bit values, and the end tag as a zero
/// 16-bit value. The rectangle writer returns an error, here `None`, exactly
/// when a coordinate needs more than 31 bits.
#[verifier::external_body]
pub(crate) fn write_uncompressed_header(h: &MovieHeader) -> (r: Option<Vec<u8>>)
    requires
        h.compression == Compression::Uncompressed,
    ensures
        r is Some <==> h.stage_size.fits_encoding(),
        r matches Some(v) ==> {
            let n = v@.len() as int;
            &&& v@ == uncompressed_image(*h)
            &&& 15 <= n <= 31
            &&& v@[0] == 0x46u8 && v@[1] == 0x57u8 && v@[2] == 0x53u8
            &&& v@[3] == h.version
            &&& v@[n - 6] == (h.frame_rate as u16 % 256) as u8
            &&& v@[n - 5] == (h.frame_rate as u16 / 256) as u8
            &&& v@[n - 4] == (h.num_frames % 256) as u8
            &&& v@[n - 3] == (h.num_frames / 256) as u8
            &&& v@[n - 2] == 0 && v@[n - 1] == 0
        },
{
    let s = &h.stage_size;
    let stage_size = Rectangle { x_min: Twips::new(s.x_min), x_max: Twips::new(s.x_max),
        y_min: Twips::new(s.y_min), y_max: Twips::new(s.y_max) };
    let compression = match h.compression {
        Compression::Uncompressed => swf::Compression::None,
        Compression::Zlib => swf::Compression::Zlib,
        Compression::Lzma => swf::Compression::Lzma,
    };
    let frame_rate = swf::Fixed8::from_bits(h.frame_rate);
    let header = swf::Header { compression, version: h.version, stage_size, frame_rate, num_frames: h.num_frames };
    let mut out: Vec<u8> = Vec::new();
    match swf::write_swf(&header, &[], &mut out) { Ok(()) => Some(out), Err(_) => None }
}

} // verus!
