use crate::model::{LoaderInfoError, Movie, MovieHeader};
use crate::writer::{uncompressed_image, write_uncompressed_header};
use vstd::arithmetic::div_mod::{lemma_fundamental_div_mod, lemma_small_mod};
use vstd::prelude::*;

verus! {

/// Width of the end-of-tags marker that the writer always appends.
pub const END_MARKER_LEN: usize = 2;

/// Offset of the container's total-length field.
pub const LENGTH_FIELD_OFFSET: usize = 4;

/// The value of four bytes read little-endian.
pub open spec fn le32_value(s: Seq<u8>) -> int {
    s[0] as int + 256 * (s[1] as int + 256 * (s[2] as int + 256 * s[3] as int))
}

/// The four little-endian bytes of `v`.
pub open spec fn le32_bytes(v: nat) -> Seq<u8> {
    seq![
        (v % 256) as u8,
        (v / 256 % 256) as u8,
        (v / 256 / 256 % 256) as u8,
        (v / 256 / 256 / 256 % 256) as u8,
    ]
}

/// The writer's output can be spliced: it holds the 8-byte preamble before a
/// 2-byte zero end marker, and the rebuilt length fits in the length field.
pub open spec fn image_usable(image: Seq<u8>, data_len: nat) -> bool {
    &&& image.len() >= 10
    &&& image[image.len() - 2] == 0
    &&& image[image.len() - 1] == 0
    &&& image.len() - 2 + data_len <= u32::MAX
}

/// The header written for an empty tag stream, without its end marker.
pub open spec fn header_part(image: Seq<u8>) -> Seq<u8> {
    image.take(image.len() - 2)
}

/// Header and tag data, with the length field set to the total length.
pub open spec fn spliced(image: Seq<u8>, data: Seq<u8>) -> Seq<u8> {
    let body = header_part(image) + data;
    body.take(4) + le32_bytes(body.len()) + body.skip(8)
}

proof fn lemma_le32_round_trip(v: nat)
    requires
        v <= u32::MAX,
    ensures
        le32_value(le32_bytes(v)) == v,
{
    let v1 = v / 256;
    let v2 = v1 / 256;
    let v3 = v2 / 256;
    lemma_fundamental_div_mod(v as int, 256);
    lemma_fundamental_div_mod(v1 as int, 256);
    lemma_fundamental_div_mod(v2 as int, 256);
    lemma_fundamental_div_mod(v3 as int, 256);
    assert(v3 < 256);
    lemma_small_mod(v3, 256);
}

/// The rebuilt container is exactly as long as the header plus the tag data,
/// its length field says so, and the tag data follows the header unchanged.
pub proof fn lemma_spliced_length(image: Seq<u8>, data: Seq<u8>)
    requires
        image_usable(image, data.len()),
    ensures
        spliced(image, data).len() == header_part(image).len() + data.len(),
        le32_value(spliced(image, data).subrange(4, 8)) == header_part(image).len() + data.len(),
        spliced(image, data).skip(header_part(image).len() as int) == data,
{
    let r = spliced(image, data);
    let n = (image.len() - 2 + data.len()) as nat;
    lemma_le32_round_trip(n);
    assert(r.subrange(4, 8) =~= le32_bytes(n));
    assert(r.skip(header_part(image).len() as int) =~= data);
}

/// Outside the length field, the rebuilt header keeps the writer's bytes: the
/// signature, the version and the stage, frame-rate and frame-count fields.
pub proof fn lemma_spliced_header(image: Seq<u8>, data: Seq<u8>)
    requires
        image_usable(image, data.len()),
    ensures
        spliced(image, data).take(4) == image.take(4),
        spliced(image, data).subrange(8, header_part(image).len() as int)
            == image.subrange(8, header_part(image).len() as int),
{
    let h = header_part(image).len() as int;
    assert(spliced(image, data).take(4) =~= image.take(4));
    assert(spliced(image, data).subrange(8, h) =~= image.subrange(8, h));
}

/// Replaces the writer's end marker by `data` and patches the length field.
/// Fails when the writer's output does not end in the 2-byte zero marker after
/// the 8-byte preamble, or when the total does not fit in 32 bits.
pub fn splice_tag_data(image: Vec<u8>, data: &Vec<u8>) -> (r: Result<Vec<u8>, LoaderInfoError>)
    ensures
        r is Ok <==> image_usable(image@, data@.len()),
        r matches Ok(v) ==> v@ == spliced(image@, data@),
        r matches Err(e) ==> e == LoaderInfoError::InternalReconstructionInvariantViolated,
{
    let n = image.len();
    if n < 8 + END_MARKER_LEN || image[n - 1] != 0 || image[n - 2] != 0 {
        return Err(LoaderInfoError::InternalReconstructionInvariantViolated);
    }
    let header_len = n - END_MARKER_LEN;
    if header_len > 0xFFFF_FFFFusize || data.len() > 0xFFFF_FFFFusize - header_len {
        return Err(LoaderInfoError::InternalReconstructionInvariantViolated);
    }
    let ghost body = image@.take(header_len as int) + data@;
    let mut out = image;
    out.truncate(header_len);
    let mut i: usize = 0;
    while i < data.len()
        invariant
            i <= data@.len(),
            out@ == image@.take(header_len as int) + data@.take(i as int),
        decreases data@.len() - i,
    {
        out.push(data[i]);
        i = i + 1;
        assert(data@.take(i as int) == data@.take(i - 1).push(data@[i - 1]));
    }
    assert(data@.take(i as int) =~= data@);
    let total = out.len() as u32;
    let v1 = total / 256;
    let v2 = v1 / 256;
    let v3 = v2 / 256;
    out.set(LENGTH_FIELD_OFFSET, (total % 256) as u8);
    out.set(LENGTH_FIELD_OFFSET + 1, (v1 % 256) as u8);
    out.set(LENGTH_FIELD_OFFSET + 2, (v2 % 256) as u8);
    out.set(LENGTH_FIELD_OFFSET + 3, (v3 % 256) as u8);
    assert(out@ =~= spliced(image@, data@));
    Ok(out)
}

/// Byte order used by a byte array's multi-byte reads and writes.
#[derive(Clone, Copy, Debug, PartialEq, Eq, Structural)]
pub enum Endian {
    Big,
    Little,
}

/// A byte sequence with a read cursor and a default byte order.
#[derive(Clone, Debug)]
pub struct ByteArray {
    pub bytes: Vec<u8>,
    pub position: usize,
    pub endian: Endian,
}

/// The writer's output for `h` with its compression set to none.
pub open spec fn writer_image(h: MovieHeader) -> Seq<u8> {
    uncompressed_image(h.uncompressed_spec())
}

/// The length of the rebuilt header: the writer's output without its end marker.
pub open spec fn rebuilt_header_len(h: MovieHeader) -> int {
    header_part(writer_image(h)).len() as int
}

/// The rebuild succeeds: the stage rectangle can be encoded and the total
/// length fits in the 32-bit length field.
pub open spec fn rebuild_succeeds(h: MovieHeader, data: Seq<u8>) -> bool {
    &&& h.stage_size.fits_encoding()
    &&& rebuilt_header_len(h) + data.len() <= u32::MAX
}

/// `b` is the rebuilt container of a movie with header `h` and tag data `data`.
pub open spec fn rebuilt_as(b: ByteArray, h: MovieHeader, data: Seq<u8>) -> bool {
    let image = writer_image(h);
    let hl = rebuilt_header_len(h);
    &&& b.bytes@ == spliced(image, data)
    &&& 13 <= hl <= 29
    &&& b.bytes@.len() == hl + data.len()
    &&& le32_value(b.bytes@.subrange(4, 8)) == b.bytes@.len()
    &&& b.bytes@.skip(hl) == data
    &&& b.bytes@.take(4) == seq![0x46u8, 0x57u8, 0x53u8, h.version]
    &&& b.bytes@.subrange(8, hl) == image.subrange(8, hl)
    &&& b.bytes@[hl - 4] == (h.frame_rate as u16 % 256) as u8
    &&& b.bytes@[hl - 3] == (h.frame_rate as u16 / 256) as u8
    &&& b.bytes@[hl - 2] == (h.num_frames % 256) as u8
    &&& b.bytes@[hl - 1] == (h.num_frames / 256) as u8
    &&& b.position == 0
    &&& b.endian == Endian::Big
}

/// Two rebuilds of the same movie hold the same bytes.
pub proof fn lemma_rebuild_deterministic(b1: ByteArray, b2: ByteArray, h: MovieHeader, data: Seq<u8>)
    requires
        rebuilt_as(b1, h, data),
        rebuilt_as(b2, h, data),
    ensures
        b1.bytes@ == b2.bytes@,
{
}

/// Rebuilds an uncompressed container for `movie`: the header written with
/// no compression, then the tag data, with the length field patched. The
/// result is positioned at its start, in big-endian order. It fails only
/// when the stage rectangle cannot be encoded or the total length does not
/// fit in 32 bits.
pub fn rebuild_container(movie: &Movie) -> (r: Result<ByteArray, LoaderInfoError>)
    ensures
        r is Ok <==> rebuild_succeeds(movie.header, movie.data@),
        movie.header.stage_size.fits_encoding() && movie.data@.len() <= u32::MAX - 29
            ==> r is Ok,
        r matches Ok(b) ==> rebuilt_as(b, movie.header, movie.data@),
        r matches Err(e) ==> e == LoaderInfoError::InternalReconstructionInvariantViolated,
{
    let header = movie.header.uncompressed();
    let image = match write_uncompressed_header(&header) {
        Some(v) => v,
        None => return Err(LoaderInfoError::InternalReconstructionInvariantViolated),
    };
    let ghost written = image@;
    let ghost n = written.len() as int;
    match splice_tag_data(image, &movie.data) {
        Ok(bytes) => {
            proof {
                lemma_spliced_length(written, movie.data@);
                lemma_spliced_header(written, movie.data@);
                assert(written.take(4) =~= seq![0x46u8, 0x57u8, 0x53u8, movie.header.version]);
                let hl = n - 2;
                assert(bytes@.subrange(8, hl)[hl - 12] == written[hl - 4]);
                assert(bytes@.subrange(8, hl)[hl - 11] == written[hl - 3]);
                assert(bytes@.subrange(8, hl)[hl - 10] == written[hl - 2]);
                assert(bytes@.subrange(8, hl)[hl - 9] == written[hl - 1]);
            }
            Ok(ByteArray { bytes, position: 0, endian: Endian::Big })
        },
        Err(e) => Err(e),
    }
}

} // verus!
