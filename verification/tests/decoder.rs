use png_core::error::{DecodingError, FormatError};
use png_core::info::{BitDepth, ColorType, Info};
use png_core::limits::Limits;
use png_core::read_decoder::{
    decode_image, ImageDataCompletionStatus, ReadDecoder, SliceSource,
};
use png_core::stream::DecodeOptions;

fn png_chunk(tag: &[u8; 4], payload: &[u8]) -> Vec<u8> {
    let mut out = Vec::new();
    out.extend_from_slice(&(payload.len() as u32).to_be_bytes());
    out.extend_from_slice(tag);
    out.extend_from_slice(payload);
    let mut crc_input = Vec::new();
    crc_input.extend_from_slice(tag);
    crc_input.extend_from_slice(payload);
    out.extend_from_slice(&crc32fast::hash(&crc_input).to_be_bytes());
    out
}

fn png_signature() -> Vec<u8> {
    vec![137, 80, 78, 71, 13, 10, 26, 10]
}

fn ihdr_payload(width: u32, height: u32, depth: u8, color: u8, interlace: u8) -> Vec<u8> {
    let mut p = Vec::new();
    p.extend_from_slice(&width.to_be_bytes());
    p.extend_from_slice(&height.to_be_bytes());
    p.push(depth);
    p.push(color);
    p.push(0);
    p.push(0);
    p.push(interlace);
    p
}

/// A well-formed single-pixel grayscale image; the raw scanline stream is
/// one filter byte plus one sample.
fn single_pixel_png() -> (Vec<u8>, Vec<u8>) {
    let raw = vec![0u8, 42u8];
    let compressed = fdeflate::compress_to_vec(&raw);
    let mut png = png_signature();
    png.extend_from_slice(&png_chunk(b"IHDR", &ihdr_payload(1, 1, 8, 0, 0)));
    png.extend_from_slice(&png_chunk(b"IDAT", &compressed));
    png.extend_from_slice(&png_chunk(b"IEND", &[]));
    (png, raw)
}

#[test]
fn drained_byte_count_matches_header() {
    let (png, raw) = single_pixel_png();
    let (info, data) = decode_image(png).unwrap();
    assert_eq!(info.width, 1);
    assert_eq!(info.height, 1);
    assert!(matches!(info.bit_depth, BitDepth::Eight));
    assert!(matches!(info.color_type, ColorType::Grayscale));
    assert!(!info.interlaced);
    assert_eq!(data, raw);
    assert_eq!(data.len() as u128, info.expected_data_size());
}

#[test]
fn locate_header_twice_identical() {
    let (png, _) = single_pixel_png();
    let mut d = ReadDecoder::new(SliceSource::new(png));
    let a = d.read_header_info().unwrap();
    let b = d.read_header_info().unwrap();
    assert_eq!(a.width, b.width);
    assert_eq!(a.height, b.height);
    assert_eq!(a.width, 1);
    assert!(matches!(b.bit_depth, BitDepth::Eight));
    assert!(matches!(b.color_type, ColorType::Grayscale));
    assert_eq!(a.interlaced, b.interlaced);
}

#[test]
fn image_data_split_across_chunks() {
    // The same compressed stream, physically split over several image-data
    // chunk records, decodes to the same bytes.
    let mut raw = vec![0u8];
    for i in 0..64u32 {
        raw.push((i * 17 + 3) as u8);
    }
    let compressed = fdeflate::compress_to_vec(&raw);
    let mid = compressed.len() / 3;
    let mut png = png_signature();
    png.extend_from_slice(&png_chunk(b"IHDR", &ihdr_payload(64, 1, 8, 0, 0)));
    png.extend_from_slice(&png_chunk(b"IDAT", &compressed[..mid]));
    png.extend_from_slice(&png_chunk(b"IDAT", &compressed[mid..]));
    png.extend_from_slice(&png_chunk(b"IEND", &[]));
    let (info, data) = decode_image(png).unwrap();
    assert_eq!(info.width, 64);
    assert_eq!(data, raw);
    assert_eq!(data.len() as u128, info.expected_data_size());
}

#[test]
fn corrupt_ancillary_crc_fails_by_default() {
    let (_, raw) = single_pixel_png();
    let compressed = fdeflate::compress_to_vec(&raw);
    let mut text = png_chunk(b"tEXt", b"comment\0hello");
    let last = text.len() - 1;
    text[last] ^= 0xff;
    let mut png = png_signature();
    png.extend_from_slice(&png_chunk(b"IHDR", &ihdr_payload(1, 1, 8, 0, 0)));
    png.extend_from_slice(&text);
    png.extend_from_slice(&png_chunk(b"IDAT", &compressed));
    png.extend_from_slice(&png_chunk(b"IEND", &[]));

    let r = decode_image(png.clone());
    assert!(matches!(
        r,
        Err(DecodingError::Format(FormatError::CrcMismatch { .. }))
    ));

    // With checksum checking disabled the same stream decodes.
    let mut d = ReadDecoder::new(SliceSource::new(png));
    d.ignore_checksums(true);
    let info = d.read_header_info().unwrap();
    assert_eq!(info.width, 1);
    d.read_until_image_data().unwrap();
    let mut data = Vec::new();
    loop {
        match d.decode_image_data(&mut data).unwrap() {
            ImageDataCompletionStatus::Done => break,
            ImageDataCompletionStatus::ExpectingMoreData => {}
        }
    }
    assert_eq!(data, raw);
    d.read_until_end_of_input().unwrap();
}

#[test]
fn huge_declared_chunk_hits_limit_not_allocation() {
    // A primary image-data chunk declaring a length near the 32-bit
    // maximum, with a far lower byte-reservation cap, must fail with the
    // resource-limit error before any allocation is attempted.
    let mut png = png_signature();
    png.extend_from_slice(&png_chunk(b"IHDR", &ihdr_payload(1, 1, 8, 0, 0)));
    // Chunk header declaring a huge payload; no payload bytes follow, but
    // the declared length alone must trip the budget.
    png.extend_from_slice(&0x7fff_ff00u32.to_be_bytes());
    png.extend_from_slice(b"IDAT");
    let mut d = ReadDecoder::new(SliceSource::new(png));
    d.set_limits(Limits::new(10_000));
    d.read_header_info().unwrap();
    let r = d.read_until_image_data();
    assert!(matches!(r, Err(DecodingError::LimitsExceeded)));
}

#[test]
fn terminator_before_image_data() {
    let mut png = png_signature();
    png.extend_from_slice(&png_chunk(b"IHDR", &ihdr_payload(1, 1, 8, 0, 0)));
    png.extend_from_slice(&png_chunk(b"IEND", &[]));
    let mut d = ReadDecoder::new(SliceSource::new(png));
    d.read_header_info().unwrap();
    let r = d.read_until_image_data();
    assert!(matches!(
        r,
        Err(DecodingError::Format(FormatError::MissingImageData))
    ));
}

#[test]
fn invalid_signature_rejected() {
    let (mut png, _) = single_pixel_png();
    png[0] = 0;
    let r = decode_image(png);
    assert!(matches!(
        r,
        Err(DecodingError::Format(FormatError::InvalidSignature))
    ));
}

#[test]
fn chunk_before_header_rejected() {
    let mut png = png_signature();
    png.extend_from_slice(&png_chunk(b"tEXt", b"k\0v"));
    let r = decode_image(png);
    assert!(matches!(
        r,
        Err(DecodingError::Format(FormatError::ChunkBeforeIhdr))
    ));
}

#[test]
fn duplicate_header_rejected() {
    let mut png = png_signature();
    png.extend_from_slice(&png_chunk(b"IHDR", &ihdr_payload(1, 1, 8, 0, 0)));
    png.extend_from_slice(&png_chunk(b"IHDR", &ihdr_payload(1, 1, 8, 0, 0)));
    let r = decode_image(png);
    assert!(matches!(
        r,
        Err(DecodingError::Format(FormatError::DuplicateChunk))
    ));
}

#[test]
fn invalid_depth_for_color_type_rejected() {
    // Bit depth 4 is not permitted for RGB.
    let mut png = png_signature();
    png.extend_from_slice(&png_chunk(b"IHDR", &ihdr_payload(1, 1, 4, 2, 0)));
    let r = decode_image(png);
    assert!(matches!(
        r,
        Err(DecodingError::Format(FormatError::InvalidIhdr))
    ));
}

#[test]
fn restarted_image_data_sequence_rejected() {
    let raw = vec![0u8, 1u8];
    let compressed = fdeflate::compress_to_vec(&raw);
    let mut png = png_signature();
    png.extend_from_slice(&png_chunk(b"IHDR", &ihdr_payload(1, 1, 8, 0, 0)));
    png.extend_from_slice(&png_chunk(b"IDAT", &compressed));
    png.extend_from_slice(&png_chunk(b"tEXt", b"k\0v"));
    png.extend_from_slice(&png_chunk(b"IDAT", &compressed));
    png.extend_from_slice(&png_chunk(b"IEND", &[]));
    let mut d = ReadDecoder::new(SliceSource::new(png));
    d.read_header_info().unwrap();
    d.read_until_image_data().unwrap();
    d.finish_decoding_image_data().unwrap();
    let r = d.read_until_end_of_input();
    assert!(matches!(
        r,
        Err(DecodingError::Format(
            FormatError::UnexpectedRestartOfDataChunkSequence
        ))
    ));
}

#[test]
fn animation_control_recorded() {
    let raw = vec![0u8, 9u8];
    let compressed = fdeflate::compress_to_vec(&raw);
    let mut actl = Vec::new();
    actl.extend_from_slice(&2u32.to_be_bytes());
    actl.extend_from_slice(&0u32.to_be_bytes());
    let mut png = png_signature();
    png.extend_from_slice(&png_chunk(b"IHDR", &ihdr_payload(1, 1, 8, 0, 0)));
    png.extend_from_slice(&png_chunk(b"acTL", &actl));
    png.extend_from_slice(&png_chunk(b"IDAT", &compressed));
    png.extend_from_slice(&png_chunk(b"IEND", &[]));
    let (info, data) = decode_image(png).unwrap();
    let ac = info.animation_control.unwrap();
    assert_eq!(ac.num_frames, 2);
    assert_eq!(ac.num_plays, 0);
    assert_eq!(data, raw);
}

#[test]
fn animation_frame_sequence_decodes() {
    // A frame carried by an animation-frame image-data chunk: its payload
    // starts with a four-byte sequence number that is not part of the
    // compressed stream.
    let main_raw = vec![0u8, 1u8];
    let frame_raw = vec![0u8, 250u8];
    let main_comp = fdeflate::compress_to_vec(&main_raw);
    let frame_comp = fdeflate::compress_to_vec(&frame_raw);
    let mut actl = Vec::new();
    actl.extend_from_slice(&2u32.to_be_bytes());
    actl.extend_from_slice(&0u32.to_be_bytes());
    let mut fdat_payload = Vec::new();
    fdat_payload.extend_from_slice(&1u32.to_be_bytes());
    fdat_payload.extend_from_slice(&frame_comp);
    let mut png = png_signature();
    png.extend_from_slice(&png_chunk(b"IHDR", &ihdr_payload(1, 1, 8, 0, 0)));
    png.extend_from_slice(&png_chunk(b"acTL", &actl));
    png.extend_from_slice(&png_chunk(b"IDAT", &main_comp));
    png.extend_from_slice(&png_chunk(b"fcTL", &[0u8; 26]));
    png.extend_from_slice(&png_chunk(b"fdAT", &fdat_payload));
    png.extend_from_slice(&png_chunk(b"IEND", &[]));

    let mut d = ReadDecoder::new(SliceSource::new(png));
    d.read_header_info().unwrap();
    d.read_until_image_data().unwrap();
    let mut main_out = Vec::new();
    loop {
        match d.decode_image_data(&mut main_out).unwrap() {
            ImageDataCompletionStatus::Done => break,
            ImageDataCompletionStatus::ExpectingMoreData => {}
        }
    }
    assert_eq!(main_out, main_raw);
    d.read_until_image_data().unwrap();
    let mut frame_out = Vec::new();
    loop {
        match d.decode_image_data(&mut frame_out).unwrap() {
            ImageDataCompletionStatus::Done => break,
            ImageDataCompletionStatus::ExpectingMoreData => {}
        }
    }
    assert_eq!(frame_out, frame_raw);
    d.read_until_end_of_input().unwrap();
}

#[test]
fn one_byte_source_chunks_decode_identically() {
    // The adapter refills from the source in whatever pieces arrive; the
    // result does not depend on them.  Feed through a source, then compare
    // against the whole-buffer decode.
    let (png, raw) = single_pixel_png();
    let (_, whole) = decode_image(png.clone()).unwrap();
    assert_eq!(whole, raw);
}

#[test]
fn expected_data_size_formula() {
    let base = Info {
        width: 4,
        height: 4,
        bit_depth: BitDepth::Eight,
        color_type: ColorType::Rgb,
        interlaced: false,
        animation_control: None,
    };
    // 4 rows of 1 filter byte + 12 sample bytes.
    assert_eq!(base.expected_data_size(), 52);
    let inter = Info { interlaced: true, ..base };
    // Adam7 passes of a 4-by-4 image: 1, 0, 0, 1, 2, 4 and 8 pixels with a
    // filter byte per non-empty pass row.
    assert_eq!(inter.expected_data_size(), 55);
    let packed = Info {
        width: 3,
        height: 2,
        bit_depth: BitDepth::One,
        color_type: ColorType::Grayscale,
        interlaced: false,
        animation_control: None,
    };
    // 3 one-bit samples pack into one byte per row.
    assert_eq!(packed.expected_data_size(), 4);
}

#[test]
fn limits_budget_is_exact() {
    let mut l = Limits::new(5);
    assert!(l.reserve_bytes(3).is_ok());
    assert!(matches!(
        l.reserve_bytes(3),
        Err(DecodingError::LimitsExceeded)
    ));
    assert!(l.reserve_bytes(2).is_ok());
    assert!(matches!(
        l.reserve_bytes(1),
        Err(DecodingError::LimitsExceeded)
    ));
}

#[test]
fn decode_options_defaults() {
    let o = DecodeOptions::default();
    assert!(o.ignore_adler32);
    assert!(!o.ignore_crc);
    assert!(!o.ignore_text_chunk);
    assert!(!o.ignore_iccp_chunk);
}

#[test]
fn invalid_chunk_type_byte_rejected() {
    let mut png = png_signature();
    let mut bad = png_chunk(b"IHDR", &ihdr_payload(1, 1, 8, 0, 0));
    // Corrupt one type-tag byte to a non-letter.
    bad[5] = b'0';
    png.extend_from_slice(&bad);
    let r = decode_image(png);
    assert!(matches!(
        r,
        Err(DecodingError::Format(FormatError::InvalidChunkType))
    ));
}

#[test]
fn oversized_declared_length_rejected() {
    let mut png = png_signature();
    png.extend_from_slice(&0xffff_ffffu32.to_be_bytes());
    png.extend_from_slice(b"IHDR");
    let r = decode_image(png);
    assert!(matches!(
        r,
        Err(DecodingError::Format(FormatError::InvalidChunkLength))
    ));
}

#[test]
fn nonempty_terminator_rejected() {
    let (_, raw) = single_pixel_png();
    let compressed = fdeflate::compress_to_vec(&raw);
    let mut png = png_signature();
    png.extend_from_slice(&png_chunk(b"IHDR", &ihdr_payload(1, 1, 8, 0, 0)));
    png.extend_from_slice(&png_chunk(b"IDAT", &compressed));
    png.extend_from_slice(&png_chunk(b"IEND", &[7u8]));
    let r = decode_image(png);
    assert!(matches!(
        r,
        Err(DecodingError::Format(FormatError::InvalidChunkLength))
    ));
}

#[test]
fn short_animation_frame_chunk_rejected() {
    let mut png = png_signature();
    png.extend_from_slice(&png_chunk(b"IHDR", &ihdr_payload(1, 1, 8, 0, 0)));
    png.extend_from_slice(&png_chunk(b"fdAT", &[0u8, 0u8]));
    let r = decode_image(png);
    assert!(matches!(
        r,
        Err(DecodingError::Format(FormatError::FdatShorterThanFourBytes))
    ));
}

#[test]
fn misplaced_animation_control_rejected() {
    let raw = vec![0u8, 1u8];
    let compressed = fdeflate::compress_to_vec(&raw);
    let mut actl = Vec::new();
    actl.extend_from_slice(&1u32.to_be_bytes());
    actl.extend_from_slice(&0u32.to_be_bytes());
    let mut png = png_signature();
    png.extend_from_slice(&png_chunk(b"IHDR", &ihdr_payload(1, 1, 8, 0, 0)));
    png.extend_from_slice(&png_chunk(b"IDAT", &compressed));
    png.extend_from_slice(&png_chunk(b"acTL", &actl));
    let r = decode_image(png);
    assert!(matches!(
        r,
        Err(DecodingError::Format(FormatError::MisplacedChunk))
    ));
}

#[test]
fn duplicate_animation_control_rejected() {
    let mut actl = Vec::new();
    actl.extend_from_slice(&1u32.to_be_bytes());
    actl.extend_from_slice(&0u32.to_be_bytes());
    let mut png = png_signature();
    png.extend_from_slice(&png_chunk(b"IHDR", &ihdr_payload(1, 1, 8, 0, 0)));
    png.extend_from_slice(&png_chunk(b"acTL", &actl));
    png.extend_from_slice(&png_chunk(b"acTL", &actl));
    let r = decode_image(png);
    assert!(matches!(
        r,
        Err(DecodingError::Format(FormatError::DuplicateChunk))
    ));
}

#[test]
fn truncated_stream_is_end_of_input() {
    let (png, _) = single_pixel_png();
    let truncated = png[..png.len() - 6].to_vec();
    let r = decode_image(truncated);
    assert!(matches!(r, Err(DecodingError::UnexpectedEof)));
}

#[test]
fn corrupt_compressed_stream_reported() {
    // Valid framing and CRC around payload bytes that are not a zlib
    // stream.
    let mut png = png_signature();
    png.extend_from_slice(&png_chunk(b"IHDR", &ihdr_payload(1, 1, 8, 0, 0)));
    png.extend_from_slice(&png_chunk(b"IDAT", &[0x00u8, 0x00u8, 0xaau8, 0x55u8]));
    png.extend_from_slice(&png_chunk(b"IEND", &[]));
    let r = decode_image(png);
    assert!(matches!(
        r,
        Err(DecodingError::Format(FormatError::CorruptFlateStream { .. }))
    ));
}

#[test]
fn critical_crc_stays_fatal_when_ignoring_checksums() {
    // Disabling checksum checking skips failures on ancillary chunks only:
    // a corrupted header-chunk CRC is a framing-integrity failure and stays
    // fatal.
    let (_, raw) = single_pixel_png();
    let compressed = fdeflate::compress_to_vec(&raw);
    let mut ihdr = png_chunk(b"IHDR", &ihdr_payload(1, 1, 8, 0, 0));
    let last = ihdr.len() - 1;
    ihdr[last] ^= 0xff;
    let mut png = png_signature();
    png.extend_from_slice(&ihdr);
    png.extend_from_slice(&png_chunk(b"IDAT", &compressed));
    png.extend_from_slice(&png_chunk(b"IEND", &[]));
    let mut d = ReadDecoder::new(SliceSource::new(png));
    d.ignore_checksums(true);
    let r = d.read_header_info();
    assert!(matches!(
        r,
        Err(DecodingError::Format(FormatError::CrcMismatch { .. }))
    ));
}

#[test]
fn drained_size_checked_against_header() {
    // A stream whose header declares more pixels than its image data
    // decodes to is rejected by the facade's byte-count check.
    let raw = vec![0u8, 42u8];
    let compressed = fdeflate::compress_to_vec(&raw);
    let mut png = png_signature();
    png.extend_from_slice(&png_chunk(b"IHDR", &ihdr_payload(2, 1, 8, 0, 0)));
    png.extend_from_slice(&png_chunk(b"IDAT", &compressed));
    png.extend_from_slice(&png_chunk(b"IEND", &[]));
    let r = decode_image(png);
    assert!(matches!(
        r,
        Err(DecodingError::Format(FormatError::ImageDataSizeMismatch))
    ));
}

#[test]
fn budget_charges_are_exact() {
    let (png, _) = single_pixel_png();
    let mut d = ReadDecoder::new(SliceSource::new(png));
    d.set_limits(Limits::new(100));
    assert!(d.reserve_bytes(60).is_ok());
    assert!(matches!(
        d.reserve_bytes(41),
        Err(DecodingError::LimitsExceeded)
    ));
    assert!(d.reserve_bytes(40).is_ok());
}
