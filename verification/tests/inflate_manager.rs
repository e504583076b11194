use png_core::inflate::{inflate_in_slices, ZlibStream};

fn sample_bytes(n: usize) -> Vec<u8> {
    let mut v = Vec::with_capacity(n);
    let mut x: u32 = 0x12345;
    for _ in 0..n {
        x = x.wrapping_mul(1103515245).wrapping_add(12345);
        v.push((x >> 16) as u8);
    }
    v
}

#[test]
fn roundtrip_single_byte_slices() {
    // Reference-compressed bytes, fed one byte at a time, come back exactly.
    let data = sample_bytes(4096);
    let compressed = fdeflate::compress_to_vec(&data);
    let cuts = vec![1usize; compressed.len()];
    let out = inflate_in_slices(&compressed, &cuts).unwrap();
    assert_eq!(out, data);
}

#[test]
fn rechunking_is_deterministic() {
    // The same total bytes split differently always yield identical output.
    let data = sample_bytes(20000);
    let compressed = fdeflate::compress_to_vec(&data);
    let a = inflate_in_slices(&compressed, &vec![7usize; compressed.len()]).unwrap();
    let b = inflate_in_slices(&compressed, &vec![1usize, 2, 3, 4, 5, 4096]).unwrap();
    let c = inflate_in_slices(&compressed, &Vec::new()).unwrap();
    assert_eq!(a, data);
    assert_eq!(b, data);
    assert_eq!(c, data);
    let reference = fdeflate::decompress_to_vec(&compressed).unwrap();
    assert_eq!(a, reference);
}

#[test]
fn every_supplied_byte_is_accepted() {
    // Feeding one byte at a time, the manager never reports zero consumed
    // bytes: each call accepts the byte (decompressing or staging it).
    let data = sample_bytes(2000);
    let compressed = fdeflate::compress_to_vec(&data);
    let mut z = ZlibStream::new();
    let mut out = Vec::new();
    for i in 0..compressed.len() {
        let n = z.decompress(&compressed[i..i + 1], &mut out).unwrap();
        assert_eq!(n, 1);
    }
    z.finish_compressed_chunks(&mut out).unwrap();
    assert_eq!(out, data);
}

fn push_bits(out: &mut Vec<u8>, acc: &mut u32, nbits: &mut u32, value: u32, count: u32) {
    *acc |= value << *nbits;
    *nbits += count;
    while *nbits >= 8 {
        out.push((*acc & 0xff) as u8);
        *acc >>= 8;
        *nbits -= 8;
    }
}

fn push_huffman(out: &mut Vec<u8>, acc: &mut u32, nbits: &mut u32, code: u32, count: u32) {
    // Huffman codes are written starting from their most significant bit.
    let mut i = count;
    while i > 0 {
        i -= 1;
        push_bits(out, acc, nbits, (code >> i) & 1, 1);
    }
}

fn flush_byte(out: &mut Vec<u8>, acc: &mut u32, nbits: &mut u32) {
    if *nbits > 0 {
        out.push((*acc & 0xff) as u8);
        *acc = 0;
        *nbits = 0;
    }
}

#[test]
fn maximum_backreference_distance() {
    // A hand-built stream: a stored block of 32768 bytes, then a fixed
    // Huffman block with one length-3 back-reference at the maximum
    // distance of 32768, reaching the very first output bytes.  It must
    // decode identically however the input is sliced, across the internal
    // compaction thresholds.
    let window = sample_bytes(32768);
    let mut s = vec![0x78u8, 0x01u8];
    let mut acc: u32 = 0;
    let mut nbits: u32 = 0;
    // Stored block: not final, type 0, then byte alignment.
    push_bits(&mut s, &mut acc, &mut nbits, 0, 3);
    flush_byte(&mut s, &mut acc, &mut nbits);
    s.extend_from_slice(&[0x00, 0x80, 0xff, 0x7f]);
    s.extend_from_slice(&window);
    // Final block, fixed Huffman codes.
    push_bits(&mut s, &mut acc, &mut nbits, 1, 1);
    push_bits(&mut s, &mut acc, &mut nbits, 1, 2);
    // Length symbol 257 (length 3), then distance symbol 29 with 13 extra
    // bits selecting distance 24577 + 8191 = 32768, then end of block.
    push_huffman(&mut s, &mut acc, &mut nbits, 0b0000001, 7);
    push_huffman(&mut s, &mut acc, &mut nbits, 0b11101, 5);
    push_bits(&mut s, &mut acc, &mut nbits, 0x1fff, 13);
    push_huffman(&mut s, &mut acc, &mut nbits, 0, 7);
    flush_byte(&mut s, &mut acc, &mut nbits);
    // Checksum field; ignored by the default configuration.
    s.extend_from_slice(&[0, 0, 0, 0]);

    let mut expected = window.clone();
    expected.extend_from_slice(&window[0..3]);

    let small = inflate_in_slices(&s, &vec![777usize; s.len()]).unwrap();
    assert_eq!(small, expected);
    let single = inflate_in_slices(&s, &Vec::new()).unwrap();
    assert_eq!(single, expected);
}

#[test]
fn adler_flag_frozen_after_start() {
    let data = sample_bytes(100);
    let compressed = fdeflate::compress_to_vec(&data);
    let mut z = ZlibStream::new();
    assert!(z.set_ignore_adler32(false));
    assert!(z.set_ignore_adler32(true));
    let mut out = Vec::new();
    z.decompress(&compressed[..4], &mut out).unwrap();
    // Once decompression has started the flag is frozen: the change is
    // rejected, not silently applied.
    assert!(!z.set_ignore_adler32(false));
    assert!(z.ignore_adler32());
}

#[test]
fn adler_checked_when_enabled() {
    let data = sample_bytes(300);
    let mut compressed = fdeflate::compress_to_vec(&data);
    let last = compressed.len() - 1;
    compressed[last] ^= 0x55;

    // Checking enabled: the corrupted trailer is a format error.
    let mut strict = ZlibStream::new();
    assert!(strict.set_ignore_adler32(false));
    let mut out = Vec::new();
    let mut failed = false;
    match strict.decompress(&compressed, &mut out) {
        Err(_) => failed = true,
        Ok(_) => match strict.finish_compressed_chunks(&mut out) {
            Err(_) => failed = true,
            Ok(()) => {}
        },
    }
    assert!(failed);

    // Default configuration ignores the trailer and reproduces the bytes.
    let mut lax = ZlibStream::new();
    let mut out2 = Vec::new();
    lax.decompress(&compressed, &mut out2).unwrap();
    lax.finish_compressed_chunks(&mut out2).unwrap();
    assert_eq!(out2, data);
}

#[test]
fn corrupt_stream_is_a_format_error() {
    let mut z = ZlibStream::new();
    let mut out = Vec::new();
    // An invalid stream header cannot be a valid zlib stream.
    let r = z.decompress(&[0x00u8, 0x00u8, 0x12u8, 0x34u8], &mut out);
    assert!(r.is_err());
}

#[test]
fn reset_preserves_adler_flag() {
    // The original behaviour: a reset reinitialises the decoding state but
    // keeps the configured Adler-32 flag, and unfreezes it again.
    let data = sample_bytes(64);
    let compressed = fdeflate::compress_to_vec(&data);
    let mut z = ZlibStream::new();
    assert!(z.set_ignore_adler32(false));
    let mut out = Vec::new();
    z.decompress(&compressed[..4], &mut out).unwrap();
    assert!(!z.set_ignore_adler32(true));
    z.reset();
    assert!(!z.ignore_adler32());
    assert!(z.set_ignore_adler32(true));
    assert!(z.ignore_adler32());
}

#[test]
fn slicing_driver_is_lenient_about_trailer() {
    // The slicing driver runs a default (lax) session: a stream complete
    // except for a corrupted trailer still decodes, matching its contract,
    // which promises success exactly on inputs containing a complete
    // stream under that leniency.
    let data = sample_bytes(512);
    let mut compressed = fdeflate::compress_to_vec(&data);
    let last = compressed.len() - 1;
    compressed[last] ^= 0x0f;
    let out = inflate_in_slices(&compressed, &vec![3usize; compressed.len()]).unwrap();
    assert_eq!(out, data);
}
