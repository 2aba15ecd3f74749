use blosc_codec::{BloscCompression, BloscError, CodecError, Compressor, DecodePlan, FrameSizes};

const TEST_CHUNK_I16_BLOSC: [u8; 28] = [
    0x02, 0x01, 0x33, 0x02,
    0x0c, 0x00, 0x00, 0x00,
    0x0c, 0x00, 0x00, 0x00,
    0x1c, 0x00, 0x00, 0x00,
    0x00, 0x01, 0x00, 0x02, // payload is big endian
    0x00, 0x03, 0x00, 0x04,
    0x00, 0x05, 0x00, 0x06,
];

/// Stands in for the engine on a frame stored without compression: the
/// payload follows the header as it is.
fn copy_stored_payload(src: &[u8], capacity: usize) -> (i32, Vec<u8>) {
    let payload = &src[16..];
    let n = payload.len().min(capacity);
    (n as i32, payload[..n].to_vec())
}

fn decode_i16(src: &[u8], params: &BloscCompression) -> Result<Vec<i16>, CodecError> {
    assert_eq!(params.cname(), "lz4");
    let plan = BloscCompression::plan_decompress(src, 2)?;
    let (rsize, dest) = copy_stored_payload(src, plan.capacity());
    let bytes = BloscCompression::finish_decompress(&plan, rsize, dest)?;
    Ok(bytes
        .chunks(2)
        .map(|c| i16::from_be_bytes([c[0], c[1]]))
        .collect())
}

#[test]
fn test_read_doc_spec_chunk() {
    let blosc_lz4 =
        BloscCompression::from_config(Some(0), Some(5), Some("lz4"), Some(1)).unwrap();
    let decoded = decode_i16(TEST_CHUNK_I16_BLOSC.as_ref(), &blosc_lz4).unwrap();
    assert_eq!(decoded, vec![1i16, 2, 3, 4, 5, 6]);
    assert_eq!(decoded.len(), 0x0c / 2);
}

#[test]
fn header_sizes_are_read_little_endian() {
    let sizes = FrameSizes::from_header(&TEST_CHUNK_I16_BLOSC).unwrap();
    assert_eq!(sizes, FrameSizes { nbytes: 12, cbytes: 28, blocksize: 12 });

    let mut frame = TEST_CHUNK_I16_BLOSC;
    frame[4..8].copy_from_slice(&[0x01, 0x02, 0x03, 0x04]);
    frame[8..12].copy_from_slice(&[0xff, 0xff, 0xff, 0xff]);
    let sizes = FrameSizes::from_header(&frame).unwrap();
    assert_eq!(sizes.nbytes, 0x0403_0201);
    assert_eq!(sizes.blocksize, 0xffff_ffff);
    assert_eq!(sizes.cbytes, 28);
}

#[test]
fn header_of_other_version_declares_zero() {
    let mut frame = TEST_CHUNK_I16_BLOSC;
    frame[0] = 3;
    let sizes = FrameSizes::from_header(&frame).unwrap();
    assert_eq!(sizes, FrameSizes { nbytes: 0, cbytes: 0, blocksize: 0 });
    assert_eq!(
        BloscCompression::plan_decompress(&frame, 1),
        Err(CodecError::Decompression(BloscError))
    );
}

#[test]
fn truncated_input_rejected() {
    for len in 0..16 {
        let src = &TEST_CHUNK_I16_BLOSC[..len];
        assert_eq!(FrameSizes::from_header(src), Err(CodecError::TruncatedHeader));
        assert_eq!(
            BloscCompression::plan_decompress(src, 2),
            Err(CodecError::TruncatedHeader)
        );
    }
    assert!(FrameSizes::from_header(&TEST_CHUNK_I16_BLOSC[..16]).is_ok());
}

#[test]
fn frame_declaring_more_than_it_holds_rejected() {
    assert_eq!(
        BloscCompression::plan_decompress(&TEST_CHUNK_I16_BLOSC[..27], 2),
        Err(CodecError::Decompression(BloscError))
    );
}

#[test]
fn oversized_uncompressed_length_rejected() {
    let mut frame = TEST_CHUNK_I16_BLOSC;
    frame[4..8].copy_from_slice(&[0xff, 0xff, 0xff, 0x7f]);
    assert_eq!(
        BloscCompression::plan_decompress(&frame, 2),
        Err(CodecError::Decompression(BloscError))
    );
}

#[test]
fn capacity_covers_declared_length() {
    for declared in [0u32, 1, 5, 12, 13, 1000, 0x7fff_ffef] {
        let mut frame = TEST_CHUNK_I16_BLOSC;
        frame[4..8].copy_from_slice(&declared.to_le_bytes());
        let plan = BloscCompression::plan_decompress(&frame, 2).unwrap();
        assert_eq!(plan.capacity(), declared as usize);
        assert_eq!(plan.element_count, declared as usize / 2);
    }
}

#[test]
fn plan_of_doc_chunk() {
    let plan = BloscCompression::plan_decompress(&TEST_CHUNK_I16_BLOSC, 2).unwrap();
    assert_eq!(
        plan,
        DecodePlan {
            sizes: FrameSizes { nbytes: 12, cbytes: 28, blocksize: 12 },
            typesize: 2,
            element_count: 6,
        }
    );
    assert_eq!(plan.capacity(), 12);
}

#[test]
fn output_keeps_whole_elements_of_reported_length() {
    let plan = BloscCompression::plan_decompress(&TEST_CHUNK_I16_BLOSC, 4).unwrap();
    assert_eq!(plan.element_count, 3);
    let dest: Vec<u8> = (1..=12).collect();
    let out = BloscCompression::finish_decompress(&plan, 11, dest.clone()).unwrap();
    assert_eq!(out, vec![1, 2, 3, 4, 5, 6, 7, 8]);
    assert_eq!(out.len() / 4, 11 / 4);
    let out = BloscCompression::finish_decompress(&plan, 12, dest.clone()).unwrap();
    assert_eq!(out, dest);
    let out = BloscCompression::finish_decompress(&plan, 3, dest).unwrap();
    assert!(out.is_empty());
}

#[test]
fn engine_failure_reported() {
    let plan = BloscCompression::plan_decompress(&TEST_CHUNK_I16_BLOSC, 2).unwrap();
    let dest = vec![0u8; 12];
    for rsize in [0, -1, i32::MIN] {
        assert_eq!(
            BloscCompression::finish_decompress(&plan, rsize, dest.clone()),
            Err(CodecError::Decompression(BloscError))
        );
    }
}

#[test]
fn reported_length_beyond_capacity_refused() {
    let plan = BloscCompression::plan_decompress(&TEST_CHUNK_I16_BLOSC, 2).unwrap();
    assert_eq!(
        BloscCompression::finish_decompress(&plan, 14, vec![0u8; 14]),
        Err(CodecError::Decompression(BloscError))
    );
    assert_eq!(
        BloscCompression::finish_decompress(&plan, 12, vec![0u8; 10]),
        Err(CodecError::Decompression(BloscError))
    );
}

#[test]
fn unknown_algorithm_rejected() {
    assert_eq!(
        BloscCompression::from_config(None, None, Some("unknown"), None),
        Err(CodecError::Configuration)
    );
    assert_eq!(
        BloscCompression::from_config(Some(0), Some(5), None, Some(1)),
        Err(CodecError::Configuration)
    );
    assert_eq!(
        BloscCompression::from_config(None, None, Some("LZ4"), None),
        Err(CodecError::Configuration)
    );
}

#[test]
fn defaults_fill_omitted_fields() {
    let p = BloscCompression::from_config(None, None, Some("zstd"), None).unwrap();
    assert_eq!(p.blocksize(), 0);
    assert_eq!(p.clevel(), 5);
    assert_eq!(p.shuffle(), 1);
    assert_eq!(p.compressor(), Compressor::Zstd);
    assert_eq!(p.cname(), "zstd");

    let q = BloscCompression::from_config(Some(4096), Some(9), Some("zlib"), Some(2)).unwrap();
    assert_eq!(q.blocksize(), 4096);
    assert_eq!(q.clevel(), 9);
    assert_eq!(q.shuffle(), 2);
    assert_eq!(q.cname(), "zlib");
}

#[test]
fn default_parameter_set() {
    let d = BloscCompression::default();
    assert_eq!(d.cname(), "blosclz");
    assert_eq!(d.blocksize(), 0);
    assert_eq!(d.clevel(), 5);
    assert_eq!(d.shuffle(), 1);
    assert_eq!(
        d,
        BloscCompression::from_config(None, None, Some("blosclz"), None).unwrap()
    );
}

#[test]
fn construction_is_idempotent() {
    let a = BloscCompression::from_config(Some(0), Some(5), Some("lz4"), Some(1)).unwrap();
    let b = BloscCompression::from_config(Some(0), Some(5), Some("lz4"), Some(1)).unwrap();
    assert_eq!(a, b);
    assert_eq!(a.clone(), b);
    let c = BloscCompression::from_config(Some(0), Some(6), Some("lz4"), Some(1)).unwrap();
    assert_ne!(a, c);
}

#[test]
fn compressor_names_round_trip() {
    for c in [Compressor::BloscLz, Compressor::Lz4, Compressor::Zlib, Compressor::Zstd] {
        assert_eq!(Compressor::from_name(c.name()), Some(c));
    }
    assert_eq!(Compressor::from_name(""), None);
    assert_eq!(Compressor::from_name("lz44"), None);
}

#[test]
fn error_message() {
    assert_eq!(BloscError.message(), "unspecified error from c-Blosc");
}
