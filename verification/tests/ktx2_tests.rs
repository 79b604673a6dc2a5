use bc6h_compression::ktx2::{
    floor_log2_u32, ktx2_output_header_of, parse_ktx2, require_cubemap, retained_level_count,
    write_ktx2, Ktx2Error, Ktx2Header, Ktx2Level,
};

const IDENT: [u8; 12] = [
    0xab, 0x4b, 0x54, 0x58, 0x20, 0x32, 0x30, 0xbb, 0x0d, 0x0a, 0x1a, 0x0a,
];

fn u32_at(bytes: &[u8], off: usize) -> u32 {
    u32::from_le_bytes([bytes[off], bytes[off + 1], bytes[off + 2], bytes[off + 3]])
}

fn u64_at(bytes: &[u8], off: usize) -> u64 {
    let mut raw = [0u8; 8];
    raw.copy_from_slice(&bytes[off..off + 8]);
    u64::from_le_bytes(raw)
}

/// A minimal valid input: RGBA32-float, no supercompression, one level
/// whose payload is `payload`, with the given metadata blocks.
fn sample_input(scheme: u32, format: u32, dfd: &[u8], payload: &[u8]) -> Vec<u8> {
    let base = 80 + 24; // header + one index entry
    let dfd_off = base as u32;
    let payload_off = (base + dfd.len()) as u64;
    let mut out = Vec::new();
    out.extend_from_slice(&IDENT);
    out.extend_from_slice(&format.to_le_bytes());
    out.extend_from_slice(&4u32.to_le_bytes()); // type size
    out.extend_from_slice(&64u32.to_le_bytes()); // width
    out.extend_from_slice(&64u32.to_le_bytes()); // height
    out.extend_from_slice(&0u32.to_le_bytes()); // depth
    out.extend_from_slice(&0u32.to_le_bytes()); // layers
    out.extend_from_slice(&6u32.to_le_bytes()); // faces
    out.extend_from_slice(&1u32.to_le_bytes()); // levels
    out.extend_from_slice(&scheme.to_le_bytes());
    out.extend_from_slice(&dfd_off.to_le_bytes());
    out.extend_from_slice(&(dfd.len() as u32).to_le_bytes());
    out.extend_from_slice(&dfd_off.to_le_bytes()); // kvd offset, empty
    out.extend_from_slice(&0u32.to_le_bytes());
    out.extend_from_slice(&(dfd_off as u64).to_le_bytes()); // sgd offset, empty
    out.extend_from_slice(&0u64.to_le_bytes());
    out.extend_from_slice(&payload_off.to_le_bytes());
    out.extend_from_slice(&(payload.len() as u64).to_le_bytes());
    out.extend_from_slice(&(payload.len() as u64 * 4).to_le_bytes());
    out.extend_from_slice(dfd);
    out.extend_from_slice(payload);
    out
}

#[test]
fn parse_accepts_uncompressed_float_input() {
    let bytes = sample_input(0, 109, &[9, 9, 9], &[1, 2, 3, 4]);
    let doc = parse_ktx2(&bytes).unwrap();
    assert_eq!(doc.header.format, 109);
    assert_eq!(doc.header.pixel_width, 64);
    assert_eq!(doc.header.pixel_height, 64);
    assert_eq!(doc.header.face_count, 6);
    assert_eq!(doc.header.level_count, 1);
    assert_eq!(doc.header.supercompression_scheme, 0);
    assert_eq!(doc.dfd, vec![9, 9, 9]);
    assert!(doc.kvd.is_empty());
    assert!(doc.sgd.is_empty());
    assert_eq!(doc.levels.len(), 1);
    assert_eq!(doc.levels[0].bytes, vec![1, 2, 3, 4]);
    assert_eq!(doc.levels[0].uncompressed_byte_length, 16);
}

#[test]
fn parse_rejects_preset_supercompression() {
    // An input that already carries a supercompression scheme is a fatal
    // input-validation error.
    let bytes = sample_input(2, 109, &[], &[0; 4]);
    assert!(matches!(
        parse_ktx2(&bytes),
        Err(Ktx2Error::UnsupportedSupercompression)
    ));
}

#[test]
fn parse_rejects_wrong_format() {
    let bytes = sample_input(0, 143, &[], &[0; 4]);
    assert!(matches!(parse_ktx2(&bytes), Err(Ktx2Error::UnsupportedFormat)));
}

#[test]
fn parse_rejects_bad_identifier() {
    let mut bytes = sample_input(0, 109, &[], &[0; 4]);
    bytes[1] = b'J';
    assert!(matches!(parse_ktx2(&bytes), Err(Ktx2Error::BadIdentifier)));
}

#[test]
fn parse_rejects_short_ktx2_input() {
    assert!(matches!(parse_ktx2(&vec![0u8; 40]), Err(Ktx2Error::Truncated)));
}

#[test]
fn parse_rejects_index_past_end() {
    let mut bytes = sample_input(0, 109, &[], &[0; 4]);
    let keep = 80 + 10;
    bytes.truncate(keep);
    assert!(matches!(parse_ktx2(&bytes), Err(Ktx2Error::Truncated)));
}

#[test]
fn cubemap_face_count_checked() {
    let bytes = sample_input(0, 109, &[], &[0; 4]);
    let doc = parse_ktx2(&bytes).unwrap();
    assert!(require_cubemap(&doc.header).is_ok());
    let mut header = doc.header;
    header.face_count = 1;
    assert!(matches!(
        require_cubemap(&header),
        Err(Ktx2Error::UnexpectedFaceCount)
    ));
}

#[test]
fn floor_log2_values() {
    assert_eq!(floor_log2_u32(1), 0);
    assert_eq!(floor_log2_u32(2), 1);
    assert_eq!(floor_log2_u32(63), 5);
    assert_eq!(floor_log2_u32(64), 6);
    assert_eq!(floor_log2_u32(65), 6);
}

#[test]
fn retention_64x64_keeps_five_of_six() {
    // floor(log2(64)) - 1 = 5: the declared sixth level would fall below
    // the 4x4 block floor and is dropped.
    assert_eq!(retained_level_count(6, 64, 64), 5);
}

#[test]
fn retention_caps_by_smaller_dimension() {
    assert_eq!(retained_level_count(10, 256, 64), 5);
    assert_eq!(retained_level_count(2, 256, 256), 2);
    assert_eq!(retained_level_count(3, 4, 4), 1);
}

fn sample_header() -> Ktx2Header {
    Ktx2Header {
        format: 109,
        type_size: 4,
        pixel_width: 64,
        pixel_height: 64,
        pixel_depth: 0,
        layer_count: 0,
        face_count: 6,
        level_count: 6,
        supercompression_scheme: 0,
    }
}

#[test]
fn output_header_replaces_only_format_scheme_and_levels() {
    let out = ktx2_output_header_of(&sample_header(), 5);
    assert_eq!(out.format, 143);
    assert_eq!(out.supercompression_scheme, 2);
    assert_eq!(out.level_count, 5);
    assert_eq!(out.type_size, 4);
    assert_eq!(out.pixel_width, 64);
    assert_eq!(out.pixel_height, 64);
    assert_eq!(out.pixel_depth, 0);
    assert_eq!(out.layer_count, 0);
    assert_eq!(out.face_count, 6);
}

#[test]
fn written_file_layout() {
    let dfd = vec![1u8; 10];
    let kvd = vec![2u8; 7];
    let sgd = vec![3u8; 5];
    let levels = vec![
        Ktx2Level { bytes: vec![0xaa; 20], uncompressed_byte_length: 100 },
        Ktx2Level { bytes: vec![0xbb; 12], uncompressed_byte_length: 60 },
    ];
    let out = write_ktx2(&sample_header(), &dfd, &kvd, &sgd, &levels);

    let base = 80 + 2 * 24;
    assert_eq!(&out[0..12], &IDENT);
    assert_eq!(u32_at(&out, 12), 143); // BC6H unsigned-float token
    assert_eq!(u32_at(&out, 20), 64);
    assert_eq!(u32_at(&out, 24), 64);
    assert_eq!(u32_at(&out, 36), 6);
    assert_eq!(u32_at(&out, 40), 2); // retained level count
    assert_eq!(u32_at(&out, 44), 2); // Zstandard token
    // Metadata blocks follow the index at the header-computed base.
    assert_eq!(u32_at(&out, 48), base as u32);
    assert_eq!(u32_at(&out, 52), 10);
    assert_eq!(u32_at(&out, 56), (base + 10) as u32);
    assert_eq!(u32_at(&out, 60), 7);
    assert_eq!(u64_at(&out, 64), (base + 17) as u64);
    assert_eq!(u64_at(&out, 72), 5);
    // Each level's offset is the running total of all prior blocks.
    let payload_base = (base + 22) as u64;
    assert_eq!(u64_at(&out, 80), payload_base);
    assert_eq!(u64_at(&out, 88), 20);
    assert_eq!(u64_at(&out, 96), 100);
    assert_eq!(u64_at(&out, 104), payload_base + 20);
    assert_eq!(u64_at(&out, 112), 12);
    assert_eq!(u64_at(&out, 120), 60);
    // Blocks and payloads in order.
    assert_eq!(&out[base..base + 10], &[1u8; 10]);
    assert_eq!(&out[base + 10..base + 17], &[2u8; 7]);
    assert_eq!(&out[base + 17..base + 22], &[3u8; 5]);
    assert_eq!(&out[base + 22..base + 42], &[0xaa; 20]);
    assert_eq!(&out[base + 42..base + 54], &[0xbb; 12]);
    assert_eq!(out.len(), base + 54);
}

#[test]
fn written_length_accounts_for_all_blocks() {
    // dfd + kvd + sgd + level payload lengths equal the file length minus
    // the fixed header and the level index table.
    let dfd = vec![0u8; 44];
    let kvd = vec![0u8; 9];
    let sgd: Vec<u8> = Vec::new();
    let levels = vec![
        Ktx2Level { bytes: vec![1; 33], uncompressed_byte_length: 50 },
        Ktx2Level { bytes: vec![2; 17], uncompressed_byte_length: 25 },
        Ktx2Level { bytes: vec![3; 8], uncompressed_byte_length: 12 },
    ];
    let out = write_ktx2(&sample_header(), &dfd, &kvd, &sgd, &levels);
    let header_and_index = 80 + levels.len() * 24;
    let blocks: usize = dfd.len() + kvd.len() + sgd.len() + 33 + 17 + 8;
    assert_eq!(out.len() - header_and_index, blocks);
}

#[test]
fn written_file_is_rejected_as_input() {
    // The writer always sets a supercompression scheme, and the read path
    // rejects any input that has one.
    let out = write_ktx2(
        &sample_header(),
        &vec![0u8; 4],
        &Vec::new(),
        &Vec::new(),
        &vec![Ktx2Level { bytes: vec![5; 16], uncompressed_byte_length: 64 }],
    );
    assert!(matches!(
        parse_ktx2(&out),
        Err(Ktx2Error::UnsupportedSupercompression)
    ));
}

#[test]
fn written_empty_document() {
    let out = write_ktx2(&sample_header(), &Vec::new(), &Vec::new(), &Vec::new(), &Vec::new());
    assert_eq!(out.len(), 80);
    assert_eq!(u32_at(&out, 40), 0);
    assert_eq!(u32_at(&out, 48), 80);
}
