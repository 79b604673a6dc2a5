use bc6h_compression::dds::{
    dds_from_encoded, dds_to_bytes, parse_dds, DdsDocument, DdsError, DdsFormat,
};
use bc6h_compression::planner::Extent;

fn u32_at(bytes: &[u8], off: usize) -> u32 {
    u32::from_le_bytes([bytes[off], bytes[off + 1], bytes[off + 2], bytes[off + 3]])
}

#[test]
fn encoded_32x32_document_shape() {
    // A uniform-color 32x32 RGBA-float source encodes to one 16-byte
    // block per 4x4 region; the document has one level, the BC6H
    // unsigned-float token, the source dimensions, and no depth.
    let encoded = vec![0u8; (32 / 4) * (32 / 4) * 16];
    let extent = Extent { width: 32, height: 32, depth: 1 };
    let doc = dds_from_encoded(&extent, encoded.clone());
    assert_eq!(doc.mip_level_count, 1);
    assert_eq!(doc.format, DdsFormat::Bc6hUfloat);
    assert_eq!(doc.width, 32);
    assert_eq!(doc.height, 32);
    assert!(doc.depth.is_none());
    assert_eq!(doc.data, encoded);
}

#[test]
fn encoded_volume_keeps_depth() {
    let extent = Extent { width: 16, height: 16, depth: 4 };
    let doc = dds_from_encoded(&extent, vec![0u8; 16 * 16 * 4]);
    assert_eq!(doc.depth, Some(4));
}

#[test]
fn serialized_header_fields() {
    let extent = Extent { width: 32, height: 32, depth: 1 };
    let doc = dds_from_encoded(&extent, vec![7u8; 64]);
    let bytes = dds_to_bytes(&doc);
    assert_eq!(bytes.len(), 148 + 64);
    assert_eq!(&bytes[0..4], b"DDS ");
    assert_eq!(u32_at(&bytes, 4), 124);
    assert_eq!(u32_at(&bytes, 12), 32); // height
    assert_eq!(u32_at(&bytes, 16), 32); // width
    assert_eq!(u32_at(&bytes, 24), 1); // depth word
    assert_eq!(u32_at(&bytes, 28), 1); // mip count
    assert_eq!(u32_at(&bytes, 84), u32::from_le_bytes(*b"DX10"));
    assert_eq!(u32_at(&bytes, 128), 95); // BC6H unsigned half-float
    assert_eq!(u32_at(&bytes, 132), 3); // 2D resource dimension
    assert_eq!(&bytes[148..], &[7u8; 64][..]);
}

#[test]
fn serialized_volume_header_fields() {
    let extent = Extent { width: 16, height: 8, depth: 4 };
    let doc = dds_from_encoded(&extent, vec![0u8; 16 * 8 * 4]);
    let bytes = dds_to_bytes(&doc);
    assert_eq!(u32_at(&bytes, 24), 4); // depth word
    assert_ne!(u32_at(&bytes, 8) & 0x800000, 0); // depth flag
    assert_ne!(u32_at(&bytes, 112) & 0x200000, 0); // volume caps
    assert_eq!(u32_at(&bytes, 132), 4); // volume resource dimension
}

#[test]
fn parse_round_trips_rgba_float_document() {
    let source = DdsDocument {
        width: 64,
        height: 32,
        depth: None,
        format: DdsFormat::Rgba32Float,
        mip_level_count: 1,
        data: vec![1, 2, 3, 4],
    };
    let bytes = dds_to_bytes(&source);
    let parsed = parse_dds(&bytes).unwrap();
    assert_eq!(parsed.width, 64);
    assert_eq!(parsed.height, 32);
    assert_eq!(parsed.depth, None);
    assert_eq!(parsed.format, DdsFormat::Rgba32Float);
    assert_eq!(parsed.mip_level_count, 1);
    assert_eq!(parsed.data, vec![1, 2, 3, 4]);
}

#[test]
fn parse_rejects_short_input() {
    assert!(matches!(parse_dds(&vec![0u8; 100]), Err(DdsError::Truncated)));
}

#[test]
fn parse_rejects_bad_magic() {
    let mut bytes = vec![0u8; 148];
    bytes[0] = b'P';
    assert!(matches!(parse_dds(&bytes), Err(DdsError::BadMagic)));
}

#[test]
fn parse_rejects_bc6h_payload_as_input() {
    // The read path accepts only 32-bit-float RGBA sources; a BC6H file
    // is a valid document but not a valid input.
    let extent = Extent { width: 32, height: 32, depth: 1 };
    let doc = dds_from_encoded(&extent, vec![0u8; 1024]);
    let bytes = dds_to_bytes(&doc);
    assert!(matches!(parse_dds(&bytes), Err(DdsError::UnsupportedFormat)));
}

/// A 128-byte legacy header naming 32-bit-float RGBA by FourCC 116.
fn legacy_float_file(payload: &[u8]) -> Vec<u8> {
    let mut bytes = vec![0u8; 128];
    bytes[0..4].copy_from_slice(b"DDS ");
    bytes[4..8].copy_from_slice(&124u32.to_le_bytes());
    bytes[12..16].copy_from_slice(&16u32.to_le_bytes()); // height
    bytes[16..20].copy_from_slice(&8u32.to_le_bytes()); // width
    bytes[28..32].copy_from_slice(&1u32.to_le_bytes()); // mip count
    bytes[76..80].copy_from_slice(&32u32.to_le_bytes()); // pixel format size
    bytes[84..88].copy_from_slice(&116u32.to_le_bytes()); // legacy FourCC
    bytes.extend_from_slice(payload);
    bytes
}

#[test]
fn parse_accepts_legacy_float_spelling() {
    let bytes = legacy_float_file(&[5, 6, 7, 8]);
    let doc = parse_dds(&bytes).unwrap();
    assert_eq!(doc.width, 8);
    assert_eq!(doc.height, 16);
    assert_eq!(doc.mip_level_count, 1);
    assert_eq!(doc.format, DdsFormat::Rgba32Float);
    assert_eq!(doc.depth, None);
    assert_eq!(doc.data, vec![5, 6, 7, 8]);
}

#[test]
fn parse_rejects_dx10_without_extension_block() {
    // A DX10 FourCC promises an extension block; a file that ends before
    // it is truncated.
    let mut bytes = legacy_float_file(&[]);
    bytes[84..88].copy_from_slice(b"DX10");
    assert!(matches!(parse_dds(&bytes), Err(DdsError::Truncated)));
}

#[test]
fn parse_rejects_unsupported_fourcc() {
    let source = DdsDocument {
        width: 4,
        height: 4,
        depth: None,
        format: DdsFormat::Rgba32Float,
        mip_level_count: 1,
        data: vec![],
    };
    let mut bytes = dds_to_bytes(&source);
    bytes[84..88].copy_from_slice(b"DXT1");
    assert!(matches!(parse_dds(&bytes), Err(DdsError::UnsupportedFormat)));
}
