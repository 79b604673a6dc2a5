//! DDS container serialization: a single-level document in the DX10
//! extended layout, written for BC6H unsigned-float payloads and read for
//! 32-bit-float RGBA sources.
use vstd::prelude::*;
use crate::bytes::{le32_at, push_bytes, read_u32_le, words_le_bytes, words_to_le_bytes};
use crate::planner::Extent;

verus! {

/// Magic number `"DDS "` at the start of every file.
pub const DDS_MAGIC: u32 = 0x20534444;

/// FourCC `"DX10"`: the pixel format lives in the extended header.
pub const DDS_FOURCC_DX10: u32 = 0x30315844;

/// Legacy FourCC spelling of 32-bit-float RGBA, accepted on read.
pub const DDS_FOURCC_D3D_RGBA32F: u32 = 116;

/// DXGI format token for 32-bit-float RGBA, the only accepted input.
pub const DXGI_FORMAT_RGBA32_FLOAT: u32 = 2;

/// DXGI format token for BC6H unsigned half-float, the only written output.
pub const DXGI_FORMAT_BC6H_UF16: u32 = 95;

/// The two pixel format tokens this container layer understands.
#[derive(Clone, Copy, PartialEq, Eq, Structural, Debug)]
pub enum DdsFormat {
    Rgba32Float,
    Bc6hUfloat,
}

/// DXGI token written for a format.
pub open spec fn dxgi_token(format: DdsFormat) -> u32 {
    match format {
        DdsFormat::Rgba32Float => DXGI_FORMAT_RGBA32_FLOAT,
        DdsFormat::Bc6hUfloat => DXGI_FORMAT_BC6H_UF16,
    }
}

/// Reasons a DDS input is rejected.
#[derive(Clone, Copy, PartialEq, Eq, Structural, Debug)]
pub enum DdsError {
    /// Shorter than the fixed headers.
    Truncated,
    /// The first four bytes are not `"DDS "`.
    BadMagic,
    /// Not a DX10-extended file carrying 32-bit-float RGBA pixels.
    UnsupportedFormat,
}

/// A single-format DDS document: one payload, `depth` present only for
/// volume textures.
pub struct DdsDocument {
    pub width: u32,
    pub height: u32,
    pub depth: Option<u32>,
    pub format: DdsFormat,
    pub mip_level_count: u32,
    pub data: Vec<u8>,
}

/// Wraps one encoded buffer as a single-level BC6H unsigned-float
/// document; a depth above one marks the volume dimension, depth one is a
/// plain 2D texture and leaves the field absent.
pub fn dds_from_encoded(extent: &Extent, data: Vec<u8>) -> (doc: DdsDocument)
    requires
        extent.depth >= 1,
    ensures
        doc.width == extent.width,
        doc.height == extent.height,
        doc.mip_level_count == 1,
        doc.format == DdsFormat::Bc6hUfloat,
        extent.depth == 1 ==> doc.depth is None,
        extent.depth > 1 ==> doc.depth == Some(extent.depth),
        doc.data == data,
{
    DdsDocument {
        width: extent.width,
        height: extent.height,
        depth: if extent.depth > 1 {
            Some(extent.depth)
        } else {
            None
        },
        format: DdsFormat::Bc6hUfloat,
        mip_level_count: 1,
        data,
    }
}

/// Header flags: caps, height, width and pixel format are always present;
/// a volume texture adds the depth flag.
pub open spec fn dds_flags(depth: Option<u32>) -> u32 {
    if depth is Some {
        0x801007u32
    } else {
        0x1007u32
    }
}

/// The 37 header words of a document: magic, the 31-word legacy header
/// and the 5-word DX10 extension.
pub open spec fn dds_header_words(
    width: u32,
    height: u32,
    depth: Option<u32>,
    format: DdsFormat,
    mip_level_count: u32,
) -> Seq<u32> {
    seq![
        DDS_MAGIC,
        124u32,
        dds_flags(depth),
        height,
        width,
        0u32,
        (match depth {
            Some(d) => d,
            None => 1u32,
        }),
        mip_level_count,
        0u32, 0u32, 0u32, 0u32, 0u32, 0u32, 0u32, 0u32, 0u32, 0u32, 0u32,
        32u32,
        0x4u32,
        DDS_FOURCC_DX10,
        0u32, 0u32, 0u32, 0u32, 0u32,
        0x1000u32,
        (if depth is Some {
            0x200000u32
        } else {
            0u32
        }),
        0u32,
        0u32,
        0u32,
        dxgi_token(format),
        (if depth is Some {
            4u32
        } else {
            3u32
        }),
        0u32,
        1u32,
        0u32,
    ]
}

/// The serialized file: the 148 header bytes followed by the payload.
pub open spec fn dds_file_bytes(
    width: u32,
    height: u32,
    depth: Option<u32>,
    format: DdsFormat,
    mip_level_count: u32,
    data: Seq<u8>,
) -> Seq<u8> {
    words_le_bytes(dds_header_words(width, height, depth, format, mip_level_count)) + data
}

/// Serializes the document to its byte-exact file form.
pub fn dds_to_bytes(doc: &DdsDocument) -> (out: Vec<u8>)
    ensures
        out@ == dds_file_bytes(
            doc.width,
            doc.height,
            doc.depth,
            doc.format,
            doc.mip_level_count,
            doc.data@,
        ),
        out@.len() == 148 + doc.data@.len(),
{
    let depth_word: u32 = match doc.depth {
        Some(d) => d,
        None => 1,
    };
    let flags: u32 = if doc.depth.is_some() {
        0x801007
    } else {
        0x1007
    };
    let caps2: u32 = if doc.depth.is_some() {
        0x200000
    } else {
        0
    };
    let dimension: u32 = if doc.depth.is_some() {
        4
    } else {
        3
    };
    let token: u32 = match doc.format {
        DdsFormat::Rgba32Float => DXGI_FORMAT_RGBA32_FLOAT,
        DdsFormat::Bc6hUfloat => DXGI_FORMAT_BC6H_UF16,
    };
    let words: Vec<u32> = vec![
        DDS_MAGIC,
        124,
        flags,
        doc.height,
        doc.width,
        0,
        depth_word,
        doc.mip_level_count,
        0, 0, 0, 0, 0, 0, 0, 0, 0, 0, 0,
        32,
        0x4,
        DDS_FOURCC_DX10,
        0, 0, 0, 0, 0,
        0x1000,
        caps2,
        0,
        0,
        0,
        token,
        dimension,
        0,
        1,
        0,
    ];
    proof {
        assert(words@ =~= dds_header_words(
            doc.width,
            doc.height,
            doc.depth,
            doc.format,
            doc.mip_level_count,
        ));
    }
    let mut out = words_to_le_bytes(&words);
    push_bytes(&mut out, &doc.data);
    out
}

/// The writer and the reader agree: the bytes written for a
/// 32-bit-float RGBA document satisfy every acceptance check of the
/// reader, and the fields the reader's contract recovers — dimensions,
/// depth, mip count and payload — are the ones that were written.
pub proof fn lemma_dds_write_parse_agree(
    width: u32,
    height: u32,
    depth: Option<u32>,
    mip_level_count: u32,
    data: Seq<u8>,
)
    requires
        depth matches Some(d) ==> d > 1,
    ensures
        ({
            let b = dds_file_bytes(
                width,
                height,
                depth,
                DdsFormat::Rgba32Float,
                mip_level_count,
                data,
            );
            &&& dds_has_header(b)
            &&& dds_dx10_long_enough(b)
            &&& dds_magic_ok(b)
            &&& dds_size_ok(b)
            &&& dds_fourcc(b) == DDS_FOURCC_DX10
            &&& dds_format_ok(b)
            &&& le32_at(b, 16) == width
            &&& le32_at(b, 12) == height
            &&& le32_at(b, 28) == mip_level_count
            &&& (if le32_at(b, 24) > 1 {
                Some(le32_at(b, 24) as u32)
            } else {
                None::<u32>
            }) == depth
            &&& b.skip(148) == data
        }),
{
    let words = dds_header_words(width, height, depth, DdsFormat::Rgba32Float, mip_level_count);
    let header = words_le_bytes(words);
    let b = dds_file_bytes(width, height, depth, DdsFormat::Rgba32Float, mip_level_count, data);
    crate::bytes::lemma_words_le_bytes_len(words);
    assert(words.len() == 37);
    assert(header.len() == 148);
    crate::bytes::lemma_le32_at_word(words, 0);
    crate::bytes::lemma_le32_at_word(words, 1);
    crate::bytes::lemma_le32_at_word(words, 3);
    crate::bytes::lemma_le32_at_word(words, 4);
    crate::bytes::lemma_le32_at_word(words, 6);
    crate::bytes::lemma_le32_at_word(words, 7);
    crate::bytes::lemma_le32_at_word(words, 21);
    crate::bytes::lemma_le32_at_word(words, 32);
    assert(le32_at(b, 0) == words[0]);
    assert(le32_at(b, 4) == words[1]);
    assert(le32_at(b, 12) == words[3]);
    assert(le32_at(b, 16) == words[4]);
    assert(le32_at(b, 24) == words[6]);
    assert(le32_at(b, 28) == words[7]);
    assert(le32_at(b, 84) == words[21]);
    assert(le32_at(b, 128) == words[32]);
    assert(b.skip(148) =~= data);
}

/// The file is long enough to hold the fixed headers.
pub open spec fn dds_has_header(b: Seq<u8>) -> bool {
    b.len() >= 128
}

/// The file is long enough to hold the DX10 extension as well.
pub open spec fn dds_dx10_long_enough(b: Seq<u8>) -> bool {
    b.len() >= 148
}

/// The file starts with `"DDS "`.
pub open spec fn dds_magic_ok(b: Seq<u8>) -> bool {
    le32_at(b, 0) == DDS_MAGIC
}

/// The legacy header declares its fixed size.
pub open spec fn dds_size_ok(b: Seq<u8>) -> bool {
    le32_at(b, 4) == 124
}

/// The FourCC the pixel format block names.
pub open spec fn dds_fourcc(b: Seq<u8>) -> int {
    le32_at(b, 84)
}

/// The extension block names the 32-bit-float RGBA format.
pub open spec fn dds_format_ok(b: Seq<u8>) -> bool {
    le32_at(b, 128) == DXGI_FORMAT_RGBA32_FLOAT
}

/// The document reads its fields from the fixed header offsets, with
/// the payload starting at `data_start`.
pub open spec fn dds_doc_matches(doc: DdsDocument, b: Seq<u8>, data_start: int) -> bool {
    &&& doc.width == le32_at(b, 16)
    &&& doc.height == le32_at(b, 12)
    &&& doc.mip_level_count == le32_at(b, 28)
    &&& doc.format == DdsFormat::Rgba32Float
    &&& doc.depth == (if le32_at(b, 24) > 1 {
        Some(le32_at(b, 24) as u32)
    } else {
        None::<u32>
    })
    &&& doc.data@ == b.skip(data_start)
}

/// Parses a DDS file holding 32-bit-float RGBA pixels: either the
/// legacy spelling of the format (FourCC 116, payload right after the
/// legacy header) or the DX10 extension naming the same format.
///
/// Accepts exactly the inputs that are long enough, start with the
/// magic number, declare the fixed header size and name the supported
/// format in one of those two spellings; every other input is rejected
/// with the first failing check's error.
#[verifier::loop_isolation(false)]
pub fn parse_dds(bytes: &Vec<u8>) -> (r: Result<DdsDocument, DdsError>)
    ensures
        !dds_has_header(bytes@) ==> r == Err::<DdsDocument, DdsError>(DdsError::Truncated),
        dds_has_header(bytes@) && !dds_magic_ok(bytes@) ==> r == Err::<
            DdsDocument,
            DdsError,
        >(DdsError::BadMagic),
        dds_has_header(bytes@) && dds_magic_ok(bytes@) && !dds_size_ok(bytes@) ==> r
            == Err::<DdsDocument, DdsError>(DdsError::UnsupportedFormat),
        dds_has_header(bytes@) && dds_magic_ok(bytes@) && dds_size_ok(bytes@)
            && dds_fourcc(bytes@) == DDS_FOURCC_D3D_RGBA32F ==> {
            &&& r is Ok
            &&& dds_doc_matches(r.unwrap(), bytes@, 128)
        },
        dds_has_header(bytes@) && dds_magic_ok(bytes@) && dds_size_ok(bytes@)
            && dds_fourcc(bytes@) == DDS_FOURCC_DX10 && !dds_dx10_long_enough(bytes@)
            ==> r == Err::<DdsDocument, DdsError>(DdsError::Truncated),
        dds_has_header(bytes@) && dds_magic_ok(bytes@) && dds_size_ok(bytes@)
            && dds_fourcc(bytes@) == DDS_FOURCC_DX10 && dds_dx10_long_enough(bytes@)
            && !dds_format_ok(bytes@) ==> r == Err::<DdsDocument, DdsError>(
            DdsError::UnsupportedFormat,
        ),
        dds_has_header(bytes@) && dds_magic_ok(bytes@) && dds_size_ok(bytes@)
            && dds_fourcc(bytes@) == DDS_FOURCC_DX10 && dds_dx10_long_enough(bytes@)
            && dds_format_ok(bytes@) ==> {
            &&& r is Ok
            &&& dds_doc_matches(r.unwrap(), bytes@, 148)
        },
        dds_has_header(bytes@) && dds_magic_ok(bytes@) && dds_size_ok(bytes@)
            && dds_fourcc(bytes@) != DDS_FOURCC_D3D_RGBA32F && dds_fourcc(bytes@)
            != DDS_FOURCC_DX10 ==> r == Err::<DdsDocument, DdsError>(
            DdsError::UnsupportedFormat,
        ),
{
    let n: usize = bytes.len();
    if n < 128 {
        return Err(DdsError::Truncated);
    }
    if read_u32_le(bytes, 0) != DDS_MAGIC {
        return Err(DdsError::BadMagic);
    }
    if read_u32_le(bytes, 4) != 124 {
        return Err(DdsError::UnsupportedFormat);
    }
    let fourcc = read_u32_le(bytes, 84);
    let data_start: usize;
    if fourcc == DDS_FOURCC_D3D_RGBA32F {
        data_start = 128;
    } else if fourcc == DDS_FOURCC_DX10 {
        if n < 148 {
            return Err(DdsError::Truncated);
        }
        if read_u32_le(bytes, 128) != DXGI_FORMAT_RGBA32_FLOAT {
            return Err(DdsError::UnsupportedFormat);
        }
        data_start = 148;
    } else {
        return Err(DdsError::UnsupportedFormat);
    }
    let depth_word = read_u32_le(bytes, 24);
    let mut data: Vec<u8> = Vec::new();
    let mut i: usize = data_start;
    while i < bytes.len()
        invariant
            data_start <= i <= bytes@.len(),
            data@ == bytes@.subrange(data_start as int, i as int),
        decreases bytes@.len() - i,
    {
        data.push(bytes[i]);
        i += 1;
        proof {
            assert(data@ =~= bytes@.subrange(data_start as int, i as int));
        }
    }
    proof {
        assert(bytes@.subrange(data_start as int, bytes@.len() as int) =~= bytes@.skip(
            data_start as int,
        ));
    }
    Ok(DdsDocument {
        width: read_u32_le(bytes, 16),
        height: read_u32_le(bytes, 12),
        depth: if depth_word > 1 {
            Some(depth_word)
        } else {
            None
        },
        format: DdsFormat::Rgba32Float,
        mip_level_count: read_u32_le(bytes, 28),
        data,
    })
}

} // verus!
