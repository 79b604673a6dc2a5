//! KTX2 container logic: parsing and validating an uncompressed
//! 32-bit-float RGBA input, the mip-level retention rule, and the
//! byte-exact writer that re-emits the document around newly encoded,
//! stream-compressed level payloads.
use vstd::prelude::*;
use crate::bytes::{
    le32_at,
    le64_at,
    push_bytes,
    push_u32_le,
    push_u64_le,
    read_u32_le,
    read_u64_le,
    u32_le_bytes,
    u64_le_bytes,
};

verus! {

/// Byte length of the identifier plus the fixed header fields.
pub const KTX2_HEADER_LEN: u64 = 80;

/// Byte length of one level index entry: three 64-bit words.
pub const KTX2_LEVEL_INDEX_LEN: u64 = 24;

/// Vulkan format token for 32-bit-float RGBA, the only accepted input.
pub const VK_FORMAT_RGBA32_SFLOAT: u32 = 109;

/// Vulkan format token for the BC6H unsigned-float block format.
pub const VK_FORMAT_BC6H_UFLOAT: u32 = 143;

/// Supercompression token of an uncompressed document.
pub const SUPERCOMPRESSION_NONE: u32 = 0;

/// Supercompression token of the Zstandard stream compressor applied to
/// each written level.
pub const SUPERCOMPRESSION_ZSTANDARD: u32 = 2;

/// Faces of a cubemap.
pub const CUBEMAP_FACE_COUNT: u32 = 6;

/// The twelve identifier bytes that open every KTX2 file.
pub open spec fn ktx2_identifier() -> Seq<u8> {
    seq![0xabu8, 0x4bu8, 0x54u8, 0x58u8, 0x20u8, 0x32u8, 0x30u8, 0xbbu8, 0x0du8, 0x0au8,
        0x1au8, 0x0au8]
}

/// The fixed header fields following the identifier.
#[derive(Clone, Copy, PartialEq, Eq, Structural, Debug)]
pub struct Ktx2Header {
    pub format: u32,
    pub type_size: u32,
    pub pixel_width: u32,
    pub pixel_height: u32,
    pub pixel_depth: u32,
    pub layer_count: u32,
    pub face_count: u32,
    pub level_count: u32,
    pub supercompression_scheme: u32,
}

/// One mip level payload and the byte length it expands to.
pub struct Ktx2Level {
    pub bytes: Vec<u8>,
    pub uncompressed_byte_length: u64,
}

/// A parsed document: header, the three metadata blocks, and the level
/// payloads in index order.
pub struct Ktx2Document {
    pub header: Ktx2Header,
    pub dfd: Vec<u8>,
    pub kvd: Vec<u8>,
    pub sgd: Vec<u8>,
    pub levels: Vec<Ktx2Level>,
}

/// Reasons a KTX2 input is rejected.
#[derive(Clone, Copy, PartialEq, Eq, Structural, Debug)]
pub enum Ktx2Error {
    /// Shorter than its headers, index, or the ranges the index names.
    Truncated,
    /// The identifier bytes are wrong.
    BadIdentifier,
    /// The input already carries a supercompression scheme.
    UnsupportedSupercompression,
    /// The input is not 32-bit-float RGBA.
    UnsupportedFormat,
    /// A cubemap was required but the face count is not six.
    UnexpectedFaceCount,
}

/// The header fields read from a file's fixed offsets.
pub open spec fn ktx2_header_of(b: Seq<u8>) -> Ktx2Header {
    Ktx2Header {
        format: le32_at(b, 12) as u32,
        type_size: le32_at(b, 16) as u32,
        pixel_width: le32_at(b, 20) as u32,
        pixel_height: le32_at(b, 24) as u32,
        pixel_depth: le32_at(b, 28) as u32,
        layer_count: le32_at(b, 32) as u32,
        face_count: le32_at(b, 36) as u32,
        level_count: le32_at(b, 40) as u32,
        supercompression_scheme: le32_at(b, 44) as u32,
    }
}

/// The file holds the identifier and fixed header.
pub open spec fn ktx2_has_header(b: Seq<u8>) -> bool {
    b.len() >= 80
}

/// The file opens with the KTX2 identifier.
pub open spec fn ktx2_ident_ok(b: Seq<u8>) -> bool {
    b.subrange(0, 12) == ktx2_identifier()
}

/// No supercompression scheme is set on the input.
pub open spec fn ktx2_scheme_ok(b: Seq<u8>) -> bool {
    le32_at(b, 44) == SUPERCOMPRESSION_NONE
}

/// The input's pixel format is 32-bit-float RGBA.
pub open spec fn ktx2_format_ok(b: Seq<u8>) -> bool {
    le32_at(b, 12) == VK_FORMAT_RGBA32_SFLOAT
}

/// Every range the header and level index name lies inside the file.
pub open spec fn ktx2_ranges_ok(b: Seq<u8>) -> bool {
    let lc = le32_at(b, 40);
    &&& b.len() >= 80 + 24 * lc
    &&& le32_at(b, 48) + le32_at(b, 52) <= b.len()
    &&& le32_at(b, 56) + le32_at(b, 60) <= b.len()
    &&& le64_at(b, 64) + le64_at(b, 72) <= b.len()
    &&& forall|i: int|
        0 <= i < lc ==> #[trigger] le64_at(b, 80 + 24 * i) + le64_at(b, 88 + 24 * i)
            <= b.len()
}

/// The parsed levels mirror the file: one entry per declared level, each
/// payload equal to the bytes its index entry names, each uncompressed
/// length copied from the entry.
pub open spec fn ktx2_levels_match(levels: Seq<Ktx2Level>, b: Seq<u8>) -> bool {
    &&& levels.len() == le32_at(b, 40)
    &&& forall|i: int|
        0 <= i < levels.len() ==> {
            &&& #[trigger] levels[i].bytes@ == b.subrange(
                le64_at(b, 80 + 24 * i),
                le64_at(b, 80 + 24 * i) + le64_at(b, 88 + 24 * i),
            )
            &&& levels[i].uncompressed_byte_length == le64_at(b, 96 + 24 * i)
        }
}

/// Copies `bytes[start .. start + len]`.
#[verifier::loop_isolation(false)]
fn copy_range(bytes: &Vec<u8>, start: usize, len: usize) -> (out: Vec<u8>)
    requires
        start + len <= bytes@.len(),
    ensures
        out@ == bytes@.subrange(start as int, start as int + len as int),
{
    let n: usize = bytes.len();
    let mut out: Vec<u8> = Vec::new();
    let mut i: usize = 0;
    while i < len
        invariant
            i <= len,
            out@ == bytes@.subrange(start as int, start as int + i as int),
        decreases len - i,
    {
        out.push(bytes[start + i]);
        i += 1;
        proof {
            assert(out@ =~= bytes@.subrange(start as int, start as int + i as int));
        }
    }
    out
}

/// Parses and validates a KTX2 input.
///
/// Accepts exactly the inputs that hold a full header, open with the
/// identifier, carry no supercompression scheme, name the 32-bit-float
/// RGBA format, and whose index stays inside the file; every other input
/// is rejected with the first failing check's error. On success every
/// field and every payload equals the corresponding bytes of the input.
#[verifier::loop_isolation(false)]
pub fn parse_ktx2(bytes: &Vec<u8>) -> (r: Result<Ktx2Document, Ktx2Error>)
    ensures
        !ktx2_has_header(bytes@) ==> r == Err::<Ktx2Document, Ktx2Error>(Ktx2Error::Truncated),
        ktx2_has_header(bytes@) && !ktx2_ident_ok(bytes@) ==> r == Err::<
            Ktx2Document,
            Ktx2Error,
        >(Ktx2Error::BadIdentifier),
        ktx2_has_header(bytes@) && ktx2_ident_ok(bytes@) && !ktx2_scheme_ok(bytes@) ==> r
            == Err::<Ktx2Document, Ktx2Error>(Ktx2Error::UnsupportedSupercompression),
        ktx2_has_header(bytes@) && ktx2_ident_ok(bytes@) && ktx2_scheme_ok(bytes@)
            && !ktx2_format_ok(bytes@) ==> r == Err::<Ktx2Document, Ktx2Error>(
            Ktx2Error::UnsupportedFormat,
        ),
        ktx2_has_header(bytes@) && ktx2_ident_ok(bytes@) && ktx2_scheme_ok(bytes@)
            && ktx2_format_ok(bytes@) && !ktx2_ranges_ok(bytes@) ==> r == Err::<
            Ktx2Document,
            Ktx2Error,
        >(Ktx2Error::Truncated),
        ktx2_has_header(bytes@) && ktx2_ident_ok(bytes@) && ktx2_scheme_ok(bytes@)
            && ktx2_format_ok(bytes@) && ktx2_ranges_ok(bytes@) ==> {
            &&& r is Ok
            &&& r.unwrap().header == ktx2_header_of(bytes@)
            &&& r.unwrap().dfd@ == bytes@.subrange(
                le32_at(bytes@, 48),
                le32_at(bytes@, 48) + le32_at(bytes@, 52),
            )
            &&& r.unwrap().kvd@ == bytes@.subrange(
                le32_at(bytes@, 56),
                le32_at(bytes@, 56) + le32_at(bytes@, 60),
            )
            &&& r.unwrap().sgd@ == bytes@.subrange(
                le64_at(bytes@, 64),
                le64_at(bytes@, 64) + le64_at(bytes@, 72),
            )
            &&& ktx2_levels_match(r.unwrap().levels@, bytes@)
        },
{
    let n: usize = bytes.len();
    if n < 80 {
        return Err(Ktx2Error::Truncated);
    }
    let ident: [u8; 12] = [
        0xab, 0x4b, 0x54, 0x58, 0x20, 0x32, 0x30, 0xbb, 0x0d, 0x0a, 0x1a, 0x0a,
    ];
    proof {
        assert(ident@ =~= ktx2_identifier());
    }
    let mut k: usize = 0;
    let mut ident_ok = true;
    while k < 12
        invariant
            k <= 12,
            bytes@.len() >= 80,
            ident@ == ktx2_identifier(),
            ident_ok <==> (forall|j: int|
                0 <= j < k ==> bytes@[j] == ktx2_identifier()[j]),
        decreases 12 - k,
    {
        if bytes[k] != ident[k] {
            ident_ok = false;
        }
        k += 1;
    }
    proof {
        if ident_ok {
            assert(bytes@.subrange(0, 12) =~= ktx2_identifier());
        } else {
            if bytes@.subrange(0, 12) == ktx2_identifier() {
                assert(forall|j: int|
                    0 <= j < 12 ==> bytes@[j] == #[trigger] bytes@.subrange(0, 12)[j]);
            }
        }
    }
    if !ident_ok {
        return Err(Ktx2Error::BadIdentifier);
    }
    if read_u32_le(bytes, 44) != SUPERCOMPRESSION_NONE {
        return Err(Ktx2Error::UnsupportedSupercompression);
    }
    if read_u32_le(bytes, 12) != VK_FORMAT_RGBA32_SFLOAT {
        return Err(Ktx2Error::UnsupportedFormat);
    }
    let level_count = read_u32_le(bytes, 40);
    if 80u64 + 24u64 * (level_count as u64) > n as u64 {
        return Err(Ktx2Error::Truncated);
    }
    assert(bytes@.len() >= 80 + 24 * (level_count as int));
    let dfd_off = read_u32_le(bytes, 48);
    let dfd_len = read_u32_le(bytes, 52);
    let kvd_off = read_u32_le(bytes, 56);
    let kvd_len = read_u32_le(bytes, 60);
    let sgd_off = read_u64_le(bytes, 64);
    let sgd_len = read_u64_le(bytes, 72);
    if dfd_off as u64 + dfd_len as u64 > n as u64 || kvd_off as u64 + kvd_len as u64
        > n as u64 {
        return Err(Ktx2Error::Truncated);
    }
    if sgd_len > n as u64 || sgd_off > n as u64 - sgd_len {
        return Err(Ktx2Error::Truncated);
    }
    let mut i: usize = 0;
    while i < level_count as usize
        invariant
            i <= le32_at(bytes@, 40),
            level_count == le32_at(bytes@, 40),
            bytes@.len() >= 80 + 24 * (level_count as int),
            bytes@.len() == n,
            forall|j: int|
                0 <= j < i ==> #[trigger] le64_at(bytes@, 80 + 24 * j) + le64_at(
                    bytes@,
                    88 + 24 * j,
                ) <= bytes@.len(),
        decreases level_count as int - i,
    {
        let off = read_u64_le(bytes, 80 + 24 * i);
        let len = read_u64_le(bytes, 88 + 24 * i);
        if len > n as u64 || off > n as u64 - len {
            return Err(Ktx2Error::Truncated);
        }
        i += 1;
    }
    assert(ktx2_ranges_ok(bytes@));
    let mut levels: Vec<Ktx2Level> = Vec::new();
    let mut i: usize = 0;
    while i < level_count as usize
        invariant
            i <= le32_at(bytes@, 40),
            level_count == le32_at(bytes@, 40),
            bytes@.len() == n,
            ktx2_ranges_ok(bytes@),
            levels@.len() == i,
            forall|j: int|
                0 <= j < i ==> {
                    &&& #[trigger] levels@[j].bytes@ == bytes@.subrange(
                        le64_at(bytes@, 80 + 24 * j),
                        le64_at(bytes@, 80 + 24 * j) + le64_at(bytes@, 88 + 24 * j),
                    )
                    &&& levels@[j].uncompressed_byte_length == le64_at(bytes@, 96 + 24 * j)
                },
        decreases level_count as int - i,
    {
        let off = read_u64_le(bytes, 80 + 24 * i);
        let len = read_u64_le(bytes, 88 + 24 * i);
        let unc = read_u64_le(bytes, 96 + 24 * i);
        assert(off + len <= bytes@.len());
        assert(off <= n as u64 && len <= n as u64);
        let level_bytes = copy_range(bytes, off as usize, len as usize);
        levels.push(Ktx2Level { bytes: level_bytes, uncompressed_byte_length: unc });
        i += 1;
    }
    assert(sgd_off <= n as u64 && sgd_len <= n as u64);
    let doc = Ktx2Document {
        header: Ktx2Header {
            format: read_u32_le(bytes, 12),
            type_size: read_u32_le(bytes, 16),
            pixel_width: read_u32_le(bytes, 20),
            pixel_height: read_u32_le(bytes, 24),
            pixel_depth: read_u32_le(bytes, 28),
            layer_count: read_u32_le(bytes, 32),
            face_count: read_u32_le(bytes, 36),
            level_count,
            supercompression_scheme: read_u32_le(bytes, 44),
        },
        dfd: copy_range(bytes, dfd_off as usize, dfd_len as usize),
        kvd: copy_range(bytes, kvd_off as usize, kvd_len as usize),
        sgd: copy_range(bytes, sgd_off as usize, sgd_len as usize),
        levels,
    };
    proof {
        assert(ktx2_levels_match(doc.levels@, bytes@));
    }
    Ok(doc)
}

/// Checks the cubemap precondition: exactly six faces.
pub fn require_cubemap(header: &Ktx2Header) -> (r: Result<(), Ktx2Error>)
    ensures
        header.face_count == CUBEMAP_FACE_COUNT <==> r is Ok,
        header.face_count != CUBEMAP_FACE_COUNT ==> r == Err::<(), Ktx2Error>(
            Ktx2Error::UnexpectedFaceCount,
        ),
{
    if header.face_count == CUBEMAP_FACE_COUNT {
        Ok(())
    } else {
        Err(Ktx2Error::UnexpectedFaceCount)
    }
}

/// Largest `k` with `2^k <= n`.
pub open spec fn floor_log2(n: int) -> int
    recommends
        n >= 1,
    decreases n,
{
    if n < 2 {
        0
    } else {
        1 + floor_log2(n / 2)
    }
}

/// The floor logarithm is never negative.
proof fn lemma_floor_log2_nonneg(m: int)
    requires
        m >= 1,
    ensures
        floor_log2(m) >= 0,
    decreases m,
{
    if m >= 2 {
        lemma_floor_log2_nonneg(m / 2);
    }
}

/// A value below `2^k` has floor logarithm below `k`.
proof fn lemma_floor_log2_lt(m: int, k: nat)
    requires
        1 <= m,
        k >= 1,
        m < vstd::arithmetic::power2::pow2(k),
    ensures
        floor_log2(m) <= k - 1,
    decreases k,
{
    if m < 2 {
        lemma_floor_log2_nonneg(m);
    } else {
        vstd::arithmetic::power2::lemma_pow2_unfold(k);
        vstd::arithmetic::power2::lemma_pow2_pos((k - 1) as nat);
        if k == 1 {
            vstd::arithmetic::power2::lemma2_to64();
            assert(m < 2);
        } else {
            lemma_floor_log2_lt(m / 2, (k - 1) as nat);
        }
    }
}

/// Computes the largest `k` with `2^k <= n`.
#[verifier::loop_isolation(false)]
pub fn floor_log2_u32(n: u32) -> (r: u32)
    requires
        n >= 1,
    ensures
        r == floor_log2(n as int),
        n >= 2 ==> r >= 1,
{
    proof {
        vstd::arithmetic::power2::lemma2_to64();
        lemma_floor_log2_lt(n as int, 32);
    }
    let mut v = n;
    let mut r: u32 = 0;
    while v >= 2
        invariant
            v >= 1,
            floor_log2(n as int) == r + floor_log2(v as int),
            r == 0 ==> v == n,
        decreases v,
    {
        assert(floor_log2(v as int) == 1 + floor_log2(v as int / 2));
        proof {
            lemma_floor_log2_nonneg(v as int / 2);
        }
        v = v / 2;
        r += 1;
    }
    r
}

/// How many mip levels survive: the kernel cannot encode below the 4x4
/// block floor, so of `level_count` declared levels at most
/// `floor(log2(min(width, height))) - 1` are retained.
pub fn retained_level_count(level_count: u32, pixel_width: u32, pixel_height: u32) -> (r:
    u32)
    requires
        pixel_width >= 2,
        pixel_height >= 2,
    ensures
        r == if level_count as int <= floor_log2(
            if pixel_width <= pixel_height {
                pixel_width as int
            } else {
                pixel_height as int
            },
        ) - 1 {
            level_count as int
        } else {
            floor_log2(
                if pixel_width <= pixel_height {
                    pixel_width as int
                } else {
                    pixel_height as int
                },
            ) - 1
        },
{
    let min_dim = if pixel_width <= pixel_height {
        pixel_width
    } else {
        pixel_height
    };
    let cap = floor_log2_u32(min_dim) - 1;
    if level_count <= cap {
        level_count
    } else {
        cap
    }
}

/// Sum of the level payload byte lengths.
pub open spec fn sum_level_lens(levels: Seq<Ktx2Level>) -> int
    decreases levels.len(),
{
    if levels.len() == 0 {
        0
    } else {
        levels[0].bytes@.len() + sum_level_lens(levels.skip(1))
    }
}

/// The level payloads, concatenated in index order.
pub open spec fn concat_level_bytes(levels: Seq<Ktx2Level>) -> Seq<u8>
    decreases levels.len(),
{
    if levels.len() == 0 {
        Seq::empty()
    } else {
        levels[0].bytes@ + concat_level_bytes(levels.skip(1))
    }
}

/// The level index table: per level its byte offset, byte length and
/// uncompressed byte length, each level's offset being the running total
/// of all prior payload lengths on top of `offset`.
pub open spec fn level_index_bytes(levels: Seq<Ktx2Level>, offset: int) -> Seq<u8>
    decreases levels.len(),
{
    if levels.len() == 0 {
        Seq::empty()
    } else {
        u64_le_bytes(offset as u64) + u64_le_bytes(levels[0].bytes@.len() as u64)
            + u64_le_bytes(levels[0].uncompressed_byte_length) + level_index_bytes(
            levels.skip(1),
            offset + levels[0].bytes@.len(),
        )
    }
}

/// The written header: dimensions, layer count, face count and type size
/// preserved from the source; only the pixel format, the level count and
/// the supercompression scheme are replaced.
pub open spec fn ktx2_output_header(src: Ktx2Header, n_levels: u32) -> Ktx2Header {
    Ktx2Header {
        format: VK_FORMAT_BC6H_UFLOAT,
        level_count: n_levels,
        supercompression_scheme: SUPERCOMPRESSION_ZSTANDARD,
        ..src
    }
}

/// The 80 fixed bytes: identifier, header fields, and the offsets and
/// lengths of the three metadata blocks.
pub open spec fn ktx2_header_bytes(
    h: Ktx2Header,
    dfd_off: u32,
    dfd_len: u32,
    kvd_off: u32,
    kvd_len: u32,
    sgd_off: u64,
    sgd_len: u64,
) -> Seq<u8> {
    ktx2_identifier() + u32_le_bytes(h.format) + u32_le_bytes(h.type_size) + u32_le_bytes(
        h.pixel_width,
    ) + u32_le_bytes(h.pixel_height) + u32_le_bytes(h.pixel_depth) + u32_le_bytes(
        h.layer_count,
    ) + u32_le_bytes(h.face_count) + u32_le_bytes(h.level_count) + u32_le_bytes(
        h.supercompression_scheme,
    ) + u32_le_bytes(dfd_off) + u32_le_bytes(dfd_len) + u32_le_bytes(kvd_off) + u32_le_bytes(
        kvd_len,
    ) + u64_le_bytes(sgd_off) + u64_le_bytes(sgd_len)
}

/// The whole written file: header, level index, then the data format
/// descriptor, key-value data and supercompression global data blocks at
/// the header-computed base offset, then the level payloads.
pub open spec fn ktx2_file_bytes(
    src: Ktx2Header,
    dfd: Seq<u8>,
    kvd: Seq<u8>,
    sgd: Seq<u8>,
    levels: Seq<Ktx2Level>,
) -> Seq<u8> {
    let base = 80 + 24 * levels.len();
    let payload_base = base + dfd.len() + kvd.len() + sgd.len();
    ktx2_header_bytes(
        ktx2_output_header(src, levels.len() as u32),
        base as u32,
        dfd.len() as u32,
        (base + dfd.len()) as u32,
        kvd.len() as u32,
        (base + dfd.len() + kvd.len()) as u64,
        sgd.len() as u64,
    ) + level_index_bytes(levels, payload_base as int) + dfd + kvd + sgd
        + concat_level_bytes(levels)
}

/// The payload lengths sum to something non-negative.
pub proof fn lemma_sum_level_lens_nonneg(levels: Seq<Ktx2Level>)
    ensures
        sum_level_lens(levels) >= 0,
    decreases levels.len(),
{
    if levels.len() > 0 {
        lemma_sum_level_lens_nonneg(levels.skip(1));
    }
}

/// The index table is 24 bytes per level, and the concatenated payloads
/// are as long as their lengths' sum.
pub proof fn lemma_level_parts_len(levels: Seq<Ktx2Level>, offset: int)
    ensures
        level_index_bytes(levels, offset).len() == 24 * levels.len(),
        concat_level_bytes(levels).len() == sum_level_lens(levels),
    decreases levels.len(),
{
    if levels.len() > 0 {
        lemma_level_parts_len(levels.skip(1), offset + levels[0].bytes@.len());
        lemma_level_parts_len(levels.skip(1), offset);
    }
}

/// Taking one more level appends its index entry, its payload, and its
/// length, with the entry's offset the running total of prior lengths.
proof fn lemma_levels_snoc(levels: Seq<Ktx2Level>, i: int, base: int)
    requires
        0 <= i < levels.len(),
    ensures
        sum_level_lens(levels.take(i + 1)) == sum_level_lens(levels.take(i))
            + levels[i].bytes@.len(),
        concat_level_bytes(levels.take(i + 1)) == concat_level_bytes(levels.take(i))
            + levels[i].bytes@,
        level_index_bytes(levels.take(i + 1), base) == level_index_bytes(
            levels.take(i),
            base,
        ) + u64_le_bytes((base + sum_level_lens(levels.take(i))) as u64) + u64_le_bytes(
            levels[i].bytes@.len() as u64,
        ) + u64_le_bytes(levels[i].uncompressed_byte_length),
    decreases i,
{
    if i == 0 {
        reveal_with_fuel(sum_level_lens, 2);
        reveal_with_fuel(concat_level_bytes, 2);
        reveal_with_fuel(level_index_bytes, 2);
        assert(levels.take(0) =~= Seq::<Ktx2Level>::empty());
        assert(levels.take(1) =~= seq![levels[0]]);
        assert(levels.take(1).skip(1) =~= Seq::<Ktx2Level>::empty());
        assert(concat_level_bytes(levels.take(1)) =~= concat_level_bytes(levels.take(0))
            + levels[0].bytes@);
        assert(level_index_bytes(levels.take(1), base) =~= level_index_bytes(
            levels.take(0),
            base,
        ) + u64_le_bytes(base as u64) + u64_le_bytes(levels[0].bytes@.len() as u64)
            + u64_le_bytes(levels[0].uncompressed_byte_length));
    } else {
        let sub = levels.skip(1);
        let head = levels[0].bytes@;
        lemma_levels_snoc(sub, i - 1, base + head.len());
        assert(levels.take(i + 1).skip(1) =~= sub.take(i));
        assert(levels.take(i).skip(1) =~= sub.take(i - 1));
        assert(levels.take(i + 1)[0] == levels[0]);
        assert(levels.take(i)[0] == levels[0]);
        assert(sub[i - 1] == levels[i]);
        assert(sum_level_lens(levels.take(i + 1)) == head.len() + sum_level_lens(
            sub.take(i),
        ));
        assert(sum_level_lens(levels.take(i)) == head.len() + sum_level_lens(
            sub.take(i - 1),
        ));
        assert(concat_level_bytes(levels.take(i + 1)) == head + concat_level_bytes(
            sub.take(i),
        ));
        assert(head + (concat_level_bytes(sub.take(i - 1)) + sub[i - 1].bytes@) =~= (head
            + concat_level_bytes(sub.take(i - 1))) + sub[i - 1].bytes@);
        let e0 = u64_le_bytes(base as u64) + u64_le_bytes(head.len() as u64)
            + u64_le_bytes(levels[0].uncompressed_byte_length);
        assert(level_index_bytes(levels.take(i + 1), base) == e0 + level_index_bytes(
            sub.take(i),
            base + head.len(),
        ));
        assert(level_index_bytes(levels.take(i), base) == e0 + level_index_bytes(
            sub.take(i - 1),
            base + head.len(),
        ));
        let tail_entry = u64_le_bytes(
            (base + head.len() + sum_level_lens(sub.take(i - 1))) as u64,
        ) + u64_le_bytes(sub[i - 1].bytes@.len() as u64) + u64_le_bytes(
            sub[i - 1].uncompressed_byte_length,
        );
        assert(e0 + (level_index_bytes(sub.take(i - 1), base + head.len()) + tail_entry)
            =~= (e0 + level_index_bytes(sub.take(i - 1), base + head.len())) + tail_entry);
        assert((base + head.len()) + sum_level_lens(sub.take(i - 1)) == base
            + sum_level_lens(levels.take(i)));
    }
}

/// For any written document, the three metadata blocks and the level
/// payload lengths account for exactly the file length minus the fixed
/// header and the level index table.
pub proof fn lemma_ktx2_offset_table(
    src: Ktx2Header,
    dfd: Seq<u8>,
    kvd: Seq<u8>,
    sgd: Seq<u8>,
    levels: Seq<Ktx2Level>,
)
    ensures
        dfd.len() + kvd.len() + sgd.len() + sum_level_lens(levels) == ktx2_file_bytes(
            src,
            dfd,
            kvd,
            sgd,
            levels,
        ).len() - 80 - 24 * levels.len(),
{
    let base = 80 + 24 * levels.len();
    lemma_level_parts_len(levels, (base + dfd.len() + kvd.len() + sgd.len()) as int);
}

/// Every written document carries the stream-compression token in its
/// supercompression field: together with the reader's contract, a
/// written file is never accepted again as an uncompressed input.
pub proof fn lemma_ktx2_written_scheme(
    src: Ktx2Header,
    dfd: Seq<u8>,
    kvd: Seq<u8>,
    sgd: Seq<u8>,
    levels: Seq<Ktx2Level>,
)
    ensures
        le32_at(ktx2_file_bytes(src, dfd, kvd, sgd, levels), 44)
            == SUPERCOMPRESSION_ZSTANDARD,
        !ktx2_scheme_ok(ktx2_file_bytes(src, dfd, kvd, sgd, levels)),
{
    let b = ktx2_file_bytes(src, dfd, kvd, sgd, levels);
    let scheme = u32_le_bytes(SUPERCOMPRESSION_ZSTANDARD);
    crate::bytes::lemma_le32_of_u32(SUPERCOMPRESSION_ZSTANDARD);
    assert(b[44] == scheme[0]);
    assert(b[45] == scheme[1]);
    assert(b[46] == scheme[2]);
    assert(b[47] == scheme[3]);
}

/// Serializes a new document around the source header, the metadata
/// blocks copied from the source, and the freshly encoded (and stream
/// compressed) level payloads. The result is byte-exact: header with the
/// replaced format, scheme and level count; index entries whose offsets
/// accumulate all prior blocks; then the blocks and payloads themselves.
#[verifier::loop_isolation(false)]
#[verifier::rlimit(100)]
pub fn write_ktx2(
    src: &Ktx2Header,
    dfd: &Vec<u8>,
    kvd: &Vec<u8>,
    sgd: &Vec<u8>,
    levels: &Vec<Ktx2Level>,
) -> (out: Vec<u8>)
    requires
        80 + 24 * levels@.len() + dfd@.len() + kvd@.len() <= u32::MAX as int,
        80 + 24 * levels@.len() + dfd@.len() + kvd@.len() + sgd@.len() + sum_level_lens(
            levels@,
        ) <= u64::MAX as int,
    ensures
        out@ == ktx2_file_bytes(*src, dfd@, kvd@, sgd@, levels@),
        out@.len() == 80 + 24 * levels@.len() + dfd@.len() + kvd@.len() + sgd@.len()
            + sum_level_lens(levels@),
{
    proof {
        lemma_sum_level_lens_nonneg(levels@);
    }
    let n_levels: u32 = levels.len() as u32;
    let base: u64 = KTX2_HEADER_LEN + KTX2_LEVEL_INDEX_LEN * levels.len() as u64;
    let dfd_off: u32 = base as u32;
    let kvd_off: u32 = dfd_off + dfd.len() as u32;
    let sgd_off: u64 = base + dfd.len() as u64 + kvd.len() as u64;
    let payload_base: u64 = sgd_off + sgd.len() as u64;
    let header = ktx2_output_header_of(src, n_levels);
    let mut out: Vec<u8> = Vec::new();
    out.push(0xab);
    out.push(0x4b);
    out.push(0x54);
    out.push(0x58);
    out.push(0x20);
    out.push(0x32);
    out.push(0x30);
    out.push(0xbb);
    out.push(0x0d);
    out.push(0x0a);
    out.push(0x1a);
    out.push(0x0a);
    proof {
        assert(out@ =~= ktx2_identifier());
    }
    push_u32_le(&mut out, header.format);
    push_u32_le(&mut out, header.type_size);
    push_u32_le(&mut out, header.pixel_width);
    push_u32_le(&mut out, header.pixel_height);
    push_u32_le(&mut out, header.pixel_depth);
    push_u32_le(&mut out, header.layer_count);
    push_u32_le(&mut out, header.face_count);
    push_u32_le(&mut out, header.level_count);
    push_u32_le(&mut out, header.supercompression_scheme);
    push_u32_le(&mut out, dfd_off);
    push_u32_le(&mut out, dfd.len() as u32);
    push_u32_le(&mut out, kvd_off);
    push_u32_le(&mut out, kvd.len() as u32);
    push_u64_le(&mut out, sgd_off);
    push_u64_le(&mut out, sgd.len() as u64);
    let ghost header_bytes = ktx2_header_bytes(
        ktx2_output_header(*src, n_levels),
        dfd_off,
        dfd.len() as u32,
        kvd_off,
        kvd.len() as u32,
        sgd_off,
        sgd.len() as u64,
    );
    proof {
        assert(out@ =~= header_bytes);
    }
    let mut offset: u64 = payload_base;
    let mut i: usize = 0;
    while i < levels.len()
        invariant
            i <= levels@.len(),
            out@ == header_bytes + level_index_bytes(levels@.take(i as int), payload_base as int),
            offset == payload_base + sum_level_lens(levels@.take(i as int)),
            sum_level_lens(levels@.take(i as int)) <= sum_level_lens(levels@),
        decreases levels@.len() - i,
    {
        proof {
            lemma_levels_snoc(levels@, i as int, payload_base as int);
            lemma_sum_take_rest(levels@, i as int);
        }
        push_u64_le(&mut out, offset);
        push_u64_le(&mut out, levels[i].bytes.len() as u64);
        push_u64_le(&mut out, levels[i].uncompressed_byte_length);
        offset = offset + levels[i].bytes.len() as u64;
        i += 1;
        proof {
            assert(out@ =~= header_bytes + level_index_bytes(
                levels@.take(i as int),
                payload_base as int,
            ));
        }
    }
    proof {
        assert(levels@.take(levels@.len() as int) =~= levels@);
    }
    let ghost index_bytes = level_index_bytes(levels@, payload_base as int);
    push_bytes(&mut out, dfd);
    push_bytes(&mut out, kvd);
    push_bytes(&mut out, sgd);
    proof {
        assert(out@ =~= header_bytes + index_bytes + dfd@ + kvd@ + sgd@);
    }
    let ghost blocks = header_bytes + index_bytes + dfd@ + kvd@ + sgd@;
    let mut i: usize = 0;
    while i < levels.len()
        invariant
            i <= levels@.len(),
            out@ == blocks + concat_level_bytes(levels@.take(i as int)),
        decreases levels@.len() - i,
    {
        proof {
            lemma_levels_snoc(levels@, i as int, 0);
        }
        push_bytes(&mut out, &levels[i].bytes);
        i += 1;
        proof {
            assert(out@ =~= blocks + concat_level_bytes(levels@.take(i as int)));
        }
    }
    proof {
        assert(levels@.take(levels@.len() as int) =~= levels@);
        assert(out@ =~= ktx2_file_bytes(*src, dfd@, kvd@, sgd@, levels@));
        lemma_level_parts_len(levels@, payload_base as int);
    }
    out
}

/// Prefix sums of payload lengths never exceed the whole sum.
proof fn lemma_sum_take_rest(levels: Seq<Ktx2Level>, i: int)
    requires
        0 <= i < levels.len(),
    ensures
        sum_level_lens(levels.take(i + 1)) <= sum_level_lens(levels),
    decreases levels.len() - i,
{
    if i + 1 == levels.len() {
        assert(levels.take(i + 1) =~= levels);
    } else {
        lemma_sum_take_rest(levels, i + 1);
        lemma_levels_snoc(levels, i + 1, 0);
        lemma_sum_level_lens_nonneg(levels.take(i + 1));
    }
}

/// Builds the written header from a source header: dimensions and counts
/// preserved, pixel format and supercompression scheme replaced, level
/// count set to the retained count.
pub fn ktx2_output_header_of(src: &Ktx2Header, n_levels: u32) -> (h: Ktx2Header)
    ensures
        h == ktx2_output_header(*src, n_levels),
{
    Ktx2Header {
        format: VK_FORMAT_BC6H_UFLOAT,
        type_size: src.type_size,
        pixel_width: src.pixel_width,
        pixel_height: src.pixel_height,
        pixel_depth: src.pixel_depth,
        layer_count: src.layer_count,
        face_count: src.face_count,
        level_count: n_levels,
        supercompression_scheme: SUPERCOMPRESSION_ZSTANDARD,
    }
}

} // verus!
