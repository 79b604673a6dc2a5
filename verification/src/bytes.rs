//! Little-endian byte serialization used by the container writers and by
//! the uniform / immediate metadata uploads.
use vstd::prelude::*;

verus! {

/// The four bytes of `x` in little-endian order.
pub open spec fn u32_le_bytes(x: u32) -> Seq<u8> {
    seq![
        (x & 0xff) as u8,
        ((x >> 8) & 0xff) as u8,
        ((x >> 16) & 0xff) as u8,
        ((x >> 24) & 0xff) as u8,
    ]
}

/// The eight bytes of `x` in little-endian order.
pub open spec fn u64_le_bytes(x: u64) -> Seq<u8> {
    seq![
        (x & 0xff) as u8,
        ((x >> 8) & 0xff) as u8,
        ((x >> 16) & 0xff) as u8,
        ((x >> 24) & 0xff) as u8,
        ((x >> 32) & 0xff) as u8,
        ((x >> 40) & 0xff) as u8,
        ((x >> 48) & 0xff) as u8,
        ((x >> 56) & 0xff) as u8,
    ]
}

/// The little-endian bytes of each word in order.
pub open spec fn words_le_bytes(words: Seq<u32>) -> Seq<u8>
    decreases words.len(),
{
    if words.len() == 0 {
        Seq::empty()
    } else {
        u32_le_bytes(words[0]) + words_le_bytes(words.skip(1))
    }
}

/// Appends the four little-endian bytes of `x`.
pub fn push_u32_le(out: &mut Vec<u8>, x: u32)
    ensures
        final(out)@ == old(out)@ + u32_le_bytes(x),
{
    out.push((x & 0xff) as u8);
    out.push(((x >> 8) & 0xff) as u8);
    out.push(((x >> 16) & 0xff) as u8);
    out.push(((x >> 24) & 0xff) as u8);
    proof {
        assert(out@ =~= old(out)@ + u32_le_bytes(x));
    }
}

/// Appends the eight little-endian bytes of `x`.
pub fn push_u64_le(out: &mut Vec<u8>, x: u64)
    ensures
        final(out)@ == old(out)@ + u64_le_bytes(x),
{
    out.push((x & 0xff) as u8);
    out.push(((x >> 8) & 0xff) as u8);
    out.push(((x >> 16) & 0xff) as u8);
    out.push(((x >> 24) & 0xff) as u8);
    out.push(((x >> 32) & 0xff) as u8);
    out.push(((x >> 40) & 0xff) as u8);
    out.push(((x >> 48) & 0xff) as u8);
    out.push(((x >> 56) & 0xff) as u8);
    proof {
        assert(out@ =~= old(out)@ + u64_le_bytes(x));
    }
}

/// Appends all of `src`.
pub fn push_bytes(out: &mut Vec<u8>, src: &Vec<u8>)
    ensures
        final(out)@ == old(out)@ + src@,
{
    let mut i: usize = 0;
    while i < src.len()
        invariant
            i <= src.len(),
            out@ == old(out)@ + src@.take(i as int),
        decreases src.len() - i,
    {
        out.push(src[i]);
        i += 1;
        proof {
            assert(out@ =~= old(out)@ + src@.take(i as int));
        }
    }
    proof {
        assert(src@.take(src@.len() as int) =~= src@);
    }
}

/// Serializes the words to little-endian bytes, in order.
pub fn words_to_le_bytes(words: &Vec<u32>) -> (out: Vec<u8>)
    ensures
        out@ == words_le_bytes(words@),
        out@.len() == 4 * words@.len(),
{
    let mut out: Vec<u8> = Vec::new();
    let mut i: usize = 0;
    while i < words.len()
        invariant
            i <= words.len(),
            out@ == words_le_bytes(words@.take(i as int)),
            out@.len() == 4 * i,
        decreases words.len() - i,
    {
        proof {
            lemma_words_le_bytes_snoc(words@, i as int);
        }
        push_u32_le(&mut out, words[i]);
        i += 1;
    }
    proof {
        assert(words@.take(words@.len() as int) =~= words@);
    }
    out
}

/// The little-endian 32-bit word at byte offset `i`, as an integer.
pub open spec fn le32_at(b: Seq<u8>, i: int) -> int {
    (b[i] as int) + (b[i + 1] as int) * 0x100 + (b[i + 2] as int) * 0x10000 + (b[i + 3]
        as int) * 0x1000000
}

/// The little-endian 64-bit word at byte offset `i`, as an integer.
pub open spec fn le64_at(b: Seq<u8>, i: int) -> int {
    le32_at(b, i) + le32_at(b, i + 4) * 0x100000000
}

/// Reads the little-endian 32-bit word at byte offset `i`.
pub fn read_u32_le(bytes: &Vec<u8>, i: usize) -> (r: u32)
    requires
        i + 4 <= bytes@.len(),
    ensures
        r == le32_at(bytes@, i as int),
{
    let n: usize = bytes.len();
    assert(i + 4 <= n);
    bytes[i] as u32 + (bytes[i + 1] as u32) * 0x100 + (bytes[i + 2] as u32) * 0x10000 + (
    bytes[i + 3] as u32) * 0x1000000
}

/// Reads the little-endian 64-bit word at byte offset `i`.
pub fn read_u64_le(bytes: &Vec<u8>, i: usize) -> (r: u64)
    requires
        i + 8 <= bytes@.len(),
    ensures
        r == le64_at(bytes@, i as int),
{
    let n: usize = bytes.len();
    assert(i + 8 <= n);
    let lo = read_u32_le(bytes, i);
    let hi = read_u32_le(bytes, i + 4);
    lo as u64 + (hi as u64) * 0x100000000
}

/// Reading four little-endian bytes recovers the word they encode.
pub proof fn lemma_le32_of_u32(x: u32)
    ensures
        le32_at(u32_le_bytes(x), 0) == x,
{
    assert(x & 0xff < 0x100) by (bit_vector);
    assert((x >> 8) & 0xff < 0x100) by (bit_vector);
    assert((x >> 16) & 0xff < 0x100) by (bit_vector);
    assert((x >> 24) & 0xff < 0x100) by (bit_vector);
    assert((x & 0xff) + ((x >> 8) & 0xff) * 0x100 + ((x >> 16) & 0xff) * 0x10000 + ((x
        >> 24) & 0xff) * 0x1000000 == x) by (bit_vector);
}

/// The serialized words are four bytes each.
pub proof fn lemma_words_le_bytes_len(words: Seq<u32>)
    ensures
        words_le_bytes(words).len() == 4 * words.len(),
    decreases words.len(),
{
    if words.len() > 0 {
        lemma_words_le_bytes_len(words.skip(1));
    }
}

/// Reading the serialized words at offset `4 * i` recovers word `i`.
pub proof fn lemma_le32_at_word(words: Seq<u32>, i: int)
    requires
        0 <= i < words.len(),
    ensures
        le32_at(words_le_bytes(words), 4 * i) == words[i],
    decreases i,
{
    lemma_words_le_bytes_len(words);
    if i == 0 {
        lemma_le32_of_u32(words[0]);
        assert(words_le_bytes(words)[0] == u32_le_bytes(words[0])[0]);
        assert(words_le_bytes(words)[1] == u32_le_bytes(words[0])[1]);
        assert(words_le_bytes(words)[2] == u32_le_bytes(words[0])[2]);
        assert(words_le_bytes(words)[3] == u32_le_bytes(words[0])[3]);
    } else {
        lemma_le32_at_word(words.skip(1), i - 1);
        let tail = words_le_bytes(words.skip(1));
        assert(words_le_bytes(words)[4 * i] == tail[4 * (i - 1)]);
        assert(words_le_bytes(words)[4 * i + 1] == tail[4 * (i - 1) + 1]);
        assert(words_le_bytes(words)[4 * i + 2] == tail[4 * (i - 1) + 2]);
        assert(words_le_bytes(words)[4 * i + 3] == tail[4 * (i - 1) + 3]);
    }
}

/// Taking one more word appends exactly its four bytes.
proof fn lemma_words_le_bytes_snoc(words: Seq<u32>, i: int)
    requires
        0 <= i < words.len(),
    ensures
        words_le_bytes(words.take(i + 1))
            == words_le_bytes(words.take(i)) + u32_le_bytes(words[i]),
        words_le_bytes(words.take(i)).len() == 4 * i,
    decreases i,
{
    if i == 0 {
        assert(words.take(0) =~= Seq::<u32>::empty());
        assert(words.take(1) =~= seq![words[0]]);
        assert(words.take(1).skip(1) =~= Seq::<u32>::empty());
    } else {
        let sub = words.skip(1);
        lemma_words_le_bytes_snoc(sub, i - 1);
        assert(words.take(i + 1).skip(1) =~= sub.take(i));
        assert(words.take(i).skip(1) =~= sub.take(i - 1));
        assert(words.take(i + 1)[0] == words[0]);
        assert(words.take(i)[0] == words[0]);
        assert(words_le_bytes(words.take(i + 1))
            == u32_le_bytes(words[0]) + words_le_bytes(sub.take(i)));
        assert(sub[i - 1] == words[i]);
        assert(u32_le_bytes(words[0]) + (words_le_bytes(sub.take(i - 1))
            + u32_le_bytes(words[i]))
            =~= (u32_le_bytes(words[0]) + words_le_bytes(sub.take(i - 1)))
                + u32_le_bytes(words[i]));
    }
}

} // verus!
