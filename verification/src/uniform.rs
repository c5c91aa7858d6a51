//! The bytes of uniform buffers.
//!
//! A uniform holds 32-bit words, each laid out least significant byte first,
//! as the shaders read them.
use crate::geometry::{LogicalSize, Rect};
use vstd::bytes::{
    lemma_auto_spec_u32_to_from_le_bytes, spec_u32_from_le_bytes, spec_u32_to_le_bytes,
    u32_from_le_bytes, u32_to_le_bytes,
};
use vstd::prelude::*;
use vstd::slice::slice_subrange;

verus! {

/// The bytes of a sequence of words: word `i` fills bytes `4 i` to `4 i + 3`.
pub open spec fn words_to_bytes(words: Seq<u32>) -> Seq<u8> {
    Seq::new(4 * words.len(), |j: int| spec_u32_to_le_bytes(words[j / 4])[j % 4])
}

/// The words that a sequence of bytes holds, four bytes to a word; bytes
/// beyond the last whole word are left out.
pub open spec fn bytes_to_words(bytes: Seq<u8>) -> Seq<u32> {
    Seq::new(
        (bytes.len() / 4) as nat,
        |i: int| spec_u32_from_le_bytes(bytes.subrange(4 * i, 4 * i + 4)),
    )
}

/// The four bytes of word `i` within the bytes of a sequence of words.
proof fn lemma_word_bytes(words: Seq<u32>, i: int)
    requires
        0 <= i < words.len(),
    ensures
        words_to_bytes(words).subrange(4 * i, 4 * i + 4) == spec_u32_to_le_bytes(words[i]),
{
    lemma_auto_spec_u32_to_from_le_bytes();
    let part = words_to_bytes(words).subrange(4 * i, 4 * i + 4);
    let word = spec_u32_to_le_bytes(words[i]);
    assert forall|t: int| 0 <= t < 4 implies part[t] == word[t] by {
        assert((4 * i + t) / 4 == i);
        assert((4 * i + t) % 4 == t);
    }
    assert(part =~= word);
}

/// Words that are written as bytes and read back come out as they went in,
/// bit for bit.
pub proof fn lemma_words_round_trip(words: Seq<u32>)
    ensures
        words_to_bytes(words).len() == 4 * words.len(),
        bytes_to_words(words_to_bytes(words)) == words,
{
    lemma_auto_spec_u32_to_from_le_bytes();
    let back = bytes_to_words(words_to_bytes(words));
    assert(back.len() == words.len());
    assert forall|i: int| 0 <= i < words.len() implies back[i] == words[i] by {
        lemma_word_bytes(words, i);
        assert(spec_u32_to_le_bytes(words[i]).len() == 4);
    }
    assert(back =~= words);
}

/// Lays words out as bytes.
pub fn encode_words(words: &Vec<u32>) -> (bytes: Vec<u8>)
    ensures
        bytes@ == words_to_bytes(words@),
{
    let mut bytes: Vec<u8> = Vec::new();
    let mut i: usize = 0;
    while i < words.len()
        invariant
            i <= words.len(),
            bytes@.len() == 4 * i,
            forall|j: int|
                0 <= j < 4 * i ==> bytes@[j] == spec_u32_to_le_bytes(words@[j / 4])[j % 4],
        decreases words.len() - i,
    {
        let word = u32_to_le_bytes(words[i]);
        let ghost before = bytes@;
        bytes.push(word[0]);
        bytes.push(word[1]);
        bytes.push(word[2]);
        bytes.push(word[3]);
        assert forall|j: int| 0 <= j < 4 * (i + 1) implies bytes@[j] == spec_u32_to_le_bytes(
            words@[j / 4],
        )[j % 4] by {
            if j < 4 * i {
                assert(bytes@[j] == before[j]);
            } else {
                assert(j / 4 == i);
                assert(j % 4 == j - 4 * i);
            }
        }
        i += 1;
    }
    assert(bytes@ =~= words_to_bytes(words@));
    bytes
}

/// Reads bytes back as words.
pub fn decode_words(bytes: &Vec<u8>) -> (words: Vec<u32>)
    ensures
        words@ == bytes_to_words(bytes@),
{
    let count: usize = bytes.len() / 4;
    let mut words: Vec<u32> = Vec::new();
    let mut i: usize = 0;
    while i < count
        invariant
            i <= count,
            count == bytes@.len() / 4,
            4 * count <= bytes@.len() <= usize::MAX,
            words@.len() == i,
            forall|j: int|
                0 <= j < i ==> words@[j] == spec_u32_from_le_bytes(
                    bytes@.subrange(4 * j, 4 * j + 4),
                ),
        decreases count - i,
    {
        let part = slice_subrange(bytes.as_slice(), 4 * i, 4 * i + 4);
        words.push(u32_from_le_bytes(part));
        i += 1;
    }
    assert(words@ =~= bytes_to_words(bytes@));
    words
}

/// The words of the rectangle uniform: left, top, right, bottom.
pub open spec fn rect_words(rect: Rect) -> Seq<u32> {
    seq![rect.left, rect.top, rect.right, rect.bottom]
}

/// The words of the window-size uniform: width, height.
pub open spec fn size_words(size: LogicalSize) -> Seq<u32> {
    seq![size.width, size.height]
}

/// The bytes of the rectangle uniform for a selection.
pub fn rect_bytes(rect: Rect) -> (bytes: Vec<u8>)
    ensures
        bytes@ == words_to_bytes(rect_words(rect)),
        bytes@.len() == 16,
{
    let mut words: Vec<u32> = Vec::new();
    words.push(rect.left);
    words.push(rect.top);
    words.push(rect.right);
    words.push(rect.bottom);
    assert(words@ =~= rect_words(rect));
    encode_words(&words)
}

/// The bytes of the window-size uniform for a logical size.
pub fn size_bytes(size: LogicalSize) -> (bytes: Vec<u8>)
    ensures
        bytes@ == words_to_bytes(size_words(size)),
        bytes@.len() == 8,
{
    let mut words: Vec<u32> = Vec::new();
    words.push(size.width);
    words.push(size.height);
    assert(words@ =~= size_words(size));
    encode_words(&words)
}

/// The selection that the bytes of a rectangle uniform hold, where they are
/// the sixteen bytes of one.
pub fn read_rect(bytes: &Vec<u8>) -> (rect: Option<Rect>)
    ensures
        rect is Some <==> bytes@.len() == 16,
        rect matches Some(r) ==> rect_words(r) == bytes_to_words(bytes@),
{
    if bytes.len() != 16 {
        return None;
    }
    let words = decode_words(bytes);
    let r = Rect { left: words[0], top: words[1], right: words[2], bottom: words[3] };
    assert(rect_words(r) =~= words@);
    Some(r)
}

/// A selection written to the rectangle uniform and read back is the same
/// selection, bit for bit: whatever selection the sixteen bytes are read as
/// is the one that was written.
pub proof fn lemma_rect_round_trip(written: Rect, read: Rect)
    requires
        rect_words(read) == bytes_to_words(words_to_bytes(rect_words(written))),
    ensures
        words_to_bytes(rect_words(written)).len() == 16,
        read == written,
{
    lemma_words_round_trip(rect_words(written));
    assert(rect_words(read)[0] == rect_words(written)[0]);
    assert(rect_words(read)[1] == rect_words(written)[1]);
    assert(rect_words(read)[2] == rect_words(written)[2]);
    assert(rect_words(read)[3] == rect_words(written)[3]);
}

} // verus!
