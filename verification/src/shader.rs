//! Shader binaries: a stream of bytes read as little-endian 32-bit words.

use byteorder::{LittleEndian, ReadBytesExt};
use vstd::prelude::*;

verus! {

/// `std::io::Error`, the error of std's readers. Nothing is known of a value
/// of it; it is only told apart from success.
#[verifier::external_type_specification]
#[verifier::external_body]
pub struct ExIoError(std::io::Error);

/// The word whose little-endian encoding is the group of four bytes of
/// `bytes` that starts at index `4 * i`.
pub open spec fn word_at(bytes: Seq<u8>, i: int) -> u32 {
    (bytes[4 * i] as int + 256 * (bytes[4 * i + 1] as int) + 65536 * (bytes[4 * i + 2] as int)
        + 16777216 * (bytes[4 * i + 3] as int)) as u32
}

/// The words that a byte stream holds: one for each complete group of four
/// bytes, in order. Up to three bytes at the end belong to no group.
pub open spec fn decode_words(bytes: Seq<u8>) -> Seq<u32> {
    Seq::new((bytes.len() / 4) as nat, |i: int| word_at(bytes, i))
}

/// The four bytes of `w`, least significant first.
pub open spec fn word_bytes(w: u32) -> Seq<u8> {
    seq![
        (w % 256) as u8,
        (w / 256 % 256) as u8,
        (w / 65536 % 256) as u8,
        (w / 16777216) as u8,
    ]
}

/// The byte stream that holds `words`, each as its four little-endian bytes.
pub open spec fn encode_words(words: Seq<u32>) -> Seq<u8> {
    Seq::new(4 * words.len(), |k: int| word_bytes(words[k / 4])[k % 4])
}

/// `byteorder::ReadBytesExt::read_u32_into::<LittleEndian>` with a byte slice
/// as the reader. The call fills `dst` from the front of `src` or fails: it
/// succeeds exactly when `src` holds four bytes for every element of `dst`,
/// and then element `i` is the little-endian value of bytes `4 * i` to
/// `4 * i + 3`. The length of `dst` never changes; on failure nothing is
/// claimed of its contents.
#[verifier::external_body]
fn read_u32_into_le(src: &[u8], dst: &mut Vec<u32>) -> (r: Result<(), std::io::Error>)
    ensures
        final(dst)@.len() == old(dst)@.len(),
        r is Ok <==> 4 * old(dst)@.len() <= src@.len(),
        r is Ok ==> forall|i: int|
            0 <= i < old(dst)@.len() ==> #[trigger] final(dst)@[i] == word_at(src@, i),
{
    let mut reader: &[u8] = src;
    reader.read_u32_into::<LittleEndian>(dst.as_mut_slice())
}

/// Decodes a shader binary into its 32-bit words. A length that is no
/// multiple of four is accepted: the incomplete group at the end is dropped.
pub fn slice_to_u32(slice: &[u8]) -> (words: Vec<u32>)
    ensures
        words@ == decode_words(slice@),
        words@.len() == slice@.len() / 4,
        forall|i: int| 0 <= i < words@.len() ==> #[trigger] words@[i] == word_at(slice@, i),
{
    let n: usize = slice.len() / 4;
    let mut words: Vec<u32> = vec![0u32; n];
    match read_u32_into_le(slice, &mut words) {
        Ok(()) => {},
        Err(_) => {
            vstd::pervasive::unreached::<()>();
        },
    }
    assert(words@ =~= decode_words(slice@));
    words
}

/// Decoding undoes encoding, whatever incomplete group follows: a stream of
/// `4n` bytes gives back the `n` words it was written from, and up to three
/// more bytes at its end change nothing.
pub proof fn lemma_decode_encode(words: Seq<u32>, tail: Seq<u8>)
    requires
        tail.len() < 4,
    ensures
        decode_words(encode_words(words) + tail) == words,
        decode_words(encode_words(words) + tail).len() == words.len(),
{
    let bytes = encode_words(words) + tail;
    assert(bytes.len() / 4 == words.len());
    assert forall|i: int| 0 <= i < words.len() implies word_at(bytes, i) == words[i] by {
        let w = words[i];
        assert((4 * i) / 4 == i && (4 * i) % 4 == 0);
        assert((4 * i + 1) / 4 == i && (4 * i + 1) % 4 == 1);
        assert((4 * i + 2) / 4 == i && (4 * i + 2) % 4 == 2);
        assert((4 * i + 3) / 4 == i && (4 * i + 3) % 4 == 3);
        assert(bytes[4 * i] == word_bytes(w)[0]);
        assert(bytes[4 * i + 1] == word_bytes(w)[1]);
        assert(bytes[4 * i + 2] == word_bytes(w)[2]);
        assert(bytes[4 * i + 3] == word_bytes(w)[3]);
    }
    assert(decode_words(bytes) =~= words);
}

} // verus!
