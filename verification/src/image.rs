use vstd::prelude::*;

verus! {

/// The word that two bytes encode, the low byte first.
pub open spec fn word_of(low: u8, high: u8) -> u16 {
    (low + 256 * high) as u16
}

/// The words of a program image: each pair of bytes is one word, the low
/// byte first. A last byte without a partner is dropped.
pub open spec fn words_of(bytes: Seq<u8>) -> Seq<u16> {
    Seq::new(bytes.len() / 2, |i: int| word_of(bytes[2 * i], bytes[2 * i + 1]))
}

/// Turns the bytes of a program image into the words that the machine is
/// loaded with.
pub fn words_from_bytes(bytes: &[u8]) -> (words: Vec<u16>)
    ensures
        words@ == words_of(bytes@),
        words@.len() == bytes@.len() / 2,
{
    let mut words: Vec<u16> = Vec::new();
    let mut index: usize = 0;
    while bytes.len() - index >= 2
        invariant
            index <= bytes.len(),
            index == 2 * words.len(),
            forall|i: int| 0 <= i < words.len() ==> words[i] == word_of(bytes[2 * i], bytes[2 * i + 1]),
        decreases bytes.len() - index,
    {
        let low: u16 = bytes[index] as u16;
        let high: u16 = bytes[index + 1] as u16;
        words.push(low + 256 * high);
        index = index + 2;
    }
    assert(words@ =~= words_of(bytes@));
    words
}

} // verus!
