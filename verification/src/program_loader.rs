//! From the bytes of a program image to words in memory.
//!
//! An image is a sequence of 16-bit words, each stored high byte first.

use vstd::prelude::*;
use crate::defs::error::VmError;
use crate::defs::memory::Memory;
use crate::defs::memory::ADDRESS_SPACE;

verus! {

/// The word that the byte pair `high`, `low` stands for.
pub open spec fn word_of(high: u8, low: u8) -> u16 {
    ((high as u16) << 8) | (low as u16)
}

/// The words of an image of even length: word `i` is made of the bytes `2 i`
/// and `2 i + 1`.
pub open spec fn words_of(bytes: Seq<u8>) -> Seq<u16> {
    Seq::new(bytes.len() / 2, |i: int| word_of(bytes[2 * i], bytes[2 * i + 1]))
}

/// Turns the bytes of an image into its words. An image of odd length is
/// malformed; every image of even length, the empty one included, is
/// accepted.
pub fn get_instr_from_buffer(data: &[u8]) -> (r: Result<Vec<u16>, VmError>)
    ensures
        data@.len() % 2 != 0 ==> r == Err::<Vec<u16>, VmError>(VmError::MalformedImage),
        data@.len() % 2 == 0 ==> r.is_ok() && r.unwrap()@ == words_of(data@),
{
    let length: usize = data.len();
    if length % 2 != 0 {
        return Err(VmError::MalformedImage);
    }
    let mut words: Vec<u16> = Vec::new();
    let mut i: usize = 0;
    while i < length
        invariant
            length == data@.len(),
            length % 2 == 0,
            i % 2 == 0,
            i <= length,
            words@.len() == i / 2,
            forall|k: int|
                0 <= k < words@.len() ==> words@[k] == word_of(data@[2 * k], data@[2 * k + 1]),
        decreases length - i,
    {
        let high: u8 = data[i];
        let low: u8 = data[i + 1];
        words.push(((high as u16) << 8) | (low as u16));
        i = i + 2;
    }
    Ok(words)
}

/// The distance from `origin` up to `address`, going round the end of the
/// address space where `address` lies below `origin`.
pub open spec fn distance_from(origin: u16, address: int) -> int {
    if address >= origin {
        address - origin
    } else {
        address - origin + ADDRESS_SPACE
    }
}

/// Memory after `words` have been placed from `origin` on: word `i` lies at
/// `origin + i`, wrapping at the end of the address space, and every other
/// word is as before.
pub open spec fn loaded(mem: Seq<u16>, origin: u16, words: Seq<u16>) -> Seq<u16> {
    Seq::new(
        mem.len(),
        |a: int|
            if distance_from(origin, a) < words.len() {
                words[distance_from(origin, a)]
            } else {
                mem[a]
            },
    )
}

/// Places `words` in memory from `origin` on, in order. The words must fit
/// the address space, so that none overwrites another.
pub fn load_words(memory: &mut Memory, origin: u16, words: &[u16])
    requires
        old(memory).wf(),
        words@.len() <= ADDRESS_SPACE,
    ensures
        final(memory).wf(),
        final(memory)@ == loaded(old(memory)@, origin, words@),
{
    let count: usize = words.len();
    let mut address: u16 = origin;
    let mut i: usize = 0;
    while i < count
        invariant
            memory.wf(),
            old(memory).wf(),
            count == words@.len(),
            count <= ADDRESS_SPACE,
            i <= count,
            address as int == (origin + i) % (ADDRESS_SPACE as int),
            memory@ == loaded(old(memory)@, origin, words@.take(i as int)),
        decreases count - i,
    {
        memory.write(address, words[i]);
        address = address.wrapping_add(1);
        i = i + 1;
    }
}

/// The sixteen binary digits of `x`, most significant first.
pub open spec fn bits_text(x: u16) -> Seq<char> {
    Seq::new(
        16,
        |i: int|
            if (x >> ((15 - i) as u16)) & 1 == 1 {
                '1'
            } else {
                '0'
            },
    )
}

/// Spells out `x` in binary: sixteen characters, each `0` or `1`, the most
/// significant bit first.
pub fn instr_bits(x: u16) -> (digits: Vec<char>)
    ensures
        digits@ == bits_text(x),
{
    let mut digits: Vec<char> = Vec::new();
    let mut i: u16 = 0;
    while i < 16
        invariant
            i <= 16,
            digits@.len() == i,
            forall|k: int| 0 <= k < i ==> digits@[k] == bits_text(x)[k],
        decreases 16 - i,
    {
        let bit: u16 = (x >> (15 - i)) & 1;
        digits.push(
            if bit == 1 {
                '1'
            } else {
                '0'
            },
        );
        i = i + 1;
    }
    digits
}

} // verus!
