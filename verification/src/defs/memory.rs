//! Main memory: one 16-bit word for each 16-bit address.

use vstd::prelude::*;
use std::ops::Index;
use std::ops::IndexMut;

verus! {

/// Number of words in the address space.
pub const ADDRESS_SPACE: usize = 65536;

/// Random access memory. Its view is the sequence of its words, the index
/// being the address.
pub struct Memory {
    pub size: usize,
    pub memory: Vec<u16>,
}

impl View for Memory {
    type V = Seq<u16>;

    open spec fn view(&self) -> Seq<u16> {
        self.memory@
    }
}

impl Memory {
    /// A memory is well formed when it holds a word for every address, so
    /// that no 16-bit address falls outside it.
    pub open spec fn wf(&self) -> bool {
        &&& self.size == ADDRESS_SPACE
        &&& self.memory@.len() == ADDRESS_SPACE
    }

    /// Creates the machine's memory, every word zero.
    ///
    /// The address space is fixed by the architecture, so the store always
    /// holds [`ADDRESS_SPACE`] words; `size` is taken for callers that state
    /// a capacity and does not shrink or grow it.
    pub fn new(size: usize) -> (m: Memory)
        ensures
            m.wf(),
            m@ == Seq::new(ADDRESS_SPACE as nat, |a: int| 0u16),
    {
        let _ = size;
        Memory { size: ADDRESS_SPACE, memory: vec![0u16; ADDRESS_SPACE] }
    }

    /// Checks that the memory holds a word for every address.
    #[verifier::when_used_as_spec(wf)]
    pub fn is_well_formed(&self) -> (b: bool)
        ensures
            b == self.wf(),
    {
        self.size == ADDRESS_SPACE && self.memory.len() == ADDRESS_SPACE
    }

    /// Reads the word at `address`.
    pub fn read(&self, address: u16) -> (word: u16)
        requires
            self.wf(),
        ensures
            word == self@[address as int],
    {
        self.memory[address as usize]
    }

    /// Writes `word` at `address` and leaves every other word alone.
    pub fn write(&mut self, address: u16, word: u16)
        requires
            old(self).wf(),
        ensures
            final(self).wf(),
            final(self)@ == old(self)@.update(address as int, word),
    {
        self.memory[address as usize] = word;
    }
}

impl vstd::std_specs::core::IndexSpecImpl<u16> for Memory {
    open spec fn index_req(&self, index: &u16) -> bool {
        self.wf()
    }
}

impl Index<u16> for Memory {
    type Output = u16;

    fn index(&self, index: u16) -> (word: &u16)
        ensures
            *word == self@[index as int],
    {
        &self.memory[index as usize]
    }
}

impl IndexMut<u16> for Memory {
    fn index_mut(&mut self, index: u16) -> (word: &mut u16)
        requires
            old(self).wf(),
        ensures
            *word == old(self)@[index as int],
            final(self)@ == old(self)@.update(index as int, *final(word)),
            final(self).size == old(self).size,
    {
        &mut self.memory[index as usize]
    }
}

} // verus!
