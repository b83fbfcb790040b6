//! A block of bytes addressed from 0.
use vstd::prelude::*;

verus! {

pub struct Ram {
    pub bytes: Vec<u8>,
}

impl View for Ram {
    type V = Seq<u8>;

    open spec fn view(&self) -> Seq<u8> {
        self.bytes@
    }
}

impl Ram {
    /// `size` bytes, all 0.
    pub fn new(size: u16) -> (ram: Ram)
        ensures
            ram@ == Seq::new(size as nat, |i: int| 0u8),
    {
        let ram = Ram { bytes: vec![0u8; size as usize] };
        assert(ram@ =~= Seq::new(size as nat, |i: int| 0u8));
        ram
    }

    pub fn write(&mut self, address: u16, value: u8)
        requires
            address < old(self)@.len(),
        ensures
            final(self)@ == old(self)@.update(address as int, value),
    {
        self.bytes[address as usize] = value;
    }

    pub fn read(&self, address: u16) -> (value: u8)
        requires
            address < self@.len(),
        ensures
            value == self@[address as int],
    {
        self.bytes[address as usize]
    }
}

} // verus!
