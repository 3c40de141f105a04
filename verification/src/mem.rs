//! A fixed-capacity byte memory with bounds-checked access.

use vstd::prelude::*;

use crate::fault::Fault;

verus! {

/// A byte array of fixed capacity. Program memory and data memory are both
/// values of this type; the engine borrows the former immutably and the
/// latter mutably for the duration of one step. The view of a memory is the
/// sequence of bytes it holds; its length never changes after construction.
pub struct Mem {
    data: Vec<u8>,
}

impl View for Mem {
    type V = Seq<u8>;

    closed spec fn view(&self) -> Seq<u8> {
        self.data@
    }
}

impl Mem {
    /// Creates a zero-filled memory of the given capacity.
    pub fn new(capacity: usize) -> (m: Mem)
        ensures
            m@.len() == capacity,
            forall|i: int| 0 <= i < capacity ==> m@[i] == 0u8,
    {
        let mut data: Vec<u8> = Vec::new();
        let mut filled: usize = 0;
        while filled < capacity
            invariant
                filled <= capacity,
                data@.len() == filled,
                forall|i: int| 0 <= i < filled ==> data@[i] == 0u8,
            decreases capacity - filled,
        {
            data.push(0);
            filled = filled + 1;
        }
        Mem { data }
    }

    /// Copies a byte sequence into the memory starting at address zero. A
    /// sequence longer than the capacity raises the out-of-range fault and
    /// leaves the memory untouched.
    pub fn load(&mut self, data: Vec<u8>) -> (r: Result<(), Fault>)
        ensures
            data@.len() <= old(self)@.len() ==> {
                &&& r == Ok::<(), Fault>(())
                &&& final(self)@ == data@ + old(self)@.skip(data@.len() as int)
            },
            data@.len() > old(self)@.len() ==> {
                &&& r == Err::<(), Fault>(Fault::OutOfRange)
                &&& final(self)@ == old(self)@
            },
    {
        if data.len() > self.data.len() {
            return Err(Fault::OutOfRange);
        }
        let mut i: usize = 0;
        while i < data.len()
            invariant
                i <= data@.len(),
                data@.len() <= self.data@.len(),
                self.data@.len() == old(self)@.len(),
                forall|j: int| 0 <= j < i ==> self.data@[j] == data@[j],
                forall|j: int| i <= j < self.data@.len() ==> self.data@[j] == old(self)@[j],
            decreases data@.len() - i,
        {
            let byte: u8 = data[i];
            self.data.set(i, byte);
            i = i + 1;
        }
        proof {
            assert(self.data@ =~= data@ + old(self)@.skip(data@.len() as int));
        }
        Ok(())
    }

    /// Reads the byte at the given address; an address at or beyond the
    /// capacity raises the out-of-range fault.
    pub fn read(&self, address: usize) -> (r: Result<u8, Fault>)
        ensures
            address < self@.len() ==> r == Ok::<u8, Fault>(self@[address as int]),
            address >= self@.len() ==> r == Err::<u8, Fault>(Fault::OutOfRange),
    {
        if address >= self.data.len() {
            return Err(Fault::OutOfRange);
        }
        Ok(self.data[address])
    }

    /// Writes a byte at the given address; an address at or beyond the
    /// capacity raises the out-of-range fault and leaves the memory untouched.
    pub fn write(&mut self, address: usize, data: u8) -> (r: Result<(), Fault>)
        ensures
            address < old(self)@.len() ==> {
                &&& r == Ok::<(), Fault>(())
                &&& final(self)@ == old(self)@.update(address as int, data)
            },
            address >= old(self)@.len() ==> {
                &&& r == Err::<(), Fault>(Fault::OutOfRange)
                &&& final(self)@ == old(self)@
            },
    {
        if address >= self.data.len() {
            return Err(Fault::OutOfRange);
        }
        self.data.set(address, data);
        Ok(())
    }
}

} // verus!
