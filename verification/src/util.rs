//! Sequential reading of a byte buffer, and the luma/chroma triple of a colour.
use vstd::prelude::*;

verus! {

/// Abstract state of a [`BinReader`]: the bytes and the position of the next one to read.
pub struct BinReaderView {
    pub data: Seq<u8>,
    pub pos: usize,
}

/// Reads a byte buffer front to back.
pub struct BinReader {
    data: Vec<u8>,
    pos: usize,
}

impl View for BinReader {
    type V = BinReaderView;

    closed spec fn view(&self) -> BinReaderView {
        BinReaderView { data: self.data@, pos: self.pos }
    }
}

/// The smaller of two numbers.
pub open spec fn min_nat(a: int, b: int) -> int {
    if a < b {
        a
    } else {
        b
    }
}

impl BinReaderView {
    /// The bytes not yet read (none once the position has passed the end).
    pub open spec fn remaining(self) -> Seq<u8> {
        if self.pos <= self.data.len() {
            self.data.subrange(self.pos as int, self.data.len() as int)
        } else {
            Seq::empty()
        }
    }
}

impl BinReader {
    /// A reader positioned at the first byte of `data`.
    pub fn new(data: Vec<u8>) -> (r: Self)
        ensures
            r@.data == data@,
            r@.pos == 0,
    {
        Self { data, pos: 0 }
    }

    /// The next byte, or `None` at the end of the buffer.
    pub fn read_byte(&mut self) -> (r: Option<u8>)
        ensures
            final(self)@.data == old(self)@.data,
            if old(self)@.pos < old(self)@.data.len() {
                r == Some(old(self)@.data[old(self)@.pos as int]) && final(self)@.pos
                    == old(self)@.pos + 1
            } else {
                r is None && final(self)@.pos == old(self)@.pos
            },
    {
        if self.pos < self.data.len() {
            let byte = self.data[self.pos];
            self.pos = self.pos + 1;
            Some(byte)
        } else {
            None
        }
    }

    /// Fills the front of `target` with as many of the next bytes as there are (at most its
    /// length), and returns how many were read.
    pub fn read_into(&mut self, target: &mut [u8]) -> (count: usize)
        requires
            old(self)@.pos <= old(self)@.data.len(),
        ensures
            count == min_nat(old(target)@.len() as int, old(self)@.data.len() - old(self)@.pos),
            final(self)@.data == old(self)@.data,
            final(self)@.pos == old(self)@.pos + count,
            final(target)@ == old(self)@.data.subrange(
                old(self)@.pos as int,
                old(self)@.pos + count,
            ) + old(target)@.skip(count as int),
    {
        let available = self.data.len() - self.pos;
        let count = if target.len() < available {
            target.len()
        } else {
            available
        };
        let mut i: usize = 0;
        while i < count
            invariant
                self@ == old(self)@,
                count <= target@.len(),
                count <= self@.data.len() - self@.pos,
                self.pos + count <= self.data.len(),
                target@.len() == old(target)@.len(),
                0 <= i <= count,
                forall|j: int| 0 <= j < i ==> #[trigger] target@[j] == self@.data[self@.pos + j],
                forall|j: int| i <= j < target@.len() ==> #[trigger] target@[j] == old(target)@[j],
            decreases count - i,
        {
            target[i] = self.data[self.pos + i];
            i = i + 1;
        }
        self.pos = self.pos + count;
        assert(target@ =~= old(self)@.data.subrange(old(self)@.pos as int, old(self)@.pos + count)
            + old(target)@.skip(count as int));
        count
    }

    /// Moves the position `count` bytes forward, past the end if there are fewer.
    pub fn skip(&mut self, count: usize)
        requires
            old(self)@.pos + count <= usize::MAX,
        ensures
            final(self)@.data == old(self)@.data,
            final(self)@.pos == old(self)@.pos + count,
    {
        self.pos = self.pos + count;
    }
}


/// A colour as luma and two chroma components.
#[derive(PartialEq, Eq, Clone, Copy, Debug, Structural)]
pub struct ColorYuv(pub u8, pub u8, pub u8);

impl ColorYuv {
    /// The luma component.
    pub fn y(&self) -> (r: u8)
        ensures
            r == self.0,
    {
        self.0
    }

    /// The first chroma component's accessor; it returns the first field, as the luma
    /// accessor does.
    pub fn u(&self) -> (r: u8)
        ensures
            r == self.0,
    {
        self.0
    }

    /// The second chroma component's accessor; it returns the first field, as the luma
    /// accessor does.
    pub fn v(&self) -> (r: u8)
        ensures
            r == self.0,
    {
        self.0
    }
}

} // verus!
