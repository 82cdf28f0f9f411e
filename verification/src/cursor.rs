//! A forward-only cursor over a borrowed byte slice.

use vstd::prelude::*;

verus! {

/// A read position inside a borrowed byte slice. The cursor only ever moves
/// forward; what it has not yet handed out is its view.
pub struct ByteCursor<'a> {
    bytes: &'a [u8],
    position: usize,
}

impl<'a> View for ByteCursor<'a> {
    type V = Seq<u8>;

    /// The bytes that have not been consumed yet.
    closed spec fn view(&self) -> Seq<u8> {
        self.bytes@.skip(self.position as int)
    }
}

impl<'a> ByteCursor<'a> {
    /// The position lies within the slice.
    #[verifier::type_invariant]
    spec fn in_bounds(self) -> bool {
        self.position <= self.bytes@.len()
    }

    /// A cursor placed before the first byte of `bytes`.
    pub fn new(bytes: &'a [u8]) -> (cursor: Self)
        ensures
            cursor@ == bytes@,
    {
        ByteCursor { bytes, position: 0 }
    }

    /// The number of bytes left.
    pub fn len(&self) -> (length: usize)
        ensures
            length == self@.len(),
    {
        proof {
            use_type_invariant(self);
        }
        self.bytes.len() - self.position
    }

    /// The next byte, without consuming it.
    pub fn peek(&self) -> (head: Option<u8>)
        ensures
            head == (if self@.len() > 0 {
                Some(self@[0])
            } else {
                None
            }),
    {
        proof {
            use_type_invariant(self);
        }
        if self.position < self.bytes.len() {
            Some(self.bytes[self.position])
        } else {
            None
        }
    }

    /// Consumes and returns the next byte, if there is one.
    pub fn next(&mut self) -> (head: Option<u8>)
        ensures
            head == (if old(self)@.len() > 0 {
                Some(old(self)@[0])
            } else {
                None
            }),
            final(self)@ == (if old(self)@.len() > 0 {
                old(self)@.skip(1)
            } else {
                old(self)@
            }),
    {
        proof {
            use_type_invariant(&*self);
        }
        if self.position < self.bytes.len() {
            let byte = self.bytes[self.position];
            self.position = self.position + 1;
            Some(byte)
        } else {
            None
        }
    }

    /// Whether no byte is left.
    pub fn is_empty(&self) -> (empty: bool)
        ensures
            empty == (self@.len() == 0),
    {
        self.len() == 0
    }

    /// Moves past the next `count` bytes.
    pub fn advance(&mut self, count: usize)
        requires
            count <= old(self)@.len(),
        ensures
            final(self)@ == old(self)@.skip(count as int),
    {
        proof {
            use_type_invariant(&*self);
        }
        let total = self.bytes.len();
        self.position = self.position + count;
    }

    /// Moves past all that is left.
    pub fn exhaust(&mut self)
        ensures
            final(self)@ == Seq::<u8>::empty(),
    {
        self.position = self.bytes.len();
    }

    /// Consumes up to `count` bytes and returns them: fewer only where the
    /// input ends first.
    pub fn take(&mut self, count: usize) -> (taken: Vec<u8>)
        ensures
            taken@ == old(self)@.take(
                if count <= old(self)@.len() {
                    count as int
                } else {
                    old(self)@.len() as int
                },
            ),
            final(self)@ == old(self)@.skip(taken@.len() as int),
    {
        let mut taken: Vec<u8> = Vec::new();
        while taken.len() < count && !self.is_empty()
            invariant
                taken@.len() <= count,
                taken@.len() <= old(self)@.len(),
                taken@ == old(self)@.take(taken@.len() as int),
                self@ == old(self)@.skip(taken@.len() as int),
            decreases self@.len(),
        {
            match self.next() {
                Some(byte) => {
                    taken.push(byte);
                },
                None => {},
            }
        }
        taken
    }
}

} // verus!
