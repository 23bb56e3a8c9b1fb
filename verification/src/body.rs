//! A read cursor over the buffered bytes of a request body.

use vstd::prelude::*;

verus! {

/// The buffered body of a request, with the place from which the next read
/// takes its bytes.
#[derive(Debug)]
pub struct Body {
    data: Vec<u8>,
    position: u64,
}

impl Body {
    /// The bytes of the body.
    pub closed spec fn content(&self) -> Seq<u8> {
        self.data@
    }

    /// How far into the body the cursor stands. It may stand past the end.
    pub closed spec fn offset(&self) -> nat {
        self.position as nat
    }

    /// The same body with the cursor at `position`.
    pub closed spec fn at(&self, position: u64) -> Body {
        Body { data: self.data, position }
    }

    /// The bytes that reads have yet to give out.
    pub open spec fn remaining(&self) -> Seq<u8> {
        if self.offset() >= self.content().len() {
            Seq::empty()
        } else {
            self.content().skip(self.offset() as int)
        }
    }

    /// A cursor at the start of `data`.
    pub fn new(data: Vec<u8>) -> (body: Body)
        ensures
            body.content() == data@,
            body.offset() == 0,
    {
        Body { data, position: 0 }
    }

    pub fn get_ref(&self) -> (data: &Vec<u8>)
        ensures
            data@ == self.content(),
    {
        &self.data
    }

    pub fn position(&self) -> (position: u64)
        ensures
            position == self.offset(),
    {
        self.position
    }

    /// Moves the cursor. The bytes stay as they are.
    pub fn set_position(&mut self, position: u64)
        ensures
            *final(self) == old(self).at(position),
            final(self).content() == old(self).content(),
            final(self).offset() == position,
    {
        self.position = position;
    }

    /// Copies the next bytes of the body to the front of `buf`, as many as
    /// `buf` has room for and the body has left, and moves the cursor past
    /// them. Returns how many bytes were copied.
    pub fn read(&mut self, buf: &mut [u8]) -> (n: usize)
        ensures
            n == vstd::math::min(old(buf)@.len() as int, old(self).remaining().len() as int),
            final(buf)@ == old(self).remaining().take(n as int) + old(buf)@.skip(n as int),
            *final(self) == old(self).at((old(self).offset() + n) as u64),
            final(self).content() == old(self).content(),
            final(self).offset() == old(self).offset() + n,
    {
        let len = self.data.len();
        let start: usize = if self.position >= len as u64 {
            len
        } else {
            self.position as usize
        };
        let available = len - start;
        let n = if buf.len() < available {
            buf.len()
        } else {
            available
        };
        let mut i: usize = 0;
        while i < n
            invariant
                i <= n,
                start + n <= len,
                len == self.data@.len(),
                n <= buf@.len(),
                buf@.len() == old(buf)@.len(),
                self.data@ == old(self).data@,
                self.position == old(self).position,
                forall|j: int| 0 <= j < i ==> buf@[j] == self.data@[start + j],
                forall|j: int| i <= j < buf@.len() ==> buf@[j] == old(buf)@[j],
            decreases n - i,
        {
            buf[i] = self.data[start + i];
            i += 1;
        }
        assert(buf@ =~= old(self).remaining().take(n as int) + old(buf)@.skip(n as int));
        if n > 0 {
            self.position = self.position + n as u64;
        }
        n
    }
}

/// Moving the cursor changes where reads go on, and nothing else.
pub proof fn lemma_cursor_moves_alone(body: Body, position: u64)
    ensures
        body.at(position).content() == body.content(),
        body.at(position).offset() == position,
        body.at(position).at(body.offset() as u64) == body,
{
}

/// A body can be read again in full: wherever the cursor stands, with the
/// cursor back at the start every byte of the body is yet to be read.
pub proof fn lemma_reads_in_full_from_start(body: Body)
    ensures
        body.at(0).remaining() == body.content(),
{
    assert(body.at(0).remaining() =~= body.content());
}

} // verus!
