use vstd::prelude::*;
use crate::error::EmuError;
use crate::text::{lossy_of, utf8_lossy};

verus! {

/// The little-endian 16-bit word made of a low and a high byte.
pub open spec fn le_word(lo: u8, hi: u8) -> u16 {
    (lo as int + 256 * hi as int) as u16
}

/// The little-endian 16-bit word stored at `i` and `i + 1`.
pub open spec fn word_at(b: Seq<u8>, i: int) -> u16 {
    le_word(b[i], b[i + 1])
}

/// The little-endian 32-bit value stored at `i .. i + 4`.
pub open spec fn dword_at(b: Seq<u8>, i: int) -> u32 {
    (word_at(b, i) as int + 65536 * word_at(b, i + 2) as int) as u32
}

/// The bytes `b[i] .. b[j]` are all zero.
pub open spec fn all_zero(b: Seq<u8>, i: int, j: int) -> bool {
    forall|k: int| i <= k < j ==> #[trigger] b[k] == 0
}

/// Whether `n` bytes starting at `at` lie inside an image of `len` bytes.
pub open spec fn fits(len: int, at: int, n: int) -> bool {
    0 <= at && at + n <= len
}

/// The image with the word `w` written little-endian at `i`.
pub open spec fn put_word(b: Seq<u8>, i: int, w: u16) -> Seq<u8> {
    b.update(i, (w % 256) as u8).update(i + 1, (w / 256) as u8)
}

/// Combines two bytes into the little-endian word they encode.
pub fn combine_word(lo: u8, hi: u8) -> (r: u16)
    ensures
        r == le_word(lo, hi),
{
    let r = ((hi as u16) << 8u16) | (lo as u16);
    assert(((hi as u16) << 8u16) | (lo as u16) == (lo as u16) + 256 * (hi as u16)) by (bit_vector);
    r
}

/// A byte image with a read cursor.
///
/// Sequential reads advance the cursor; the `_at` accessors address the image
/// absolutely and leave the cursor alone. A read that would pass the end of the
/// image fails with `BufferUnderrun` and changes nothing.
pub struct ByteStream {
    buf: Vec<u8>,
    pos: usize,
}

impl View for ByteStream {
    type V = Seq<u8>;

    closed spec fn view(&self) -> Seq<u8> {
        self.buf@
    }
}

impl ByteStream {
    /// The cursor position.
    pub closed spec fn cursor(&self) -> usize {
        self.pos
    }

    /// The cursor position.
    pub fn pos(&self) -> (r: usize)
        ensures
            r == self.cursor(),
    {
        self.pos
    }

    /// Moves the cursor to `p` (it may point past the end; reads there fail).
    pub fn set_pos(&mut self, p: usize)
        ensures
            final(self)@ == old(self)@,
            final(self).cursor() == p,
    {
        self.pos = p;
    }

    /// A stream over `buf` with its cursor at the start.
    pub fn new(buf: Vec<u8>) -> (r: Self)
        ensures
            r@ == buf@,
            r.cursor() == 0,
    {
        ByteStream { buf, pos: 0 }
    }

    /// The number of bytes in the image.
    pub fn len(&self) -> (r: usize)
        ensures
            r == self@.len(),
    {
        self.buf.len()
    }

    /// Whether the cursor still points at a byte of the image.
    pub fn available(&self) -> (r: bool)
        ensures
            r == (self.cursor() < self@.len()),
    {
        self.pos < self.buf.len()
    }

    /// Reads `n` bytes and tells whether all of them are zero; the cursor moves
    /// past them either way.
    pub fn check_reserved(&mut self, n: usize) -> (r: Result<bool, EmuError>)
        ensures
            final(self)@ == old(self)@,
            fits(old(self)@.len() as int, old(self).cursor() as int, n as int) ==> r == Ok::<bool, EmuError>(all_zero(old(self)@, old(self).cursor() as int, old(self).cursor() + n))
                && final(self).cursor() == old(self).cursor() + n,
            !fits(old(self)@.len() as int, old(self).cursor() as int, n as int) ==> r == Err::<bool, EmuError>(EmuError::BufferUnderrun)
                && final(self).cursor() == old(self).cursor(),
    {
        if n > self.buf.len() || self.pos > self.buf.len() - n {
            return Err(EmuError::BufferUnderrun);
        }
        let start = self.pos;
        let mut zero = true;
        let mut i: usize = start;
        while i < start + n
            invariant
                start + n <= self.buf.len(),
                start <= i <= start + n,
                zero == all_zero(self.buf@, start as int, i as int),
            decreases start + n - i,
        {
            if self.buf[i] != 0 {
                zero = false;
            }
            i = i + 1;
        }
        self.pos = start + n;
        Ok(zero)
    }

    /// Moves the cursor `n` bytes on, whatever those bytes hold.
    pub fn skip_reserved(&mut self, n: usize) -> (r: Result<(), EmuError>)
        ensures
            final(self)@ == old(self)@,
            fits(old(self)@.len() as int, old(self).cursor() as int, n as int) ==> r is Ok && final(self).cursor() == old(self).cursor() + n,
            !fits(old(self)@.len() as int, old(self).cursor() as int, n as int) ==> r == Err::<(), EmuError>(EmuError::BufferUnderrun)
                && final(self).cursor() == old(self).cursor(),
    {
        if n > self.buf.len() || self.pos > self.buf.len() - n {
            return Err(EmuError::BufferUnderrun);
        }
        self.pos = self.pos + n;
        Ok(())
    }

    /// Reads the byte under the cursor and advances past it.
    pub fn read_byte(&mut self) -> (r: Result<u8, EmuError>)
        ensures
            final(self)@ == old(self)@,
            old(self).cursor() < old(self)@.len() ==> r == Ok::<u8, EmuError>(old(self)@[old(self).cursor() as int])
                && final(self).cursor() == old(self).cursor() + 1,
            old(self).cursor() >= old(self)@.len() ==> r == Err::<u8, EmuError>(EmuError::BufferUnderrun)
                && final(self).cursor() == old(self).cursor(),
    {
        if self.pos >= self.buf.len() {
            return Err(EmuError::BufferUnderrun);
        }
        let b = self.buf[self.pos];
        self.pos = self.pos + 1;
        Ok(b)
    }

    /// The byte under the cursor, without advancing.
    pub fn peek_byte(&self) -> (r: Result<u8, EmuError>)
        ensures
            self.cursor() < self@.len() ==> r == Ok::<u8, EmuError>(self@[self.cursor() as int]),
            self.cursor() >= self@.len() ==> r == Err::<u8, EmuError>(EmuError::BufferUnderrun),
    {
        self.read_byte_at(self.pos)
    }

    /// The byte at absolute position `at`.
    pub fn read_byte_at(&self, at: usize) -> (r: Result<u8, EmuError>)
        ensures
            at < self@.len() ==> r == Ok::<u8, EmuError>(self@[at as int]),
            at >= self@.len() ==> r == Err::<u8, EmuError>(EmuError::BufferUnderrun),
    {
        if at >= self.buf.len() {
            return Err(EmuError::BufferUnderrun);
        }
        Ok(self.buf[at])
    }

    /// The `n` bytes starting at absolute position `at`.
    pub fn read_bytes_at(&self, n: usize, at: usize) -> (r: Result<Vec<u8>, EmuError>)
        ensures
            fits(self@.len() as int, at as int, n as int) ==> r is Ok && r->Ok_0@ == self@.subrange(at as int, at + n),
            !fits(self@.len() as int, at as int, n as int) ==> r == Err::<Vec<u8>, EmuError>(EmuError::BufferUnderrun),
    {
        if n > self.buf.len() || at > self.buf.len() - n {
            return Err(EmuError::BufferUnderrun);
        }
        let mut out: Vec<u8> = Vec::new();
        let mut i: usize = 0;
        while i < n
            invariant
                at + n <= self.buf.len(),
                i <= n,
                out@ == self.buf@.subrange(at as int, at + i),
            decreases n - i,
        {
            out.push(self.buf[at + i]);
            i = i + 1;
            assert(out@ =~= self.buf@.subrange(at as int, at + i));
        }
        Ok(out)
    }

    /// The `n` bytes under the cursor, without advancing.
    pub fn peek_bytes(&self, n: usize) -> (r: Result<Vec<u8>, EmuError>)
        ensures
            fits(self@.len() as int, self.cursor() as int, n as int) ==> r is Ok && r->Ok_0@ == self@.subrange(self.cursor() as int, self.cursor() + n),
            !fits(self@.len() as int, self.cursor() as int, n as int) ==> r == Err::<Vec<u8>, EmuError>(EmuError::BufferUnderrun),
    {
        self.read_bytes_at(n, self.pos)
    }

    /// Reads `n` bytes and advances past them.
    pub fn read_bytes(&mut self, n: usize) -> (r: Result<Vec<u8>, EmuError>)
        ensures
            final(self)@ == old(self)@,
            fits(old(self)@.len() as int, old(self).cursor() as int, n as int) ==> r is Ok
                && r->Ok_0@ == old(self)@.subrange(old(self).cursor() as int, old(self).cursor() + n)
                && final(self).cursor() == old(self).cursor() + n,
            !fits(old(self)@.len() as int, old(self).cursor() as int, n as int) ==> r == Err::<Vec<u8>, EmuError>(EmuError::BufferUnderrun)
                && final(self).cursor() == old(self).cursor(),
    {
        if n > self.buf.len() || self.pos > self.buf.len() - n {
            return Err(EmuError::BufferUnderrun);
        }
        let r = self.read_bytes_at(n, self.pos);
        self.pos = self.pos + n;
        r
    }

    /// Reads the byte under the cursor as a signed value and advances past it.
    pub fn read_sbyte(&mut self) -> (r: Result<i8, EmuError>)
        ensures
            final(self)@ == old(self)@,
            old(self).cursor() < old(self)@.len() ==> r == Ok::<i8, EmuError>(old(self)@[old(self).cursor() as int] as i8)
                && final(self).cursor() == old(self).cursor() + 1,
            old(self).cursor() >= old(self)@.len() ==> r == Err::<i8, EmuError>(EmuError::BufferUnderrun)
                && final(self).cursor() == old(self).cursor(),
    {
        match self.read_byte() {
            Ok(b) => Ok(b as i8),
            Err(e) => Err(e),
        }
    }

    /// The little-endian word at absolute position `at`.
    pub fn read_word_at(&self, at: usize) -> (r: Result<u16, EmuError>)
        ensures
            fits(self@.len() as int, at as int, 2) ==> r == Ok::<u16, EmuError>(word_at(self@, at as int)),
            !fits(self@.len() as int, at as int, 2) ==> r == Err::<u16, EmuError>(EmuError::BufferUnderrun),
    {
        if self.buf.len() < 2 || at > self.buf.len() - 2 {
            return Err(EmuError::BufferUnderrun);
        }
        Ok(combine_word(self.buf[at], self.buf[at + 1]))
    }

    /// The little-endian word under the cursor, without advancing.
    pub fn peek_word(&self) -> (r: Result<u16, EmuError>)
        ensures
            fits(self@.len() as int, self.cursor() as int, 2) ==> r == Ok::<u16, EmuError>(word_at(self@, self.cursor() as int)),
            !fits(self@.len() as int, self.cursor() as int, 2) ==> r == Err::<u16, EmuError>(EmuError::BufferUnderrun),
    {
        self.read_word_at(self.pos)
    }

    /// Reads a little-endian word and advances past it.
    pub fn read_word(&mut self) -> (r: Result<u16, EmuError>)
        ensures
            final(self)@ == old(self)@,
            fits(old(self)@.len() as int, old(self).cursor() as int, 2) ==> r == Ok::<u16, EmuError>(word_at(old(self)@, old(self).cursor() as int))
                && final(self).cursor() == old(self).cursor() + 2,
            !fits(old(self)@.len() as int, old(self).cursor() as int, 2) ==> r == Err::<u16, EmuError>(EmuError::BufferUnderrun)
                && final(self).cursor() == old(self).cursor(),
    {
        if self.buf.len() < 2 || self.pos > self.buf.len() - 2 {
            return Err(EmuError::BufferUnderrun);
        }
        let r = self.read_word_at(self.pos);
        self.pos = self.pos + 2;
        r
    }

    /// Reads a little-endian word as a signed value and advances past it.
    pub fn read_sword(&mut self) -> (r: Result<i16, EmuError>)
        ensures
            final(self)@ == old(self)@,
            fits(old(self)@.len() as int, old(self).cursor() as int, 2) ==> r == Ok::<i16, EmuError>(word_at(old(self)@, old(self).cursor() as int) as i16)
                && final(self).cursor() == old(self).cursor() + 2,
            !fits(old(self)@.len() as int, old(self).cursor() as int, 2) ==> r == Err::<i16, EmuError>(EmuError::BufferUnderrun)
                && final(self).cursor() == old(self).cursor(),
    {
        match self.read_word() {
            Ok(w) => Ok(w as i16),
            Err(e) => Err(e),
        }
    }

    /// Reads a little-endian 32-bit value and advances past it.
    pub fn read_dword(&mut self) -> (r: Result<u32, EmuError>)
        ensures
            final(self)@ == old(self)@,
            fits(old(self)@.len() as int, old(self).cursor() as int, 4) ==> r == Ok::<u32, EmuError>(dword_at(old(self)@, old(self).cursor() as int))
                && final(self).cursor() == old(self).cursor() + 4,
            !fits(old(self)@.len() as int, old(self).cursor() as int, 4) ==> r == Err::<u32, EmuError>(EmuError::BufferUnderrun)
                && final(self).cursor() == old(self).cursor(),
    {
        if self.buf.len() < 4 || self.pos > self.buf.len() - 4 {
            return Err(EmuError::BufferUnderrun);
        }
        let lo = self.read_word_at(self.pos);
        let hi = self.read_word_at(self.pos + 2);
        match (lo, hi) {
            (Ok(lo), Ok(hi)) => {
                self.pos = self.pos + 4;
                Ok(lo as u32 + 65536 * hi as u32)
            },
            _ => Err(EmuError::BufferUnderrun),
        }
    }

    /// Reads `n` bytes as text (invalid UTF-8 replaced) and advances past them.
    pub fn read_string(&mut self, n: usize) -> (r: Result<String, EmuError>)
        ensures
            final(self)@ == old(self)@,
            fits(old(self)@.len() as int, old(self).cursor() as int, n as int) ==> r is Ok
                && r->Ok_0@ == lossy_of(old(self)@.subrange(old(self).cursor() as int, old(self).cursor() + n))
                && final(self).cursor() == old(self).cursor() + n,
            !fits(old(self)@.len() as int, old(self).cursor() as int, n as int) ==> r == Err::<String, EmuError>(EmuError::BufferUnderrun)
                && final(self).cursor() == old(self).cursor(),
    {
        match self.read_bytes(n) {
            Ok(b) => Ok(utf8_lossy(&b)),
            Err(e) => Err(e),
        }
    }

    /// The bytes `from .. to` as text (invalid UTF-8 replaced).
    pub fn read_string_from_to(&self, from: usize, to: usize) -> (r: Result<String, EmuError>)
        ensures
            from <= to <= self@.len() ==> r is Ok && r->Ok_0@ == lossy_of(self@.subrange(from as int, to as int)),
            !(from <= to <= self@.len()) ==> r == Err::<String, EmuError>(EmuError::BufferUnderrun),
    {
        if from > to {
            return Err(EmuError::BufferUnderrun);
        }
        match self.read_bytes_at(to - from, from) {
            Ok(b) => Ok(utf8_lossy(&b)),
            Err(e) => Err(e),
        }
    }

    /// Overwrites the byte at absolute position `at`.
    pub fn replace_byte(&mut self, at: usize, b: u8) -> (r: Result<(), EmuError>)
        ensures
            final(self).cursor() == old(self).cursor(),
            at < old(self)@.len() ==> r is Ok && final(self)@ == old(self)@.update(at as int, b),
            at >= old(self)@.len() ==> r == Err::<(), EmuError>(EmuError::BufferUnderrun) && final(self)@ == old(self)@,
    {
        if at >= self.buf.len() {
            return Err(EmuError::BufferUnderrun);
        }
        self.buf.set(at, b);
        Ok(())
    }

    /// Overwrites the two bytes at absolute position `at` with `w`, little-endian.
    pub fn replace_word(&mut self, at: usize, w: u16) -> (r: Result<(), EmuError>)
        ensures
            final(self).cursor() == old(self).cursor(),
            fits(old(self)@.len() as int, at as int, 2) ==> r is Ok && final(self)@ == put_word(old(self)@, at as int, w),
            !fits(old(self)@.len() as int, at as int, 2) ==> r == Err::<(), EmuError>(EmuError::BufferUnderrun)
                && final(self)@ == old(self)@,
    {
        if self.buf.len() < 2 || at > self.buf.len() - 2 {
            return Err(EmuError::BufferUnderrun);
        }
        self.buf.set(at, (w % 256) as u8);
        self.buf.set(at + 1, (w / 256) as u8);
        Ok(())
    }

    /// The position of the first `to_find` at or after `from`.
    pub fn find_first_byte_from(&self, from: usize, to_find: u8) -> (r: Result<usize, EmuError>)
        ensures
            r is Ok <==> exists|k: int| from <= k < self@.len() && self@[k] == to_find,
            r is Ok ==> from <= r->Ok_0 < self@.len() && self@[r->Ok_0 as int] == to_find
                && forall|k: int| from <= k < r->Ok_0 ==> self@[k] != to_find,
            r is Err ==> r == Err::<usize, EmuError>(EmuError::TerminatorNotFound),
    {
        let mut i: usize = from;
        while i < self.buf.len()
            invariant
                from <= i,
                forall|k: int| from <= k < i ==> self.buf@[k] != to_find,
            decreases self.buf.len() - i,
        {
            if self.buf[i] == to_find {
                assert(from <= i < self@.len() && self@[i as int] == to_find);
                return Ok(i);
            }
            i = i + 1;
        }
        Err(EmuError::TerminatorNotFound)
    }
}

} // verus!
