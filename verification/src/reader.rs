//! A cursor over the bytes of a Postgres value.
use vstd::prelude::*;
use vstd::slice::slice_subrange;
use crate::error::{Error, IoErrorKind, end_of_file};
use crate::wire::{be_value, pow256, lemma_be_value_bound, lemma_pow256_values, lemma_pow_mono};

verus! {

/// Reads the bytes of a value front to back.
pub struct Reader<'a> {
    buf: &'a [u8],
    pos: usize,
}

impl<'a> View for Reader<'a> {
    type V = Seq<u8>;

    /// The bytes not read yet.
    closed spec fn view(&self) -> Seq<u8> {
        self.buf@.skip(self.pos as int)
    }
}

impl<'a> Reader<'a> {
    #[verifier::type_invariant]
    spec fn inv(self) -> bool {
        self.pos <= self.buf@.len()
    }

    /// A reader over all of `buf`.
    pub fn new(buf: &'a [u8]) -> (r: Self)
        ensures
            r@ == buf@,
    {
        let r = Reader { buf, pos: 0 };
        assert(r@ =~= buf@);
        r
    }

    /// The number of bytes not read yet.
    pub fn remaining(&self) -> (n: usize)
        ensures
            n == self@.len(),
    {
        proof {
            use_type_invariant(self);
        }
        self.buf.len() - self.pos
    }

    /// Reads the next `n` bytes.
    pub fn read_exact(&mut self, n: usize) -> (res: Result<&'a [u8], Error>)
        ensures
            n <= old(self)@.len() ==> (res matches Ok(b) && b@ == old(self)@.take(n as int)
                && final(self)@ == old(self)@.skip(n as int)),
            n > old(self)@.len() ==> res == Err::<&'a [u8], Error>(end_of_file()) && final(self)@
                == old(self)@,
    {
        proof {
            use_type_invariant(&*self);
        }
        if n <= self.buf.len() - self.pos {
            let start = self.pos;
            let b = slice_subrange(self.buf, start, start + n);
            self.pos = start + n;
            assert(b@ =~= old(self)@.take(n as int));
            assert(self@ =~= old(self)@.skip(n as int));
            Ok(b)
        } else {
            Err(Error::IoError(IoErrorKind::EndOfFile))
        }
    }

    /// Reads all the bytes left.
    pub fn read_to_end(&mut self) -> (res: &'a [u8])
        ensures
            res@ == old(self)@,
            final(self)@ == Seq::<u8>::empty(),
    {
        proof {
            use_type_invariant(&*self);
        }
        let start = self.pos;
        let b = slice_subrange(self.buf, start, self.buf.len());
        self.pos = self.buf.len();
        assert(b@ =~= old(self)@);
        assert(self@ =~= Seq::<u8>::empty());
        b
    }

    /// Reads one byte.
    pub fn read_u8(&mut self) -> (res: Result<u8, Error>)
        ensures
            old(self)@.len() >= 1 ==> res == Ok::<u8, Error>(old(self)@[0]) && final(self)@ == old(self)@.skip(1),
            old(self)@.len() == 0 ==> res == Err::<u8, Error>(end_of_file()) && final(self)@ == old(self)@,
    {
        proof {
            use_type_invariant(&*self);
        }
        if self.pos < self.buf.len() {
            let b = self.buf[self.pos];
            self.pos = self.pos + 1;
            assert(self@ =~= old(self)@.skip(1));
            Ok(b)
        } else {
            Err(Error::IoError(IoErrorKind::EndOfFile))
        }
    }

    /// Reads an `n`-byte unsigned big-endian number.
    pub fn read_be_uint(&mut self, n: usize) -> (res: Result<u64, Error>)
        requires
            n <= 8,
        ensures
            n <= old(self)@.len() ==> res == Ok::<u64, Error>(be_value(old(self)@.take(n as int))
                as u64) && final(self)@ == old(self)@.skip(n as int),
            n > old(self)@.len() ==> res == Err::<u64, Error>(end_of_file()) && final(self)@ == old(self)@,
    {
        let bytes = self.read_exact(n)?;
        let mut acc: u64 = 0;
        let mut i: usize = 0;
        proof {
            lemma_pow256_values();
            reveal_with_fuel(pow256, 9);
        }
        while i < n
            invariant
                i <= n <= 8,
                bytes@.len() == n,
                acc as nat == be_value(bytes@.take(i as int)),
                pow256(8) == 0x1_0000_0000_0000_0000,
            decreases n - i,
        {
            proof {
                lemma_be_value_bound(bytes@.take(i as int));
                lemma_pow_mono(i as nat, 7);
                assert(bytes@.take(i + 1).drop_last() =~= bytes@.take(i as int));
            }
            acc = acc * 256 + bytes[i] as u64;
            i = i + 1;
        }
        assert(bytes@.take(n as int) =~= bytes@);
        Ok(acc)
    }
}

} // verus!
