//! A fixed-capacity string buffer for line editing: pushes wrap around
//! once the capacity is reached.

use vstd::prelude::*;

verus! {

/// A fixed-capacity buffer of `N` elements with a wrapping write index.
pub struct StaticString<const N: usize, T> where T: Copy {
    /// The backing storage, always `N` elements.
    pub buf: Vec<T>,
    /// Next write position, always below `N`.
    pub i: usize,
}

impl<const N: usize, T> StaticString<N, T> where T: Copy {
    /// Structure invariant: full backing storage and an in-range write
    /// index.
    pub open spec fn wf(self) -> bool {
        &&& self.buf@.len() == N
        &&& self.i < N
    }

    /// A buffer filled with `t`, writing from the start.
    pub fn new(t: T) -> (r: Self)
        requires
            N >= 1,
        ensures
            r.wf(),
            r.buf@ == Seq::new(N as nat, |j: int| t),
            r.i == 0,
    {
        let mut buf: Vec<T> = Vec::new();
        let mut j: usize = 0;
        while j < N
            invariant
                j <= N,
                buf@.len() == j,
                forall|k: int| 0 <= k < j ==> buf@[k] == t,
            decreases N - j,
        {
            buf.push(t);
            j = j + 1;
        }
        proof {
            assert(buf@ =~= Seq::new(N as nat, |k: int| t));
        }
        Self { buf, i: 0 }
    }

    /// Write `t` at the current position and advance, wrapping to the
    /// start past the end.
    pub fn push(&mut self, t: T)
        requires
            old(self).wf(),
        ensures
            final(self).wf(),
            final(self).buf@ == old(self).buf@.update(old(self).i as int, t),
            final(self).i == (old(self).i + 1) % (N as int),
    {
        self.buf.set(self.i, t);
        self.i = (self.i + 1) % N;
    }

    /// How many elements were written since the last clear, while below
    /// capacity.
    pub fn len(&self) -> (r: usize)
        ensures
            r == self.i,
    {
        self.i
    }

    /// Drop one element from the end of the buffer, if any.
    pub fn pop(&mut self)
        requires
            old(self).wf(),
        ensures
            final(self).wf(),
            final(self).buf == old(self).buf,
            final(self).i == if old(self).i > 0 {
                old(self).i - 1
            } else {
                0
            },
    {
        if self.i > 0 {
            self.i = self.i - 1;
        }
    }

    /// Start writing from the beginning again.
    #[inline]
    pub fn clear(&mut self)
        ensures
            final(self).buf == old(self).buf,
            final(self).i == 0,
    {
        self.i = 0;
    }
}

impl<const N: usize> StaticString<N, u8> {
    /// Terminate the contents with a NUL byte and hand out a copy of the
    /// whole backing buffer.
    pub fn make_printable(&mut self) -> (r: Vec<u8>)
        requires
            old(self).wf(),
        ensures
            final(self).wf(),
            r@ == old(self).buf@.update(old(self).i as int, 0u8),
            final(self).buf@ == r@,
            final(self).i == (old(self).i + 1) % (N as int),
    {
        self.push(0);
        let mut out: Vec<u8> = Vec::new();
        let mut j: usize = 0;
        while j < N
            invariant
                self.buf@.len() == N,
                j <= N,
                out@.len() == j,
                forall|k: int| 0 <= k < j ==> out@[k] == self.buf@[k],
            decreases N - j,
        {
            out.push(self.buf[j]);
            j = j + 1;
        }
        proof {
            assert(out@ =~= self.buf@);
        }
        out
    }
}

} // verus!
