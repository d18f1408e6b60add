//! The kernel's in-memory log: a bounded byte buffer that always keeps the
//! most recent bytes, dropping the oldest once the capacity is reached.

use vstd::prelude::*;

verus! {

/// Appending one byte to a bounded log: the front is dropped until the
/// byte fits strictly below the capacity, then the byte goes on the back.
pub open spec fn log_push(data: Seq<u8>, size: int, b: u8) -> Seq<u8> {
    let trimmed = if data.len() + 1 >= size {
        data.skip(data.len() - (size - 2))
    } else {
        data
    };
    trimmed.push(b)
}

/// Appending a whole buffer, byte by byte.
pub open spec fn log_write(data: Seq<u8>, size: int, buf: Seq<u8>) -> Seq<u8>
    decreases buf.len(),
{
    if buf.len() == 0 {
        data
    } else {
        log_push(log_write(data, size, buf.drop_last()), size, buf.last())
    }
}

/// The bounded kernel log.
pub struct Log {
    data: Vec<u8>,
    size: usize,
}

impl Log {
    /// The logged bytes, oldest first.
    pub closed spec fn view(&self) -> Seq<u8> {
        self.data@
    }

    /// The capacity bound of the log.
    pub closed spec fn spec_size(&self) -> int {
        self.size as int
    }

    /// An empty log bounded to `size` bytes.
    pub fn new(size: usize) -> (r: Log)
        ensures
            r@ == Seq::<u8>::empty(),
            r.spec_size() == size,
    {
        Log { data: Vec::new(), size }
    }

    /// The logged bytes, oldest first.
    pub fn read(&self) -> (r: &[u8])
        ensures
            r@ == self@,
    {
        self.data.as_slice()
    }

    /// Append a buffer, dropping the oldest bytes once the bound is
    /// reached. A bound below two could never admit a byte, so such logs
    /// are excluded.
    pub fn write(&mut self, buf: &[u8])
        requires
            old(self).spec_size() >= 2,
        ensures
            final(self).spec_size() == old(self).spec_size(),
            final(self)@ == log_write(old(self)@, old(self).spec_size(), buf@),
    {
        let n = buf.len();
        let mut i: usize = 0;
        while i < n
            invariant
                0 <= i <= n,
                n == buf@.len(),
                self.size == old(self).size,
                self.size >= 2,
                self@ == log_write(old(self)@, self.size as int, buf@.take(i as int)),
            decreases n - i,
        {
            let b = buf[i];
            let ghost entry_data = self.data@;
            let ghost mut trimmed: int = 0;
            proof {
                assert(entry_data.skip(0) =~= entry_data);
            }
            while self.data.len() >= self.size - 1
                invariant
                    self.size == old(self).size,
                    self.size >= 2,
                    0 <= trimmed <= entry_data.len(),
                    self.data@ == entry_data.skip(trimmed),
                    trimmed == 0 || self.data@.len() >= self.size - 2,
                decreases self.data@.len(),
            {
                let _ = self.data.remove(0);
                proof {
                    assert(entry_data.skip(trimmed).remove(0) =~= entry_data.skip(trimmed + 1));
                    trimmed = trimmed + 1;
                }
            }
            self.data.push(b);
            proof {
                if entry_data.len() + 1 >= self.size {
                    assert(trimmed == entry_data.len() - (self.size - 2));
                } else {
                    assert(trimmed == 0);
                }
                assert(self.data@ =~= log_push(entry_data, self.size as int, b));
                assert(buf@.take(i + 1).drop_last() =~= buf@.take(i as int));
            }
            i += 1;
        }
        proof {
            assert(buf@.take(n as int) =~= buf@);
        }
    }
}

/// The boot-time log, sized as the kernel sizes it at initialization.
pub fn init() -> (r: Log)
    ensures
        r@ == Seq::<u8>::empty(),
        r.spec_size() == 1024 * 1024,
{
    Log::new(1024 * 1024)
}

} // verus!
