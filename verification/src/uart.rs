//! The 16550-style serial port as the console sees it: what matters to the
//! kernel's logic is the byte stream handed to the transmitter, including
//! the backspace and newline translation; the port registers themselves
//! are write-only hardware behind it.

use vstd::prelude::*;

verus! {

/// What the console translation turns one byte into: backspace and delete
/// erase a character on screen, a line feed is preceded by a carriage
/// return, everything else passes through.
pub open spec fn translate_byte(b: u8) -> Seq<u8> {
    if b == 8 || b == 0x7F {
        seq![8u8, 32u8, 8u8]
    } else if b == 10 {
        seq![13u8, 10u8]
    } else {
        seq![b]
    }
}

/// The translation of a whole buffer, in order.
pub open spec fn translate_bytes(s: Seq<u8>) -> Seq<u8>
    decreases s.len(),
{
    if s.len() == 0 {
        Seq::empty()
    } else {
        translate_bytes(s.drop_last()) + translate_byte(s.last())
    }
}

/// A serial port at an I/O-port base address, with the transmitted byte
/// stream it has produced.
pub struct SerialPort {
    base: u16,
    sent: Vec<u8>,
}

impl SerialPort {
    /// The bytes handed to the transmitter so far, in order.
    pub closed spec fn view(&self) -> Seq<u8> {
        self.sent@
    }

    /// The I/O-port base address.
    pub closed spec fn spec_base(&self) -> u16 {
        self.base
    }

    /// A port at `base` that has transmitted nothing yet.
    pub fn new(base: u16) -> (r: SerialPort)
        ensures
            r.spec_base() == base,
            r@ == Seq::<u8>::empty(),
    {
        SerialPort { base, sent: Vec::new() }
    }

    /// The bytes handed to the transmitter so far, oldest first.
    pub fn transmitted(&self) -> (r: &[u8])
        ensures
            r@ == self@,
    {
        self.sent.as_slice()
    }

    /// Hand one byte to the transmitter.
    pub fn send(&mut self, data: u8)
        ensures
            final(self)@ == old(self)@.push(data),
            final(self).spec_base() == old(self).spec_base(),
    {
        self.sent.push(data);
    }

    /// Write a buffer to the console: backspace and delete erase the
    /// previous character, a line feed becomes carriage return plus line
    /// feed, and every other byte is sent unchanged.
    pub fn write(&mut self, buf: &[u8])
        ensures
            final(self)@ == old(self)@ + translate_bytes(buf@),
            final(self).spec_base() == old(self).spec_base(),
    {
        let n = buf.len();
        let mut i: usize = 0;
        while i < n
            invariant
                0 <= i <= n,
                n == buf@.len(),
                self.spec_base() == old(self).spec_base(),
                self@ == old(self)@ + translate_bytes(buf@.take(i as int)),
            decreases n - i,
        {
            let b = buf[i];
            match b {
                8 | 0x7F => {
                    self.send(8);
                    self.send(32);
                    self.send(8);
                },
                10 => {
                    self.send(13);
                    self.send(10);
                },
                _ => {
                    self.send(b);
                },
            }
            proof {
                assert(buf@.take(i + 1).drop_last() =~= buf@.take(i as int));
                assert(buf@.take(i + 1).last() == buf@[i as int]);
            }
            i += 1;
        }
        proof {
            assert(buf@.take(n as int) =~= buf@);
        }
    }
}

} // verus!
