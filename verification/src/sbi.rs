//! Supervisor Binary Interface console transport: service identifiers, the
//! interpretation of a `getchar` readback word, and the byte encoding of
//! console output.

use vstd::prelude::*;
use vstd::string::StringSliceAdditionalSpecFns;

verus! {

/// SBI extension ID
pub struct Eid(pub usize);

impl Eid {
    pub const CONSOLE_PUTCHAR: usize = 1;

    pub const CONSOLE_GETCHAR: usize = 2;

    pub const SHUTDOWN: usize = 8;
}

/// The byte of a lowercase hex digit for a value below 16.
pub open spec fn hex_digit(v: u8) -> u8 {
    if v < 10 {
        (0x30 + v) as u8
    } else {
        (0x57 + v) as u8
    }
}

/// The nibble of a 32-bit value at position `k`, 0 being the least
/// significant.
pub open spec fn nibble(v: u32, k: u32) -> u8 {
    ((v >> ((4 * k) as u32)) & 0xF) as u8
}

/// The eight lowercase hex digits of a 32-bit value, most significant
/// first.
pub open spec fn hex32_bytes(v: u32) -> Seq<u8> {
    Seq::new(8, |i: int| hex_digit(nibble(v, (7 - i) as u32)))
}

/// The decimal digit bytes of a value, most significant first, with no
/// leading zeros.
pub open spec fn dec_bytes(n: u64) -> Seq<u8>
    decreases n,
{
    if n < 10 {
        seq![(0x30 + n) as u8]
    } else {
        dec_bytes((n / 10) as u64).push((0x30 + n % 10) as u8)
    }
}

/// The textual console output capability: encodes each UTF-8 string handed
/// to it as its raw bytes, with no line-ending translation, queueing them
/// oldest-first for the putchar supervisor call. Its view is the queue of
/// bytes not yet handed to the transport.
pub struct StdOut {
    pending: Vec<u8>,
}

impl View for StdOut {
    type V = Seq<u8>;

    closed spec fn view(&self) -> Seq<u8> {
        self.pending@
    }
}

impl StdOut {
    /// A console output with nothing queued.
    pub fn new() -> (o: Self)
        ensures
            o@ == Seq::<u8>::empty(),
    {
        StdOut { pending: Vec::new() }
    }

    /// Queues the raw UTF-8 bytes of a string, in order, after everything
    /// queued so far.
    pub fn write_str(&mut self, s: &str)
        ensures
            final(self)@ == old(self)@ + s.spec_bytes(),
    {
        let bytes: &[u8] = s.as_bytes();
        let mut i: usize = 0;
        while i < bytes.len()
            invariant
                i <= bytes@.len(),
                self@ == old(self)@ + bytes@.take(i as int),
            decreases bytes@.len() - i,
        {
            self.pending.push(bytes[i]);
            proof {
                assert(bytes@.take(i + 1) == bytes@.take(i as int).push(bytes@[i as int]));
            }
            i += 1;
        }
        proof {
            assert(bytes@.take(bytes@.len() as int) == bytes@);
        }
    }

    /// Queues one raw byte.
    pub fn write_byte(&mut self, b: u8)
        ensures
            final(self)@ == old(self)@.push(b),
    {
        self.pending.push(b);
    }

    /// Queues the eight lowercase hex digits of a 32-bit value, most
    /// significant first.
    pub fn write_hex32(&mut self, v: u32)
        ensures
            final(self)@ == old(self)@ + hex32_bytes(v),
    {
        let mut k: usize = 0;
        while k < 8
            invariant
                k <= 8,
                self@ == old(self)@ + hex32_bytes(v).take(k as int),
            decreases 8 - k,
        {
            let shift: u32 = (4 * (7 - k)) as u32;
            let nib: u32 = (v >> shift) & 0xF;
            proof {
                assert((v >> shift) & 0xF < 16) by (bit_vector);
            }
            let d: u8 = if nib < 10 {
                0x30 + nib as u8
            } else {
                0x57 + nib as u8
            };
            self.write_byte(d);
            proof {
                assert(hex32_bytes(v).take(k + 1) == hex32_bytes(v).take(k as int).push(
                    hex32_bytes(v)[k as int]));
            }
            k += 1;
        }
        proof {
            assert(hex32_bytes(v).take(8) == hex32_bytes(v));
        }
    }

    /// Queues the decimal digit bytes of a value, most significant first,
    /// with no leading zeros.
    pub fn write_dec(&mut self, n: u64)
        ensures
            final(self)@ == old(self)@ + dec_bytes(n),
        decreases n,
    {
        if n < 10 {
            self.write_byte(0x30 + n as u8);
            proof {
                assert(old(self)@ + dec_bytes(n) =~= old(self)@.push((0x30 + n) as u8));
            }
        } else {
            self.write_dec(n / 10);
            self.write_byte(0x30 + (n % 10) as u8);
            proof {
                assert(old(self)@ + dec_bytes(n) =~= (old(self)@ + dec_bytes((n / 10) as u64))
                    .push((0x30 + n % 10) as u8));
            }
        }
    }

    /// The queued bytes, oldest first.
    pub fn bytes(&self) -> (r: &Vec<u8>)
        ensures
            r@ == self@,
    {
        &self.pending
    }

    /// Empties the queue, after the caller handed its bytes to the
    /// transport.
    pub fn clear(&mut self)
        ensures
            final(self)@ == Seq::<u8>::empty(),
    {
        self.pending = Vec::new();
    }
}

/// Interprets the machine word returned by the console-getchar supervisor
/// call: values 0..=255 are an available byte, anything else (typically an
/// all-ones sentinel) means no input was available.
pub fn getchar_decode(raw: usize) -> (r: Option<u8>)
    ensures
        raw <= 255 ==> r == Some(raw as u8),
        raw > 255 ==> r is None,
{
    if raw <= 255 {
        Some(raw as u8)
    } else {
        None
    }
}

/// The idle loop's decision for one console poll: an available byte is
/// echoed back unless it is NUL; an absent byte is not an error and echoes
/// nothing.
pub fn echo_step(input: Option<u8>) -> (r: Option<u8>)
    ensures
        (input matches Some(b) && b != 0) ==> r == input,
        (input is None || input == Some(0u8)) ==> r is None,
{
    match input {
        Some(b) => if b != 0 {
            Some(b)
        } else {
            None
        },
        None => None,
    }
}

} // verus!
