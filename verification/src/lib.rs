//! Hardware bring-up layer for a minimal bare-metal environment: supervisor-call
//! console transport, PCI-style display-device discovery and BAR programming,
//! and a bounds-checked 320x200 indexed-color framebuffer surface.

pub mod pci;
pub mod sbi;
pub mod vga;

use vstd::prelude::*;
use vstd::string::StringSliceAdditionalSpecFns;

verus! {

/// The diagnostic prefix of a fatal-panic report: a newline, the terminal
/// cursor/color reset escape, and the banner line.
pub open spec fn panic_prefix_bytes() -> Seq<u8> {
    "\n\x1b[m#### KERNEL PANIC ####\n".spec_bytes()
}

/// Builds the fatal-panic report: the reset-escape-and-banner prefix exactly
/// once, followed by the panic payload verbatim. The caller hands the queued
/// bytes to the console transport and then parks the hart permanently.
pub fn panic_message(payload: &str) -> (r: sbi::StdOut)
    ensures
        r@ == panic_prefix_bytes() + payload.spec_bytes(),
{
    let mut out = sbi::StdOut::new();
    out.write_str("\n\x1b[m#### KERNEL PANIC ####\n");
    out.write_str(payload);
    proof {
        assert((Seq::<u8>::empty() + panic_prefix_bytes()) + payload.spec_bytes()
            =~= panic_prefix_bytes() + payload.spec_bytes());
    }
    out
}

/// A fresh handle on the textual console output capability, with nothing
/// queued yet.
pub fn stdout() -> (o: sbi::StdOut)
    ensures
        o@ == Seq::<u8>::empty(),
{
    sbi::StdOut::new()
}

} // verus!
