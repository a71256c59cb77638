//! Display-device discovery over a single memory-mapped configuration window:
//! class validation, BAR sizing, window assignment and decode enable, as an
//! explicit state machine whose memory-mapped reads and writes are performed
//! by the caller in exactly the order the machine dictates.

use vstd::prelude::*;
use vstd::string::StringSliceAdditionalSpecFns;

verus! {

/// Word offset of the command register (bit 1 enables memory decode).
pub const CFG_COMMAND: u32 = 1;

/// Word offset of the class/revision register (class code in the top bytes).
pub const CFG_CLASS: u32 = 2;

/// Word offset of the framebuffer window BAR.
pub const CFG_BAR_FB: u32 = 4;

/// Word offset of the I/O window BAR.
pub const CFG_BAR_IO: u32 = 6;

/// The class code of a display controller.
pub const DISPLAY_CLASS: u32 = 0x030000;

/// The class code held in the class/revision register: its top three bytes.
pub open spec fn class_code_spec(reg: u32) -> u32 {
    reg >> 8
}

/// Extracts the class code from the class/revision register value.
pub fn class_code(reg: u32) -> (c: u32)
    ensures
        c == class_code_spec(reg),
{
    reg >> 8
}

/// The window size a BAR reports: after all-ones were written, the readback
/// is inverted, the four low flag bits are forced to one, and one is added.
pub open spec fn bar_size_spec(readback: u32) -> u64 {
    (((!readback | 0xF) as u64) + 1) as u64
}

/// Computes the window size from a BAR readback taken after an all-ones
/// write.
pub fn bar_size(readback: u32) -> (size: u64)
    ensures
        size == bar_size_spec(readback),
        16 <= size <= 0x1_0000_0000,
{
    proof {
        assert((!readback | 0xFu32) >= 0xF) by (bit_vector);
    }
    ((!readback | 0xF) as u64) + 1
}

/// Whether a value is a power of two.
pub open spec fn is_pow2(n: u64) -> bool {
    n > 0 && n & ((n - 1) as u64) == 0
}

/// A BAR readback reports a proper size mask: above the four low flag bits
/// the register holds ones down to some bit k >= 4 and zeros below, i.e. the
/// device asks for a power-of-two window.
pub open spec fn reports_size_mask(readback: u32) -> bool {
    exists|k: u64|
        4 <= k <= 32 && (readback as u64) & 0xFFFF_FFF0 == (0xFFFF_FFFFu64 << k) & 0xFFFF_FFFF
}

/// The size computed from a well-formed BAR readback is always a power of
/// two and at least 16 bytes.
pub proof fn lemma_bar_size_pow2(readback: u32)
    requires
        reports_size_mask(readback),
    ensures
        is_pow2(bar_size_spec(readback)),
        bar_size_spec(readback) >= 16,
{
    let k = choose|k: u64|
        4 <= k <= 32 && (readback as u64) & 0xFFFF_FFF0 == (0xFFFF_FFFFu64 << k) & 0xFFFF_FFFF;
    assert(((!readback | 0xF) as u64) == ((!(readback as u64)) & 0xFFFF_FFFF) | 0xF)
        by (bit_vector);
    assert((4 <= k <= 32 && (readback as u64) & 0xFFFF_FFF0 == (0xFFFF_FFFFu64 << k) & 0xFFFF_FFFF)
        ==> (((!(readback as u64)) & 0xFFFF_FFFF) | 0xF) + 1 == 1u64 << k) by (bit_vector);
    assert((4 <= k <= 32) ==> ((1u64 << k) & (((1u64 << k) - 1) as u64) == 0 && (1u64 << k)
        >= 16)) by (bit_vector);
}

/// The framebuffer window size in whole mebibytes, rounded half up.
pub open spec fn mib_rounded_spec(size: u64) -> u64 {
    ((size + 0x80000) as u64) >> 20
}

/// The diagnostic line reported over the console once the device is
/// programmed: both window bases in hex, the framebuffer size in mebibytes,
/// the I/O size in bytes.
pub open spec fn report_bytes(fb_base: u32, fb_size: u64, io_base: u32, io_size: u64) -> Seq<
    u8,
> {
    "VGA fb_base ".spec_bytes() + crate::sbi::hex32_bytes(fb_base) + " size ".spec_bytes()
        + crate::sbi::dec_bytes(mib_rounded_spec(fb_size)) + "M io_base ".spec_bytes()
        + crate::sbi::hex32_bytes(io_base) + " size ".spec_bytes() + crate::sbi::dec_bytes(io_size)
        + "\n".spec_bytes()
}

/// Builds the diagnostic line for the console transport.
pub fn probe_report(fb_base: u32, fb_size: u64, io_base: u32, io_size: u64) -> (out:
    crate::sbi::StdOut)
    requires
        fb_size <= 0x1_0000_0000,
    ensures
        out@ == report_bytes(fb_base, fb_size, io_base, io_size),
{
    let mut out = crate::sbi::StdOut::new();
    out.write_str("VGA fb_base ");
    out.write_hex32(fb_base);
    out.write_str(" size ");
    out.write_dec((fb_size + 0x80000) >> 20);
    out.write_str("M io_base ");
    out.write_hex32(io_base);
    out.write_str(" size ");
    out.write_dec(io_size);
    out.write_str("\n");
    proof {
        assert(out@ =~= report_bytes(fb_base, fb_size, io_base, io_size));
    }
    out
}

/// Where the probe stands in the fixed, order-dependent programming
/// sequence: sizing must precede assignment, and the command-enable write
/// comes last.
#[derive(Clone, Copy, PartialEq, Eq, Structural, Debug)]
pub enum ProbePhase {
    /// Read the class register and validate the device.
    ReadClass,
    /// Write all-ones to the framebuffer BAR to ask for its size mask.
    SizeFbWrite,
    /// Read the framebuffer BAR size mask back.
    SizeFbRead,
    /// Write all-ones to the I/O BAR to ask for its size mask.
    SizeIoWrite,
    /// Read the I/O BAR size mask back.
    SizeIoRead,
    /// Assign the framebuffer window to the caller-supplied base.
    ProgramFb,
    /// Assign the I/O window right after the framebuffer window.
    ProgramIo,
    /// Read the command register before setting its decode-enable bit.
    ReadCommand,
    /// Set the memory-decode-enable bit in the command register.
    EnableDecode,
    /// The device responds to both assigned windows.
    Complete,
    /// The device is not a display controller; nothing was written.
    Failed,
}

/// What the caller must do next: one volatile access of the configuration
/// window, or the terminal outcome of the probe.
#[derive(Clone, Copy, PartialEq, Eq, Structural, Debug)]
pub enum ProbeAction {
    /// Read the 32-bit register at this word offset and feed the value back
    /// through `observe`.
    ReadConfig { reg: u32 },
    /// Write this value to the register at this word offset, then call
    /// `advance`.
    WriteConfig { reg: u32, value: u32 },
    /// Programming finished: the assigned windows and their sizes.
    Done { fb_base: u32, fb_size: u64, io_base: u64, io_size: u64 },
    /// The device class was wrong; the probe wrote nothing and the system
    /// must treat this as fatal.
    Fail,
}

/// The probe's state: the phase plus everything read or computed so far.
#[derive(Clone, Copy, PartialEq, Eq, Structural, Debug)]
pub struct ProbeState {
    pub phase: ProbePhase,
    /// Caller-supplied physical base of the framebuffer window.
    pub fb_base: u32,
    /// Framebuffer window size, once sized.
    pub fb_size: u64,
    /// I/O window size, once sized.
    pub io_size: u64,
    /// Command register value, once read.
    pub command: u32,
}

impl ProbeState {
    /// A probe state is well formed when its window sizes are ones a BAR can
    /// report: at most 2^32 bytes each.
    pub open spec fn wf(self) -> bool {
        self.fb_size <= 0x1_0000_0000 && self.io_size <= 0x1_0000_0000
    }
}

/// The probe's starting state for a given framebuffer base address.
pub open spec fn probe_init(fb_base: u32) -> ProbeState {
    ProbeState { phase: ProbePhase::ReadClass, fb_base, fb_size: 0, io_size: 0, command: 0 }
}

/// The I/O window base: placed immediately after the framebuffer window.
pub open spec fn io_base_spec(s: ProbeState) -> u64 {
    (s.fb_base + s.fb_size) as u64
}

/// The access or outcome each state asks for.
pub open spec fn action_spec(s: ProbeState) -> ProbeAction {
    match s.phase {
        ProbePhase::ReadClass => ProbeAction::ReadConfig { reg: CFG_CLASS },
        ProbePhase::SizeFbWrite => ProbeAction::WriteConfig { reg: CFG_BAR_FB, value: 0xFFFF_FFFF },
        ProbePhase::SizeFbRead => ProbeAction::ReadConfig { reg: CFG_BAR_FB },
        ProbePhase::SizeIoWrite => ProbeAction::WriteConfig { reg: CFG_BAR_IO, value: 0xFFFF_FFFF },
        ProbePhase::SizeIoRead => ProbeAction::ReadConfig { reg: CFG_BAR_IO },
        ProbePhase::ProgramFb => ProbeAction::WriteConfig {
            reg: CFG_BAR_FB,
            value: s.fb_base | 8,
        },
        ProbePhase::ProgramIo => ProbeAction::WriteConfig {
            reg: CFG_BAR_IO,
            value: (io_base_spec(s) as u32) | 8,
        },
        ProbePhase::ReadCommand => ProbeAction::ReadConfig { reg: CFG_COMMAND },
        ProbePhase::EnableDecode => ProbeAction::WriteConfig {
            reg: CFG_COMMAND,
            value: s.command | 2,
        },
        ProbePhase::Complete => ProbeAction::Done {
            fb_base: s.fb_base,
            fb_size: s.fb_size,
            io_base: io_base_spec(s),
            io_size: s.io_size,
        },
        ProbePhase::Failed => ProbeAction::Fail,
    }
}

/// The state waits for a register readback.
pub open spec fn awaits_readback(s: ProbeState) -> bool {
    action_spec(s) matches ProbeAction::ReadConfig { .. }
}

/// The state waits for a register write to be performed.
pub open spec fn awaits_write(s: ProbeState) -> bool {
    action_spec(s) matches ProbeAction::WriteConfig { .. }
}

/// The state after a register readback was fed in.
pub open spec fn observe_spec(s: ProbeState, value: u32) -> ProbeState {
    match s.phase {
        ProbePhase::ReadClass => if class_code_spec(value) == DISPLAY_CLASS {
            ProbeState { phase: ProbePhase::SizeFbWrite, ..s }
        } else {
            ProbeState { phase: ProbePhase::Failed, ..s }
        },
        ProbePhase::SizeFbRead => ProbeState {
            phase: ProbePhase::SizeIoWrite,
            fb_size: bar_size_spec(value),
            ..s
        },
        ProbePhase::SizeIoRead => ProbeState {
            phase: ProbePhase::ProgramFb,
            io_size: bar_size_spec(value),
            ..s
        },
        ProbePhase::ReadCommand => ProbeState {
            phase: ProbePhase::EnableDecode,
            command: value,
            ..s
        },
        _ => s,
    }
}

/// The state after the pending register write was performed.
pub open spec fn advance_spec(s: ProbeState) -> ProbeState {
    match s.phase {
        ProbePhase::SizeFbWrite => ProbeState { phase: ProbePhase::SizeFbRead, ..s },
        ProbePhase::SizeIoWrite => ProbeState { phase: ProbePhase::SizeIoRead, ..s },
        ProbePhase::ProgramFb => ProbeState { phase: ProbePhase::ProgramIo, ..s },
        ProbePhase::ProgramIo => ProbeState { phase: ProbePhase::ReadCommand, ..s },
        ProbePhase::EnableDecode => ProbeState { phase: ProbePhase::Complete, ..s },
        _ => s,
    }
}

impl ProbeState {
    /// Starts a probe that will assign the framebuffer window to `fb_base`.
    pub fn new(fb_base: u32) -> (s: Self)
        ensures
            s == probe_init(fb_base),
            s.wf(),
    {
        ProbeState {
            phase: ProbePhase::ReadClass,
            fb_base,
            fb_size: 0,
            io_size: 0,
            command: 0,
        }
    }

    /// The access or outcome the caller must handle next.
    pub fn next_action(&self) -> (a: ProbeAction)
        requires
            self.wf(),
        ensures
            a == action_spec(*self),
    {
        match self.phase {
            ProbePhase::ReadClass => ProbeAction::ReadConfig { reg: CFG_CLASS },
            ProbePhase::SizeFbWrite => ProbeAction::WriteConfig {
                reg: CFG_BAR_FB,
                value: 0xFFFF_FFFF,
            },
            ProbePhase::SizeFbRead => ProbeAction::ReadConfig { reg: CFG_BAR_FB },
            ProbePhase::SizeIoWrite => ProbeAction::WriteConfig {
                reg: CFG_BAR_IO,
                value: 0xFFFF_FFFF,
            },
            ProbePhase::SizeIoRead => ProbeAction::ReadConfig { reg: CFG_BAR_IO },
            ProbePhase::ProgramFb => ProbeAction::WriteConfig {
                reg: CFG_BAR_FB,
                value: self.fb_base | 8,
            },
            ProbePhase::ProgramIo => ProbeAction::WriteConfig {
                reg: CFG_BAR_IO,
                value: (self.io_base() as u32) | 8,
            },
            ProbePhase::ReadCommand => ProbeAction::ReadConfig { reg: CFG_COMMAND },
            ProbePhase::EnableDecode => ProbeAction::WriteConfig {
                reg: CFG_COMMAND,
                value: self.command | 2,
            },
            ProbePhase::Complete => ProbeAction::Done {
                fb_base: self.fb_base,
                fb_size: self.fb_size,
                io_base: self.io_base(),
                io_size: self.io_size,
            },
            ProbePhase::Failed => ProbeAction::Fail,
        }
    }

    /// The I/O window base this probe will assign: immediately after the
    /// framebuffer window.
    pub fn io_base(&self) -> (r: u64)
        requires
            self.wf(),
        ensures
            r == io_base_spec(*self),
    {
        self.fb_base as u64 + self.fb_size
    }

    /// Feeds back the value a `ReadConfig` action read.
    pub fn observe(&mut self, value: u32)
        requires
            awaits_readback(*old(self)),
        ensures
            *final(self) == observe_spec(*old(self), value),
            old(self).wf() ==> final(self).wf(),
    {
        match self.phase {
            ProbePhase::ReadClass => {
                if class_code(value) == DISPLAY_CLASS {
                    self.phase = ProbePhase::SizeFbWrite;
                } else {
                    self.phase = ProbePhase::Failed;
                }
            },
            ProbePhase::SizeFbRead => {
                self.fb_size = bar_size(value);
                self.phase = ProbePhase::SizeIoWrite;
            },
            ProbePhase::SizeIoRead => {
                self.io_size = bar_size(value);
                self.phase = ProbePhase::ProgramFb;
            },
            ProbePhase::ReadCommand => {
                self.command = value;
                self.phase = ProbePhase::EnableDecode;
            },
            _ => {},
        }
    }

    /// Records that the pending `WriteConfig` action was performed.
    pub fn advance(&mut self)
        requires
            awaits_write(*old(self)),
        ensures
            *final(self) == advance_spec(*old(self)),
            old(self).wf() ==> final(self).wf(),
    {
        match self.phase {
            ProbePhase::SizeFbWrite => {
                self.phase = ProbePhase::SizeFbRead;
            },
            ProbePhase::SizeIoWrite => {
                self.phase = ProbePhase::SizeIoRead;
            },
            ProbePhase::ProgramFb => {
                self.phase = ProbePhase::ProgramIo;
            },
            ProbePhase::ProgramIo => {
                self.phase = ProbePhase::ReadCommand;
            },
            ProbePhase::EnableDecode => {
                self.phase = ProbePhase::Complete;
            },
            _ => {},
        }
    }
}

/// The actions a full probe of a display-class device emits, in order, when
/// the class register reads back `class_reg`, the two BARs read back
/// `fb_mask` and `io_mask` after their all-ones writes, and the command
/// register reads back `cmd`.
pub open spec fn probe_trace(
    fb_base: u32,
    class_reg: u32,
    fb_mask: u32,
    io_mask: u32,
    cmd: u32,
) -> Seq<ProbeAction> {
    let s0 = probe_init(fb_base);
    let s1 = observe_spec(s0, class_reg);
    let s2 = advance_spec(s1);
    let s3 = observe_spec(s2, fb_mask);
    let s4 = advance_spec(s3);
    let s5 = observe_spec(s4, io_mask);
    let s6 = advance_spec(s5);
    let s7 = advance_spec(s6);
    let s8 = observe_spec(s7, cmd);
    let s9 = advance_spec(s8);
    seq![
        action_spec(s0),
        action_spec(s1),
        action_spec(s2),
        action_spec(s3),
        action_spec(s4),
        action_spec(s5),
        action_spec(s6),
        action_spec(s7),
        action_spec(s8),
        action_spec(s9),
    ]
}

/// For a display-class device the probe emits exactly the fixed programming
/// sequence, in this order: validate the class; size the framebuffer BAR,
/// then the I/O BAR, each by an all-ones write and a readback; assign the
/// framebuffer window to the caller-supplied base and the I/O window right
/// after it, both with the memory-space flag; and set the command register's
/// decode-enable bit last, only after which the probe reports completion.
pub proof fn lemma_probe_programs_in_order(
    fb_base: u32,
    class_reg: u32,
    fb_mask: u32,
    io_mask: u32,
    cmd: u32,
)
    requires
        class_code_spec(class_reg) == DISPLAY_CLASS,
    ensures
        probe_trace(fb_base, class_reg, fb_mask, io_mask, cmd) =~= seq![
            ProbeAction::ReadConfig { reg: CFG_CLASS },
            ProbeAction::WriteConfig { reg: CFG_BAR_FB, value: 0xFFFF_FFFF },
            ProbeAction::ReadConfig { reg: CFG_BAR_FB },
            ProbeAction::WriteConfig { reg: CFG_BAR_IO, value: 0xFFFF_FFFF },
            ProbeAction::ReadConfig { reg: CFG_BAR_IO },
            ProbeAction::WriteConfig { reg: CFG_BAR_FB, value: fb_base | 8 },
            ProbeAction::WriteConfig {
                reg: CFG_BAR_IO,
                value: (((fb_base + bar_size_spec(fb_mask)) as u64) as u32) | 8,
            },
            ProbeAction::ReadConfig { reg: CFG_COMMAND },
            ProbeAction::WriteConfig { reg: CFG_COMMAND, value: cmd | 2 },
            ProbeAction::Done {
                fb_base,
                fb_size: bar_size_spec(fb_mask),
                io_base: (fb_base + bar_size_spec(fb_mask)) as u64,
                io_size: bar_size_spec(io_mask),
            },
        ],
{
}

/// With a class readback that is not the display-controller class, the probe
/// fails before any configuration write: its first action is the class read,
/// the state after the readback emits only `Fail`, and no transition accepts
/// that state, so no `WriteConfig` action is ever produced.
pub proof fn lemma_wrong_class_never_writes(fb_base: u32, class_reg: u32)
    requires
        class_code_spec(class_reg) != DISPLAY_CLASS,
    ensures
        action_spec(probe_init(fb_base)) == (ProbeAction::ReadConfig { reg: CFG_CLASS }),
        observe_spec(probe_init(fb_base), class_reg).phase == ProbePhase::Failed,
        action_spec(observe_spec(probe_init(fb_base), class_reg)) == ProbeAction::Fail,
        forall|s: ProbeState|
            s.phase == ProbePhase::Failed ==> !awaits_write(s) && !awaits_readback(s),
{
}

} // verus!
