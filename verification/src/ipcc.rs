//! Inter-processor communication controller (IPCC).
//! Used on STM32WB for communication between cores.

use vstd::prelude::*;
use crate::rcc::{enable_reset, enable_reset_writes, Rcc, RccReg, IPCC_BIT};
use crate::regs::{after, lemma_after_single, Bus, RegOp, RegisterFile};

verus! {

/// Represents one of six channels. We use this enum for both Core1 and Core2 channels.
#[derive(Clone, Copy, Debug, PartialEq, Eq, Structural)]
pub enum IpccChannel {
    C1,
    C2,
    C3,
    C4,
    C5,
    C6,
}

/// The core that's performing the requested operation. Core 1 is the M4 core, and Core 2 is the M0+ core.
#[derive(Clone, Copy, Debug, PartialEq, Eq, Structural)]
pub enum Core {
    C1,
    C2,
}

/// Select Simplex (data stored separately on each core), or Half-Duplex (Data
/// is shared in a common memory location)
/// In Simplex channel mode, a dedicated memory location (used to transfer data in a single
/// direction) is assigned to the communication data. The associated channel N control bits
/// are used to manage the transfer from the sending to the receiving processor.
/// The Half-duplex channel mode is used when one processor sends a communication and the
/// other processor sends a response to each communication (ping-pong).
#[derive(Clone, Copy, Debug, PartialEq, Eq, Structural)]
pub enum IpccMode {
    Simplex,
    HalfDuplex,
}

/// The IPCC registers.
#[derive(Clone, Copy, Debug, PartialEq, Eq, Structural)]
pub enum IpccReg {
    C1Cr,
    C1Mr,
    C1Scr,
    C1ToC2Sr,
    C2Cr,
    C2Mr,
    C2Scr,
    C2ToC1Sr,
}

/// The values of the IPCC registers.
#[derive(Clone, Copy, Debug, PartialEq, Eq, Structural)]
pub struct IpccRegisters {
    pub c1cr: u32,
    pub c1mr: u32,
    pub c1scr: u32,
    pub c1toc2sr: u32,
    pub c2cr: u32,
    pub c2mr: u32,
    pub c2scr: u32,
    pub c2toc1sr: u32,
}

impl RegisterFile for IpccRegisters {
    type Reg = IpccReg;

    open spec fn value_of(self, reg: IpccReg) -> u32 {
        match reg {
            IpccReg::C1Cr => self.c1cr,
            IpccReg::C1Mr => self.c1mr,
            IpccReg::C1Scr => self.c1scr,
            IpccReg::C1ToC2Sr => self.c1toc2sr,
            IpccReg::C2Cr => self.c2cr,
            IpccReg::C2Mr => self.c2mr,
            IpccReg::C2Scr => self.c2scr,
            IpccReg::C2ToC1Sr => self.c2toc1sr,
        }
    }

    open spec fn with_value(self, reg: IpccReg, value: u32) -> IpccRegisters {
        match reg {
            IpccReg::C1Cr => IpccRegisters { c1cr: value, ..self },
            IpccReg::C1Mr => IpccRegisters { c1mr: value, ..self },
            IpccReg::C1Scr => IpccRegisters { c1scr: value, ..self },
            IpccReg::C1ToC2Sr => IpccRegisters { c1toc2sr: value, ..self },
            IpccReg::C2Cr => IpccRegisters { c2cr: value, ..self },
            IpccReg::C2Mr => IpccRegisters { c2mr: value, ..self },
            IpccReg::C2Scr => IpccRegisters { c2scr: value, ..self },
            IpccReg::C2ToC1Sr => IpccRegisters { c2toc1sr: value, ..self },
        }
    }

    fn read(&self, reg: IpccReg) -> (v: u32) {
        match reg {
            IpccReg::C1Cr => self.c1cr,
            IpccReg::C1Mr => self.c1mr,
            IpccReg::C1Scr => self.c1scr,
            IpccReg::C1ToC2Sr => self.c1toc2sr,
            IpccReg::C2Cr => self.c2cr,
            IpccReg::C2Mr => self.c2mr,
            IpccReg::C2Scr => self.c2scr,
            IpccReg::C2ToC1Sr => self.c2toc1sr,
        }
    }

    fn store(&mut self, reg: IpccReg, value: u32) {
        match reg {
            IpccReg::C1Cr => self.c1cr = value,
            IpccReg::C1Mr => self.c1mr = value,
            IpccReg::C1Scr => self.c1scr = value,
            IpccReg::C1ToC2Sr => self.c1toc2sr = value,
            IpccReg::C2Cr => self.c2cr = value,
            IpccReg::C2Mr => self.c2mr = value,
            IpccReg::C2Scr => self.c2scr = value,
            IpccReg::C2ToC1Sr => self.c2toc1sr = value,
        }
    }
}

/// The position of a channel's bits: channel n sits at bit n - 1 of the low
/// half of a register, and at bit n + 15 of the high half.
pub open spec fn channel_index(channel: IpccChannel) -> u32 {
    match channel {
        IpccChannel::C1 => 0,
        IpccChannel::C2 => 1,
        IpccChannel::C3 => 2,
        IpccChannel::C4 => 3,
        IpccChannel::C5 => 4,
        IpccChannel::C6 => 5,
    }
}

/// The channel's bit in the low half: CHnOM in the mask register, CHnC in the
/// status set/clear register, CHnF in the status register.
pub open spec fn low_bit(channel: IpccChannel) -> u32 {
    1u32 << channel_index(channel)
}

/// The channel's bit in the high half: CHnFM in the mask register, CHnS in the
/// status set/clear register.
pub open spec fn high_bit(channel: IpccChannel) -> u32 {
    1u32 << ((channel_index(channel) + 16) as u32)
}

/// The mask register of a core (CxMR).
pub open spec fn mask_reg(core: Core) -> IpccReg {
    match core {
        Core::C1 => IpccReg::C1Mr,
        Core::C2 => IpccReg::C2Mr,
    }
}

/// The status set/clear register of a core (CxSCR).
pub open spec fn set_clear_reg(core: Core) -> IpccReg {
    match core {
        Core::C1 => IpccReg::C1Scr,
        Core::C2 => IpccReg::C2Scr,
    }
}

/// The status register of the channels a core transmits on (CxTOCySR).
pub open spec fn status_reg(core: Core) -> IpccReg {
    match core {
        Core::C1 => IpccReg::C1ToC2Sr,
        Core::C2 => IpccReg::C2ToC1Sr,
    }
}

/// The offset of a register from the start of the IPCC register block.
pub open spec fn register_offset(reg: IpccReg) -> u32 {
    match reg {
        IpccReg::C1Cr => 0x00,
        IpccReg::C1Mr => 0x04,
        IpccReg::C1Scr => 0x08,
        IpccReg::C1ToC2Sr => 0x0C,
        IpccReg::C2Cr => 0x10,
        IpccReg::C2Mr => 0x14,
        IpccReg::C2Scr => 0x18,
        IpccReg::C2ToC1Sr => 0x1C,
    }
}

/// Where the IPCC register block starts.
pub const IPCC_BASE: u32 = 0x5800_0C00;

/// The address of an IPCC register.
pub fn register_address(reg: IpccReg) -> (addr: u32)
    ensures
        addr == IPCC_BASE + register_offset(reg),
{
    let offset: u32 = match reg {
        IpccReg::C1Cr => 0x00,
        IpccReg::C1Mr => 0x04,
        IpccReg::C1Scr => 0x08,
        IpccReg::C1ToC2Sr => 0x0C,
        IpccReg::C2Cr => 0x10,
        IpccReg::C2Mr => 0x14,
        IpccReg::C2Scr => 0x18,
        IpccReg::C2ToC1Sr => 0x1C,
    };
    IPCC_BASE + offset
}

fn index_of(channel: IpccChannel) -> (i: u32)
    ensures
        i == channel_index(channel),
        i < 6,
{
    match channel {
        IpccChannel::C1 => 0,
        IpccChannel::C2 => 1,
        IpccChannel::C3 => 2,
        IpccChannel::C4 => 3,
        IpccChannel::C5 => 4,
        IpccChannel::C6 => 5,
    }
}

fn low_mask(channel: IpccChannel) -> (m: u32)
    ensures
        m == low_bit(channel),
{
    1u32 << index_of(channel)
}

fn high_mask(channel: IpccChannel) -> (m: u32)
    ensures
        m == high_bit(channel),
{
    1u32 << (index_of(channel) + 16)
}

fn mask_register(core: Core) -> (r: IpccReg)
    ensures
        r == mask_reg(core),
{
    match core {
        Core::C1 => IpccReg::C1Mr,
        Core::C2 => IpccReg::C2Mr,
    }
}

fn set_clear_register(core: Core) -> (r: IpccReg)
    ensures
        r == set_clear_reg(core),
{
    match core {
        Core::C1 => IpccReg::C1Scr,
        Core::C2 => IpccReg::C2Scr,
    }
}

fn pending_mask(core: Core, channel: IpccChannel) -> (m: u32)
    ensures
        m == pending_bit(core, channel),
{
    match core {
        Core::C1 => low_mask(channel),
        Core::C2 => high_mask(channel),
    }
}

fn status_register(core: Core) -> (r: IpccReg)
    ensures
        r == status_reg(core),
{
    match core {
        Core::C1 => IpccReg::C1ToC2Sr,
        Core::C2 => IpccReg::C2ToC1Sr,
    }
}

/// Whether `regs` shows the channel free: its CHnF flag in the status
/// register of the core is clear.
pub open spec fn is_free(regs: IpccRegisters, core: Core, channel: IpccChannel) -> bool {
    regs.value_of(status_reg(core)) & low_bit(channel) == 0
}

/// Unmasks the channel occupied interrupt: clears CHnOM.
pub open spec fn receive_simplex_writes(
    regs: IpccRegisters,
    core: Core,
    channel: IpccChannel,
) -> Seq<RegOp<IpccReg>> {
    seq![RegOp::Write { reg: mask_reg(core), value: regs.value_of(mask_reg(core)) & !low_bit(channel) }]
}

/// Sets the channel status flag with CHnS, then unmasks the channel free
/// interrupt: clears CHnFM.
pub open spec fn send_half_duplex_writes(
    regs: IpccRegisters,
    core: Core,
    channel: IpccChannel,
) -> Seq<RegOp<IpccReg>> {
    seq![
        RegOp::Write { reg: set_clear_reg(core), value: high_bit(channel) },
        RegOp::Write { reg: mask_reg(core), value: regs.value_of(mask_reg(core)) & !high_bit(channel) },
    ]
}

/// Clears the channel status flag with CHnC, then unmasks both the channel
/// free and the channel occupied interrupts: clears CHnFM and CHnOM.
pub open spec fn send_response_half_duplex_writes(
    regs: IpccRegisters,
    core: Core,
    channel: IpccChannel,
) -> Seq<RegOp<IpccReg>> {
    seq![
        RegOp::Write { reg: set_clear_reg(core), value: low_bit(channel) },
        RegOp::Write {
            reg: mask_reg(core),
            value: regs.value_of(mask_reg(core)) & !(high_bit(channel) | low_bit(channel)),
        },
    ]
}

/// On a free channel, sets the channel status flag to occupied with CHnS; on
/// an occupied channel, unmasks the channel free interrupt (CHnFM = 0).
pub open spec fn send_simplex_writes(
    regs: IpccRegisters,
    core: Core,
    channel: IpccChannel,
) -> Seq<RegOp<IpccReg>> {
    if is_free(regs, core, channel) {
        seq![RegOp::Write { reg: set_clear_reg(core), value: high_bit(channel) }]
    } else {
        seq![
            RegOp::Write {
                reg: mask_reg(core),
                value: regs.value_of(mask_reg(core)) & !high_bit(channel),
            },
        ]
    }
}

/// The value a step writes, or 0 for a step that writes nothing.
pub open spec fn written_value(op: RegOp<IpccReg>) -> u32 {
    match op {
        RegOp::Write { value, .. } => value,
        _ => 0,
    }
}

/// The bit that holds the response pending software variable of a channel
/// on a core: the channel's low bit for core 1, its high bit for core 2.
pub open spec fn pending_bit(core: Core, channel: IpccChannel) -> u32 {
    match core {
        Core::C1 => low_bit(channel),
        Core::C2 => high_bit(channel),
    }
}

proof fn lemma_single_bits_disjoint(i: u32, j: u32)
    requires
        i < 32,
        j < 32,
        i != j,
    ensures
        (1u32 << i) & (1u32 << j) == 0,
        (1u32 << j) & (1u32 << i) == 0,
{
    assert((1u32 << i) & (1u32 << j) == 0 && (1u32 << j) & (1u32 << i) == 0) by (bit_vector)
        requires
            i < 32,
            j < 32,
            i != j,
    ;
}

proof fn lemma_clear_keeps_disjoint(v: u32, m: u32, k: u32)
    requires
        m & k == 0,
    ensures
        (v & !m) & k == v & k,
{
    assert((v & !m) & k == v & k) by (bit_vector)
        requires
            m & k == 0,
    ;
}

proof fn lemma_clear_clears(v: u32, m: u32)
    ensures
        (v & !m) & m == 0,
        (v & !m) & !m == v & !m,
{
    assert((v & !m) & m == 0) by (bit_vector);
    assert((v & !m) & !m == v & !m) by (bit_vector);
}

proof fn lemma_or_disjoint(a: u32, b: u32, k: u32)
    requires
        a & k == 0,
        b & k == 0,
    ensures
        (a | b) & k == 0,
{
    assert((a | b) & k == 0) by (bit_vector)
        requires
            a & k == 0,
            b & k == 0,
    ;
}

/// Every bit of one channel differs from every bit of another, and a
/// channel's low bit differs from its high bit.
pub proof fn law_channel_bits_distinct(a: IpccChannel, b: IpccChannel)
    ensures
        low_bit(a) & high_bit(b) == 0,
        high_bit(b) & low_bit(a) == 0,
        a != b ==> low_bit(a) & low_bit(b) == 0,
        a != b ==> high_bit(a) & high_bit(b) == 0,
{
    lemma_single_bits_disjoint(channel_index(a), (channel_index(b) + 16) as u32);
    if a != b {
        lemma_single_bits_disjoint(channel_index(a), channel_index(b));
        lemma_single_bits_disjoint((channel_index(a) + 16) as u32, (channel_index(b) + 16) as u32);
    }
}

/// After each of the operations that unmask interrupts, the interrupts they
/// unmask are unmasked: `receive_simplex` clears CHnOM, a posting
/// `send_half_duplex` clears CHnFM, a posting `send_response_half_duplex`
/// clears both, and `send_simplex` on an occupied channel clears CHnFM.
pub proof fn law_unmasked(regs: IpccRegisters, core: Core, channel: IpccChannel)
    ensures
        after(regs, receive_simplex_writes(regs, core, channel)).value_of(mask_reg(core))
            & low_bit(channel) == 0,
        after(regs, send_half_duplex_writes(regs, core, channel)).value_of(mask_reg(core))
            & high_bit(channel) == 0,
        after(regs, send_response_half_duplex_writes(regs, core, channel)).value_of(
            mask_reg(core),
        ) & high_bit(channel) == 0,
        after(regs, send_response_half_duplex_writes(regs, core, channel)).value_of(
            mask_reg(core),
        ) & low_bit(channel) == 0,
        !is_free(regs, core, channel) ==> after(
            regs,
            send_simplex_writes(regs, core, channel),
        ).value_of(mask_reg(core)) & high_bit(channel) == 0,
{
    lemma_after_single(regs, send_simplex_writes(regs, core, channel)[0]);
    let mr = mask_reg(core);
    let scr = set_clear_reg(core);
    let v = regs.value_of(mr);
    let both = high_bit(channel) | low_bit(channel);
    lemma_after_single(regs, receive_simplex_writes(regs, core, channel)[0]);
    lemma_clear_clears(v, low_bit(channel));
    let w1 = RegOp::Write { reg: scr, value: high_bit(channel) };
    let w2 = RegOp::Write { reg: mr, value: v & !high_bit(channel) };
    crate::regs::lemma_after_concat(regs, seq![w1], seq![w2]);
    lemma_after_single(regs, w1);
    lemma_after_single(after(regs, seq![w1]), w2);
    assert(seq![w1] + seq![w2] =~= send_half_duplex_writes(regs, core, channel));
    lemma_clear_clears(v, high_bit(channel));
    let u1 = RegOp::Write { reg: scr, value: low_bit(channel) };
    let u2 = RegOp::Write { reg: mr, value: v & !both };
    crate::regs::lemma_after_concat(regs, seq![u1], seq![u2]);
    lemma_after_single(regs, u1);
    lemma_after_single(after(regs, seq![u1]), u2);
    assert(seq![u1] + seq![u2] =~= send_response_half_duplex_writes(regs, core, channel));
    let h = high_bit(channel);
    let l = low_bit(channel);
    assert(((v & !(h | l)) & h == 0) && ((v & !(h | l)) & l == 0)) by (bit_vector);
}

/// An operation on one channel leaves the bits of every other channel as they
/// were in the mask register it rewrites, and the value it puts in the status
/// set/clear register requests nothing for any other channel.
pub proof fn law_other_channels_untouched(
    regs: IpccRegisters,
    core: Core,
    channel: IpccChannel,
    other: IpccChannel,
)
    requires
        channel != other,
    ensures
        ({
            let k = low_bit(other) | high_bit(other);
            let mr = mask_reg(core);
            &&& after(regs, receive_simplex_writes(regs, core, channel)).value_of(mr) & k
                == regs.value_of(mr) & k
            &&& written_value(send_half_duplex_writes(regs, core, channel)[1]) & k
                == regs.value_of(mr) & k
            &&& written_value(send_response_half_duplex_writes(regs, core, channel)[1]) & k
                == regs.value_of(mr) & k
            &&& written_value(send_half_duplex_writes(regs, core, channel)[0]) & k == 0
            &&& written_value(send_response_half_duplex_writes(regs, core, channel)[0]) & k == 0
            &&& written_value(send_simplex_writes(regs, core, channel)[0]) & k == (if is_free(
                regs,
                core,
                channel,
            ) {
                0
            } else {
                regs.value_of(mr) & k
            })
        }),
{
    let k = low_bit(other) | high_bit(other);
    let mr = mask_reg(core);
    let v = regs.value_of(mr);
    law_channel_bits_distinct(channel, other);
    law_channel_bits_distinct(other, channel);
    lemma_or_disjoint(low_bit(other), high_bit(other), low_bit(channel));
    lemma_or_disjoint(low_bit(other), high_bit(other), high_bit(channel));
    let h = high_bit(channel);
    let l = low_bit(channel);
    assert(l & k == 0 && h & k == 0) by (bit_vector)
        requires
            k & l == 0,
            k & h == 0,
    ;
    let both = high_bit(channel) | low_bit(channel);
    lemma_or_disjoint(high_bit(channel), low_bit(channel), k);
    lemma_clear_keeps_disjoint(v, low_bit(channel), k);
    lemma_clear_keeps_disjoint(v, high_bit(channel), k);
    lemma_clear_keeps_disjoint(v, both, k);
    lemma_after_single(regs, receive_simplex_writes(regs, core, channel)[0]);
}

/// Unmasking the channel occupied interrupt a second time changes nothing.
pub proof fn law_receive_simplex_idempotent(regs: IpccRegisters, core: Core, channel: IpccChannel)
    ensures
        ({
            let once = after(regs, receive_simplex_writes(regs, core, channel));
            after(once, receive_simplex_writes(once, core, channel)) == once
        }),
{
    let once = after(regs, receive_simplex_writes(regs, core, channel));
    lemma_after_single(regs, receive_simplex_writes(regs, core, channel)[0]);
    lemma_after_single(once, receive_simplex_writes(once, core, channel)[0]);
    lemma_clear_clears(regs.value_of(mask_reg(core)), low_bit(channel));
}

/// The registers once the reset pulse is over: CxCR at 0, CxMR at 0x003F_003F
/// (every channel's occupied and free interrupts masked), the write-only CxSCR
/// reading 0; the status registers, which the hardware drives, as `regs`
/// shows them.
pub open spec fn after_reset(regs: IpccRegisters) -> IpccRegisters {
    IpccRegisters {
        c1cr: 0,
        c1mr: 0x003F_003F,
        c1scr: 0,
        c2cr: 0,
        c2mr: 0x003F_003F,
        c2scr: 0,
        ..regs
    }
}

fn reset_image(regs: IpccRegisters) -> (r: IpccRegisters)
    ensures
        r == after_reset(regs),
{
    IpccRegisters {
        c1cr: 0,
        c1mr: 0x003F_003F,
        c1scr: 0,
        c2cr: 0,
        c2mr: 0x003F_003F,
        c2scr: 0,
        ..regs
    }
}

/// The bits of each channel: channel n owns bit n - 1 (CHnF, CHnC, CHnOM)
/// and bit n + 15 (CHnS, CHnFM).
pub proof fn law_channel_bit_values()
    ensures
        low_bit(IpccChannel::C1) == 0x01 && high_bit(IpccChannel::C1) == 0x0001_0000,
        low_bit(IpccChannel::C2) == 0x02 && high_bit(IpccChannel::C2) == 0x0002_0000,
        low_bit(IpccChannel::C3) == 0x04 && high_bit(IpccChannel::C3) == 0x0004_0000,
        low_bit(IpccChannel::C4) == 0x08 && high_bit(IpccChannel::C4) == 0x0008_0000,
        low_bit(IpccChannel::C5) == 0x10 && high_bit(IpccChannel::C5) == 0x0010_0000,
        low_bit(IpccChannel::C6) == 0x20 && high_bit(IpccChannel::C6) == 0x0020_0000,
{
    assert(1u32 << 0u32 == 0x01 && 1u32 << 1u32 == 0x02 && 1u32 << 2u32 == 0x04 && 1u32 << 3u32
        == 0x08 && 1u32 << 4u32 == 0x10 && 1u32 << 5u32 == 0x20 && 1u32 << 16u32 == 0x0001_0000
        && 1u32 << 17u32 == 0x0002_0000 && 1u32 << 18u32 == 0x0004_0000 && 1u32 << 19u32
        == 0x0008_0000 && 1u32 << 20u32 == 0x0010_0000 && 1u32 << 21u32 == 0x0020_0000)
        by (bit_vector);
}

/// The registers on a core's side of the controller: its control, mask and
/// status set/clear registers, and the status register of the channels it
/// transmits on.
pub open spec fn on_side_of(core: Core, reg: IpccReg) -> bool {
    match core {
        Core::C1 => reg == IpccReg::C1Cr || reg == IpccReg::C1Mr || reg == IpccReg::C1Scr || reg
            == IpccReg::C1ToC2Sr,
        Core::C2 => reg == IpccReg::C2Cr || reg == IpccReg::C2Mr || reg == IpccReg::C2Scr || reg
            == IpccReg::C2ToC1Sr,
    }
}

/// Whether every step of `ws` is a write to a register on `core`'s side.
pub open spec fn writes_on_side_of(core: Core, ws: Seq<RegOp<IpccReg>>) -> bool {
    forall|i: int|
        0 <= i < ws.len() ==> (#[trigger] ws[i] matches RegOp::Write { reg, .. } && on_side_of(
            core,
            reg,
        ))
}

/// A core acts on its own side of the controller only: every write of every
/// IPCC operation made for `core` goes to that core's registers, never to the
/// other core's. A posted response clears the channel's flag through the
/// core's own status set/clear register (CHnC, bit n - 1), and a posted send
/// sets it through the same register (CHnS, bit n + 15).
pub proof fn law_core_writes_own_registers(regs: IpccRegisters, core: Core, channel: IpccChannel)
    ensures
        writes_on_side_of(core, receive_simplex_writes(regs, core, channel)),
        writes_on_side_of(core, send_simplex_writes(regs, core, channel)),
        writes_on_side_of(core, send_half_duplex_writes(regs, core, channel)),
        writes_on_side_of(core, send_response_half_duplex_writes(regs, core, channel)),
        send_response_half_duplex_writes(regs, core, channel)[0] matches RegOp::Write {
            reg,
            value,
        } && on_side_of(core, reg) && (reg == IpccReg::C1Scr || reg == IpccReg::C2Scr) && value
            == low_bit(channel),
        send_half_duplex_writes(regs, core, channel)[0] matches RegOp::Write { reg, value }
            && on_side_of(core, reg) && (reg == IpccReg::C1Scr || reg == IpccReg::C2Scr) && value
            == high_bit(channel),
        !on_side_of(core, set_clear_reg(other_core(core))),
        !on_side_of(core, mask_reg(other_core(core))),
{
}

/// The core on the other side of the controller.
pub open spec fn other_core(core: Core) -> Core {
    match core {
        Core::C1 => Core::C2,
        Core::C2 => Core::C1,
    }
}

/// The IPCC registers sit from 0x5800_0C00 on, each at its own offset, and
/// the IPCC is clocked and reset by bit 20 of AHB3ENR and AHB3RSTR.
pub proof fn law_register_map(a: IpccReg, b: IpccReg, rcc: crate::rcc::RccRegisters)
    ensures
        IPCC_BASE == 0x5800_0C00,
        register_offset(IpccReg::C1Cr) == 0x00 && register_offset(IpccReg::C1Mr) == 0x04
            && register_offset(IpccReg::C1Scr) == 0x08 && register_offset(IpccReg::C1ToC2Sr)
            == 0x0C && register_offset(IpccReg::C2Cr) == 0x10 && register_offset(IpccReg::C2Mr)
            == 0x14 && register_offset(IpccReg::C2Scr) == 0x18 && register_offset(
            IpccReg::C2ToC1Sr,
        ) == 0x1C,
        a != b ==> register_offset(a) != register_offset(b),
        enable_reset_writes(rcc, RccReg::Ahb3Enr, RccReg::Ahb3Rstr, IPCC_BIT)[0] == (RegOp::Write {
            reg: RccReg::Ahb3Enr,
            value: rcc.ahb3enr | 0x0010_0000,
        }),
{
}

/// Each core keeps its own response pending variable for each channel.
pub proof fn law_pending_bits_distinct(c1: Core, a: IpccChannel, c2: Core, b: IpccChannel)
    ensures
        (c1, a) != (c2, b) ==> pending_bit(c1, a) & pending_bit(c2, b) == 0,
        pending_bit(c1, a) != 0,
{
    law_channel_bits_distinct(a, b);
    law_channel_bits_distinct(b, a);
    law_channel_bit_values();
    assert(pending_bit(c1, a) != 0);
}

/// Represents the inter-processor communication controller.
pub struct Ipcc {
    regs: Bus<IpccRegisters>,
    pending: u32,
}

impl Ipcc {
    /// The registers and the writes issued to them.
    pub closed spec fn bus(&self) -> Bus<IpccRegisters> {
        self.regs
    }

    /// The response pending software variables, one bit each (see [`pending_bit`]).
    pub closed spec fn pending_bits(&self) -> u32 {
        self.pending
    }

    /// Whether a response is pending on the channel for the core.
    pub open spec fn is_pending(&self, core: Core, channel: IpccChannel) -> bool {
        self.pending_bits() & pending_bit(core, channel) != 0
    }

    /// Enables the IPCC clock and pulses its reset, then drives the
    /// controller. The reset pulse leaves the control registers at their reset
    /// values (see [`after_reset`]); `regs` gives what the status registers show.
    pub fn new(regs: IpccRegisters, rcc: &mut Rcc) -> (ipcc: Self)
        ensures
            final(rcc).wrote(
                *old(rcc),
                enable_reset_writes(old(rcc).image(), RccReg::Ahb3Enr, RccReg::Ahb3Rstr, IPCC_BIT),
            ),
            ipcc.bus().image() == after_reset(regs),
            ipcc.bus().log() == Seq::<RegOp<IpccReg>>::empty(),
            ipcc.pending_bits() == 0,
    {
        enable_reset(rcc, RccReg::Ahb3Enr, RccReg::Ahb3Rstr, IPCC_BIT);
        Ipcc { regs: Bus::new(reset_image(regs)), pending: 0 }
    }

    /// Send a message using simplex mode. Non-blocking.
    /// When the channel is free (CHnF = 0), the new communication data can be
    /// written and the channel status flag is set to occupied with CHnS. When it
    /// is occupied (CHnF = 1), the channel free interrupt is unmasked (CHnFM = 0),
    /// so that the sending processor hears when the channel becomes free.
    pub fn send_simplex(&mut self, core: Core, channel: IpccChannel, data: &[u8])
        ensures
            final(self).bus().wrote(
                old(self).bus(),
                send_simplex_writes(old(self).bus().image(), core, channel),
            ),
            final(self).pending_bits() == old(self).pending_bits(),
    {
        if self.channel_is_free(core, channel) {
            let scr = set_clear_register(core);
            self.regs.write(scr, high_mask(channel));
        } else {
            let mr = mask_register(core);
            self.regs.clear_bits(mr, high_mask(channel));
        }
    }

    /// Receive a message using simplex mode. Non-blocking.
    /// Unmasks the channel occupied interrupt (CHnOM = 0).
    pub fn receive_simplex(&mut self, core: Core, channel: IpccChannel)
        ensures
            final(self).bus().wrote(
                old(self).bus(),
                receive_simplex_writes(old(self).bus().image(), core, channel),
            ),
            final(self).pending_bits() == old(self).pending_bits(),
    {
        let mr = mask_register(core);
        self.regs.clear_bits(mr, low_mask(channel));
    }

    /// The Half-duplex channel mode is used when one processor sends a communication and the
    /// other processor sends a response to each communication (ping-pong).
    ///
    /// One step of the blocking send: while the channel is occupied it issues
    /// nothing and returns `false`; once it is free, it sets the channel status
    /// flag with CHnS, unmasks the channel free interrupt (CHnFM = 0) and
    /// returns `true`.
    pub fn send_half_duplex(&mut self, core: Core, channel: IpccChannel, data: &[u8]) -> (posted:
        bool)
        ensures
            posted == is_free(old(self).bus().image(), core, channel),
            posted ==> final(self).bus().wrote(
                old(self).bus(),
                send_half_duplex_writes(old(self).bus().image(), core, channel),
            ),
            !posted ==> final(self).bus().same(old(self).bus()),
            final(self).pending_bits() == old(self).pending_bits(),
    {
        if !self.channel_is_free(core, channel) {
            return false;
        }
        let ghost b0 = self.regs;
        let scr = set_clear_register(core);
        self.regs.write(scr, high_mask(channel));
        let ghost b1 = self.regs;
        let mr = mask_register(core);
        self.regs.clear_bits(mr, high_mask(channel));
        proof {
            lemma_after_single(b0.image(), RegOp::Write { reg: scr, value: high_bit(channel) });
            self.regs.lemma_wrote_trans(
                b1,
                b0,
                seq![RegOp::Write { reg: scr, value: high_bit(channel) }],
                seq![RegOp::Write { reg: mr, value: b1.image().value_of(mr) & !high_bit(channel) }],
            );
            assert(seq![RegOp::Write { reg: scr, value: high_bit(channel) }] + seq![
                RegOp::Write { reg: mr, value: b1.image().value_of(mr) & !high_bit(channel) },
            ] =~= send_half_duplex_writes(b0.image(), core, channel));
        }
        true
    }

    /// Send a half-duplex response.
    ///
    /// One step of the blocking response: while the channel is free it issues
    /// nothing and returns `false`; once it is occupied, it clears the channel
    /// status flag with CHnC, unmasks the channel free and channel occupied
    /// interrupts (CHnFM = 0, CHnOM = 0) and returns `true`.
    pub fn send_response_half_duplex(
        &mut self,
        core: Core,
        channel: IpccChannel,
        data: &[u8],
    ) -> (posted: bool)
        ensures
            posted == !is_free(old(self).bus().image(), core, channel),
            posted ==> final(self).bus().wrote(
                old(self).bus(),
                send_response_half_duplex_writes(old(self).bus().image(), core, channel),
            ),
            posted ==> final(self).pending_bits() == old(self).pending_bits() & !pending_bit(
                core,
                channel,
            ),
            !posted ==> final(self).bus().same(old(self).bus()),
            !posted ==> final(self).pending_bits() == old(self).pending_bits(),
    {
        if self.channel_is_free(core, channel) {
            return false;
        }
        let ghost b0 = self.regs;
        let scr = set_clear_register(core);
        self.regs.write(scr, low_mask(channel));
        let ghost b1 = self.regs;
        let mr = mask_register(core);
        self.regs.clear_bits(mr, high_mask(channel) | low_mask(channel));
        self.pending = self.pending & !pending_mask(core, channel);
        proof {
            let both = high_bit(channel) | low_bit(channel);
            lemma_after_single(b0.image(), RegOp::Write { reg: scr, value: low_bit(channel) });
            self.regs.lemma_wrote_trans(
                b1,
                b0,
                seq![RegOp::Write { reg: scr, value: low_bit(channel) }],
                seq![RegOp::Write { reg: mr, value: b1.image().value_of(mr) & !both }],
            );
            assert(seq![RegOp::Write { reg: scr, value: low_bit(channel) }] + seq![
                RegOp::Write { reg: mr, value: b1.image().value_of(mr) & !both },
            ] =~= send_response_half_duplex_writes(b0.image(), core, channel));
        }
        true
    }

    /// Receive in half duplex mode.
    /// Once the complete communication data is retrieved, the response pending
    /// software variable is set. The channel status is not changed: access to
    /// the memory is kept to post the subsequent response. No register is written.
    pub fn receive_half_duplex(&mut self, core: Core, channel: IpccChannel)
        ensures
            final(self).bus().same(old(self).bus()),
            final(self).pending_bits() == old(self).pending_bits() | pending_bit(core, channel),
    {
        self.pending = self.pending | pending_mask(core, channel);
    }

    /// Whether a response is pending on the channel for the core: set by
    /// [`Ipcc::receive_half_duplex`], cleared once the response is posted.
    pub fn response_pending(&self, core: Core, channel: IpccChannel) -> (pending: bool)
        ensures
            pending == self.is_pending(core, channel),
    {
        self.pending & pending_mask(core, channel) != 0
    }

    /// Check wheather a channel is free; ie isn't currently handling
    /// communication: its CHnF flag is clear.
    pub fn channel_is_free(&mut self, core: Core, channel: IpccChannel) -> (free: bool)
        ensures
            free == is_free(old(self).bus().image(), core, channel),
            final(self).bus().same(old(self).bus()),
            final(self).pending_bits() == old(self).pending_bits(),
    {
        let sr = status_register(core);
        self.regs.read(sr) & low_mask(channel) == 0
    }

    /// Records that the hardware shows `value` in `reg`, as read back from it.
    pub fn observe(&mut self, reg: IpccReg, value: u32)
        ensures
            final(self).bus().image() == old(self).bus().image().with_value(reg, value),
            final(self).bus().log() == old(self).bus().log(),
            final(self).pending_bits() == old(self).pending_bits(),
    {
        self.regs.observe(reg, value);
    }

    /// Hands out the register writes issued so far, oldest first, and forgets them.
    pub fn take_writes(&mut self) -> (ws: Vec<RegOp<IpccReg>>)
        ensures
            ws@ == old(self).bus().log(),
            final(self).bus().image() == old(self).bus().image(),
            final(self).bus().log() == Seq::<RegOp<IpccReg>>::empty(),
            final(self).pending_bits() == old(self).pending_bits(),
    {
        self.regs.take_writes()
    }

    /// The current register values.
    pub fn registers(&self) -> (regs: IpccRegisters)
        ensures
            regs == self.bus().image(),
    {
        self.regs.registers()
    }
}

} // verus!
