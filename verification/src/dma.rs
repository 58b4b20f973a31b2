//! The direct memory access (DMA) channel requests that the USART driver makes.

use vstd::prelude::*;

verus! {

/// A DMA channel.
#[derive(Clone, Copy, Debug, PartialEq, Eq, Structural)]
pub enum DmaChannel {
    C1,
    C2,
    C3,
    C4,
    C5,
    C6,
    C7,
}

/// The priority of a channel's transfers.
#[derive(Clone, Copy, Debug, PartialEq, Eq, Structural)]
pub enum Priority {
    Low,
    Medium,
    High,
    VeryHigh,
}

/// Which side a transfer reads from.
#[derive(Clone, Copy, Debug, PartialEq, Eq, Structural)]
pub enum Direction {
    ReadFromPeriph,
    ReadFromMem,
}

/// Whether a transfer restarts once it completes.
#[derive(Clone, Copy, Debug, PartialEq, Eq, Structural)]
pub enum Circular {
    Disabled,
    Enabled,
}

/// Whether an address advances after each item.
#[derive(Clone, Copy, Debug, PartialEq, Eq, Structural)]
pub enum IncrMode {
    Disabled,
    Enabled,
}

/// The size of each item moved.
#[derive(Clone, Copy, Debug, PartialEq, Eq, Structural)]
pub enum DataSize {
    S8,
    S16,
    S32,
}

/// The configuration of one channel for one transfer.
#[derive(Clone, Copy, Debug, PartialEq, Eq, Structural)]
pub struct ChannelCfg {
    pub channel: DmaChannel,
    pub periph_addr: u32,
    pub mem_addr: u32,
    pub num_data: u16,
    pub priority: Priority,
    pub direction: Direction,
    pub circular: Circular,
    pub periph_incr: IncrMode,
    pub mem_incr: IncrMode,
    pub periph_size: DataSize,
    pub mem_size: DataSize,
}

/// Where the DMA1 register block starts.
pub const DMA1_BASE: u32 = 0x4002_0000;

/// CCR.EN: channel enable.
pub const CCR_EN: u32 = 0x0000_0001;

/// The offset of a channel's configuration register (CCRx) from the start of
/// the DMA register block; CNDTRx, CPARx and CMARx follow it at 4, 8 and 12.
pub open spec fn ccr_offset(channel: DmaChannel) -> u32 {
    match channel {
        DmaChannel::C1 => 0x08,
        DmaChannel::C2 => 0x1C,
        DmaChannel::C3 => 0x30,
        DmaChannel::C4 => 0x44,
        DmaChannel::C5 => 0x58,
        DmaChannel::C6 => 0x6C,
        DmaChannel::C7 => 0x80,
    }
}

/// The addresses of a channel's CCR, CNDTR, CPAR and CMAR.
pub fn channel_register_addresses(channel: DmaChannel) -> (addrs: (u32, u32, u32, u32))
    ensures
        addrs.0 == DMA1_BASE + ccr_offset(channel),
        addrs.1 == addrs.0 + 4,
        addrs.2 == addrs.0 + 8,
        addrs.3 == addrs.0 + 12,
{
    let offset: u32 = match channel {
        DmaChannel::C1 => 0x08,
        DmaChannel::C2 => 0x1C,
        DmaChannel::C3 => 0x30,
        DmaChannel::C4 => 0x44,
        DmaChannel::C5 => 0x58,
        DmaChannel::C6 => 0x6C,
        DmaChannel::C7 => 0x80,
    };
    let ccr = DMA1_BASE + offset;
    (ccr, ccr + 4, ccr + 8, ccr + 12)
}

/// The code of a data size in the PSIZE and MSIZE fields.
pub open spec fn size_code(size: DataSize) -> u32 {
    match size {
        DataSize::S8 => 0,
        DataSize::S16 => 1,
        DataSize::S32 => 2,
    }
}

/// The code of a priority in the PL field.
pub open spec fn priority_code(priority: Priority) -> u32 {
    match priority {
        Priority::Low => 0,
        Priority::Medium => 1,
        Priority::High => 2,
        Priority::VeryHigh => 3,
    }
}

/// The value of CCR for a configuration, channel not yet enabled: DIR (bit 4)
/// set when reading from memory, CIRC (bit 5), PINC (bit 6), MINC (bit 7),
/// PSIZE (bits 8-9), MSIZE (bits 10-11) and PL (bits 12-13).
pub open spec fn ccr_value(cfg: ChannelCfg) -> u32 {
    (if cfg.direction == Direction::ReadFromMem { 0x10u32 } else { 0 })
        | (if cfg.circular == Circular::Enabled { 0x20u32 } else { 0 })
        | (if cfg.periph_incr == IncrMode::Enabled { 0x40u32 } else { 0 })
        | (if cfg.mem_incr == IncrMode::Enabled { 0x80u32 } else { 0 })
        | (size_code(cfg.periph_size) << 8)
        | (size_code(cfg.mem_size) << 10)
        | (priority_code(cfg.priority) << 12)
}

/// The value of CCR for a configuration, channel not yet enabled.
pub fn ccr_bits(cfg: &ChannelCfg) -> (v: u32)
    ensures
        v == ccr_value(*cfg),
{
    let dir: u32 = match cfg.direction {
        Direction::ReadFromMem => 0x10,
        Direction::ReadFromPeriph => 0,
    };
    let circ: u32 = match cfg.circular {
        Circular::Enabled => 0x20,
        Circular::Disabled => 0,
    };
    let pinc: u32 = match cfg.periph_incr {
        IncrMode::Enabled => 0x40,
        IncrMode::Disabled => 0,
    };
    let minc: u32 = match cfg.mem_incr {
        IncrMode::Enabled => 0x80,
        IncrMode::Disabled => 0,
    };
    let psize: u32 = match cfg.periph_size {
        DataSize::S8 => 0,
        DataSize::S16 => 1,
        DataSize::S32 => 2,
    };
    let msize: u32 = match cfg.mem_size {
        DataSize::S8 => 0,
        DataSize::S16 => 1,
        DataSize::S32 => 2,
    };
    let pl: u32 = match cfg.priority {
        Priority::Low => 0,
        Priority::Medium => 1,
        Priority::High => 2,
        Priority::VeryHigh => 3,
    };
    dir | circ | pinc | minc | (psize << 8) | (msize << 10) | (pl << 12)
}

/// A DMA controller, as the channel configurations requested of it, oldest first.
pub struct Dma {
    requests: Vec<ChannelCfg>,
}

impl Dma {
    /// The channel configurations requested so far, oldest first.
    pub closed spec fn requests(&self) -> Seq<ChannelCfg> {
        self.requests@
    }

    /// A controller with nothing requested yet.
    pub fn new() -> (dma: Self)
        ensures
            dma.requests() == Seq::<ChannelCfg>::empty(),
    {
        Dma { requests: Vec::new() }
    }

    /// Requests that `channel` be configured for a transfer with these settings.
    /// The channel is not activated: a [`crate::regs::RegOp::StartDma`] step does that.
    pub fn cfg_channel(
        &mut self,
        channel: DmaChannel,
        periph_addr: u32,
        mem_addr: u32,
        num_data: u16,
        priority: Priority,
        direction: Direction,
        circular: Circular,
        periph_incr: IncrMode,
        mem_incr: IncrMode,
        periph_size: DataSize,
        mem_size: DataSize,
    )
        ensures
            final(self).requests() == old(self).requests().push(
                (ChannelCfg {
                    channel: channel,
                    periph_addr: periph_addr,
                    mem_addr: mem_addr,
                    num_data: num_data,
                    priority: priority,
                    direction: direction,
                    circular: circular,
                    periph_incr: periph_incr,
                    mem_incr: mem_incr,
                    periph_size: periph_size,
                    mem_size: mem_size,
                }),
            ),
    {
        self.requests.push(
            ChannelCfg {
                channel,
                periph_addr,
                mem_addr,
                num_data,
                priority,
                direction,
                circular,
                periph_incr,
                mem_incr,
                periph_size,
                mem_size,
            },
        );
    }

    /// Hands out the configurations requested so far, oldest first, and forgets them.
    pub fn take_requests(&mut self) -> (reqs: Vec<ChannelCfg>)
        ensures
            reqs@ == old(self).requests(),
            final(self).requests() == Seq::<ChannelCfg>::empty(),
    {
        let mut out: Vec<ChannelCfg> = Vec::new();
        std::mem::swap(&mut out, &mut self.requests);
        out
    }
}

} // verus!
