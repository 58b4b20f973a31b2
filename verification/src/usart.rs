//! This module allows for serial communication using the STM32 USART module.

use vstd::prelude::*;
use crate::dma::{
    ChannelCfg, Circular, DataSize, Direction, Dma, DmaChannel, IncrMode, Priority,
};
use crate::rcc::{
    RccRegisters,
    enable_reset, enable_reset_writes, Rcc, RccReg, USART1_BIT, USART2_BIT, USART3_BIT,
};
use crate::regs::{after, lemma_after_single, with_bits, Bus, RegOp, RegisterFile};

verus! {

/// The number of stop bits. (USART_CR2, STOP)
#[derive(Clone, Copy, Debug, PartialEq, Eq, Structural)]
pub enum StopBits {
    S1,
    S0_5,
    S2,
    S1_5,
}

/// The length of word to transmit and receive. (USART_CR1, M)
#[derive(Clone, Copy, Debug, PartialEq, Eq, Structural)]
pub enum WordLen {
    W8,
    W9,
    W7,
}

/// Specify the Usart device to use. Used internally for setting the appropriate APB.
#[derive(Clone, Copy, Debug, PartialEq, Eq, Structural)]
pub enum UsartDevice {
    One,
    Two,
    Three,
}

/// Set Oversampling16 or Oversampling8 modes.
#[derive(Clone, Copy, Debug, PartialEq, Eq, Structural)]
pub enum OverSampling {
    O16,
    O8,
}

/// The type of USART interrupt to configure. Reference the USART_ISR register.
#[derive(Clone, Copy, Debug, PartialEq, Eq, Structural)]
pub enum UsartInterrupt {
    CharDetect(u8),
    Cts,
    EndOfBlock,
    Idle,
    FramingError,
    LineBreak,
    Overrun,
    ParityError,
    ReadNotEmpty,
    ReceiverTimeout,
    Tcbgt,
    TransmissionComplete,
    TransmitEmpty,
}

/// Serial error
#[non_exhaustive]
#[derive(Clone, Copy, Debug, PartialEq, Eq, Structural)]
pub enum Error {
    /// Framing error
    Framing,
    /// Noise error
    Noise,
    /// RX buffer overrun
    Overrun,
    /// Parity check error
    Parity,
}

/// Word length, stop bits and oversampling of a USART.
#[derive(Clone, Copy, Debug, PartialEq, Eq, Structural)]
pub struct UsartConfig {
    pub word_len: WordLen,
    pub stop_bits: StopBits,
    pub oversampling: OverSampling,
}

impl Default for UsartConfig {
    /// 8-bit words, one stop bit, oversampling by 16.
    fn default() -> (c: Self)
        ensures
            c == (UsartConfig {
                word_len: WordLen::W8,
                stop_bits: StopBits::S1,
                oversampling: OverSampling::O16,
            }),
    {
        Self { word_len: WordLen::W8, stop_bits: StopBits::S1, oversampling: OverSampling::O16 }
    }
}

/// The bus clock frequencies, in Hz.
#[derive(Clone, Copy, Debug, PartialEq, Eq, Structural)]
pub struct ClockCfg {
    pub apb1: u32,
    pub apb2: u32,
}

/// The USART registers.
#[derive(Clone, Copy, Debug, PartialEq, Eq, Structural)]
pub enum UsartReg {
    Cr1,
    Cr2,
    Cr3,
    Brr,
    Rqr,
    Isr,
    Icr,
    Rdr,
    Tdr,
}

/// The values of the USART registers.
#[derive(Clone, Copy, Debug, PartialEq, Eq, Structural)]
pub struct UsartRegisters {
    pub cr1: u32,
    pub cr2: u32,
    pub cr3: u32,
    pub brr: u32,
    pub rqr: u32,
    pub isr: u32,
    pub icr: u32,
    pub rdr: u32,
    pub tdr: u32,
}

impl RegisterFile for UsartRegisters {
    type Reg = UsartReg;

    open spec fn value_of(self, reg: UsartReg) -> u32 {
        match reg {
            UsartReg::Cr1 => self.cr1,
            UsartReg::Cr2 => self.cr2,
            UsartReg::Cr3 => self.cr3,
            UsartReg::Brr => self.brr,
            UsartReg::Rqr => self.rqr,
            UsartReg::Isr => self.isr,
            UsartReg::Icr => self.icr,
            UsartReg::Rdr => self.rdr,
            UsartReg::Tdr => self.tdr,
        }
    }

    open spec fn with_value(self, reg: UsartReg, value: u32) -> UsartRegisters {
        match reg {
            UsartReg::Cr1 => UsartRegisters { cr1: value, ..self },
            UsartReg::Cr2 => UsartRegisters { cr2: value, ..self },
            UsartReg::Cr3 => UsartRegisters { cr3: value, ..self },
            UsartReg::Brr => UsartRegisters { brr: value, ..self },
            UsartReg::Rqr => UsartRegisters { rqr: value, ..self },
            UsartReg::Isr => UsartRegisters { isr: value, ..self },
            UsartReg::Icr => UsartRegisters { icr: value, ..self },
            UsartReg::Rdr => UsartRegisters { rdr: value, ..self },
            UsartReg::Tdr => UsartRegisters { tdr: value, ..self },
        }
    }

    fn read(&self, reg: UsartReg) -> (v: u32) {
        match reg {
            UsartReg::Cr1 => self.cr1,
            UsartReg::Cr2 => self.cr2,
            UsartReg::Cr3 => self.cr3,
            UsartReg::Brr => self.brr,
            UsartReg::Rqr => self.rqr,
            UsartReg::Isr => self.isr,
            UsartReg::Icr => self.icr,
            UsartReg::Rdr => self.rdr,
            UsartReg::Tdr => self.tdr,
        }
    }

    fn store(&mut self, reg: UsartReg, value: u32) {
        match reg {
            UsartReg::Cr1 => self.cr1 = value,
            UsartReg::Cr2 => self.cr2 = value,
            UsartReg::Cr3 => self.cr3 = value,
            UsartReg::Brr => self.brr = value,
            UsartReg::Rqr => self.rqr = value,
            UsartReg::Isr => self.isr = value,
            UsartReg::Icr => self.icr = value,
            UsartReg::Rdr => self.rdr = value,
            UsartReg::Tdr => self.tdr = value,
        }
    }
}

/// CR1.UE: USART enable.
pub const CR1_UE: u32 = 0x0000_0001;
/// CR1.RE: receiver enable.
pub const CR1_RE: u32 = 0x0000_0004;
/// CR1.TE: transmitter enable.
pub const CR1_TE: u32 = 0x0000_0008;
/// CR1.IDLEIE: idle interrupt enable.
pub const CR1_IDLEIE: u32 = 0x0000_0010;
/// CR1.RXNEIE: receive register not empty interrupt enable.
pub const CR1_RXNEIE: u32 = 0x0000_0020;
/// CR1.TCIE: transmission complete interrupt enable.
pub const CR1_TCIE: u32 = 0x0000_0040;
/// CR1.TXEIE: transmit register empty interrupt enable.
pub const CR1_TXEIE: u32 = 0x0000_0080;
/// CR1.PEIE: parity error interrupt enable.
pub const CR1_PEIE: u32 = 0x0000_0100;
/// CR1.M0: word length, low bit.
pub const CR1_M0: u32 = 0x0000_1000;
/// CR1.CMIE: character match interrupt enable.
pub const CR1_CMIE: u32 = 0x0000_4000;
/// CR1.OVER8: oversampling by 8.
pub const CR1_OVER8: u32 = 0x0000_8000;
/// CR1.RTOIE: receiver timeout interrupt enable.
pub const CR1_RTOIE: u32 = 0x0400_0000;
/// CR1.EOBIE: end of block interrupt enable.
pub const CR1_EOBIE: u32 = 0x0800_0000;
/// CR1.M1: word length, high bit.
pub const CR1_M1: u32 = 0x1000_0000;

/// CR2.ADDM7: 7-bit (rather than 4-bit) address detection.
pub const CR2_ADDM7: u32 = 0x0000_0010;
/// CR2.LBDIE: LIN break detection interrupt enable.
pub const CR2_LBDIE: u32 = 0x0000_0040;
/// CR2.STOP: the stop bits field.
pub const CR2_STOP: u32 = 0x0000_3000;
/// CR2.ADD[3:0]: low half of the address to match.
pub const CR2_ADD_LOW: u32 = 0x0F00_0000;
/// CR2.ADD[7:4]: high half of the address to match.
pub const CR2_ADD_HIGH: u32 = 0xF000_0000;

/// CR3.EIE: error interrupt enable.
pub const CR3_EIE: u32 = 0x0000_0001;
/// CR3.DMAR: DMA enable receiver.
pub const CR3_DMAR: u32 = 0x0000_0040;
/// CR3.DMAT: DMA enable transmitter.
pub const CR3_DMAT: u32 = 0x0000_0080;
/// CR3.CTSIE: CTS interrupt enable.
pub const CR3_CTSIE: u32 = 0x0000_0400;
/// CR3.TCBGTIE: transmission complete before guard time interrupt enable.
pub const CR3_TCBGTIE: u32 = 0x0100_0000;

/// RQR.RXFRQ: receive data flush request.
pub const RQR_RXFRQ: u32 = 0x0000_0008;
/// RQR.TXFRQ: transmit data flush request.
pub const RQR_TXFRQ: u32 = 0x0000_0010;

/// ISR.RXNE: read data register not empty.
pub const ISR_RXNE: u32 = 0x0000_0020;
/// ISR.TC: transmission complete.
pub const ISR_TC: u32 = 0x0000_0040;
/// ISR.TXE: transmit data register empty.
pub const ISR_TXE: u32 = 0x0000_0080;

/// ICR.PECF: parity error clear flag.
pub const ICR_PECF: u32 = 0x0000_0001;
/// ICR.FECF: framing error clear flag.
pub const ICR_FECF: u32 = 0x0000_0002;
/// ICR.ORECF: overrun error clear flag.
pub const ICR_ORECF: u32 = 0x0000_0008;
/// ICR.IDLECF: idle line detected clear flag.
pub const ICR_IDLECF: u32 = 0x0000_0010;
/// ICR.TCCF: transmission complete clear flag.
pub const ICR_TCCF: u32 = 0x0000_0040;
/// ICR.TCBGTCF: transmission complete before guard time clear flag.
pub const ICR_TCBGTCF: u32 = 0x0000_0080;
/// ICR.LBDCF: LIN break detection clear flag.
pub const ICR_LBDCF: u32 = 0x0000_0100;
/// ICR.CTSCF: CTS clear flag.
pub const ICR_CTSCF: u32 = 0x0000_0200;
/// ICR.RTOCF: receiver timeout clear flag.
pub const ICR_RTOCF: u32 = 0x0000_0800;
/// ICR.EOBCF: end of block clear flag.
pub const ICR_EOBCF: u32 = 0x0000_1000;
/// ICR.CMCF: character match clear flag.
pub const ICR_CMCF: u32 = 0x0002_0000;

/// The data field of TDR and RDR.
pub const DATA_FIELD: u32 = 0x0000_01FF;

/// The M1 and M0 bits that select a word length, as (M1, M0).
pub open spec fn word_len_bits(word_len: WordLen) -> (u8, u8) {
    match word_len {
        WordLen::W8 => (0, 0),
        WordLen::W9 => (0, 1),
        WordLen::W7 => (1, 0),
    }
}

impl WordLen {
    /// We use this function due to the M field being split into 2 separate bits.
    /// Returns M1 val, M0 val
    pub fn bits(&self) -> (b: (u8, u8))
        ensures
            b == word_len_bits(*self),
    {
        match self {
            Self::W8 => (0, 0),
            Self::W9 => (0, 1),
            Self::W7 => (1, 0),
        }
    }
}

/// The value of the STOP field that selects a number of stop bits.
pub open spec fn stop_bits_code(stop_bits: StopBits) -> u8 {
    match stop_bits {
        StopBits::S1 => 0b00,
        StopBits::S0_5 => 0b01,
        StopBits::S2 => 0b10,
        StopBits::S1_5 => 0b11,
    }
}

fn stop_code(stop_bits: StopBits) -> (c: u8)
    ensures
        c == stop_bits_code(stop_bits),
{
    match stop_bits {
        StopBits::S1 => 0b00,
        StopBits::S0_5 => 0b01,
        StopBits::S2 => 0b10,
        StopBits::S1_5 => 0b11,
    }
}

/// The clock of the bus a USART sits on: APB2 for USART1, APB1 for the others.
pub open spec fn bus_clock(device: UsartDevice, clock_cfg: ClockCfg) -> u32 {
    match device {
        UsartDevice::One => clock_cfg.apb2,
        _ => clock_cfg.apb1,
    }
}

/// USARTDIV: the bus clock over the baud rate, doubled when oversampling by 8.
pub open spec fn usart_div(fclk: u32, baud: u32, oversampling: OverSampling) -> int {
    match oversampling {
        OverSampling::O16 => fclk as int / baud as int,
        OverSampling::O8 => (2 * fclk) / baud as int,
    }
}

/// The baud rate can be set: it is not zero, and doubling the bus clock for
/// oversampling by 8 fits in 32 bits.
pub open spec fn baud_settable(
    device: UsartDevice,
    oversampling: OverSampling,
    clock_cfg: ClockCfg,
    baud: u32,
) -> bool {
    &&& baud != 0
    &&& oversampling == OverSampling::O8 ==> 2 * bus_clock(device, clock_cfg) <= u32::MAX
}

/// The BRR value for a divider USARTDIV. When OVER8 = 0, BRR = USARTDIV. When
/// OVER8 = 1, BRR[2:0] = USARTDIV[3:0] shifted 1 bit to the right, BRR[3] is
/// kept cleared and BRR[15:4] = USARTDIV[15:4].
pub open spec fn brr_value(div: u32, oversampling: OverSampling) -> u32 {
    match oversampling {
        OverSampling::O16 => div,
        OverSampling::O8 => (div & 0xFFF0) | ((div & 0x000F) >> 1),
    }
}

fn brr_of(div: u32, oversampling: OverSampling) -> (brr: u32)
    ensures
        brr == brr_value(div, oversampling),
{
    match oversampling {
        OverSampling::O16 => div,
        OverSampling::O8 => (div & 0xFFF0) | ((div & 0x000F) >> 1),
    }
}

/// The steps that set BRR to `brr`: a USART that was enabled is disabled, and
/// seen disabled, before BRR is written, and enabled again after.
pub open spec fn set_baud_writes(regs: UsartRegisters, brr: u32) -> Seq<RegOp<UsartReg>> {
    let c = regs.cr1;
    if c & CR1_UE != 0 {
        seq![
            RegOp::Write { reg: UsartReg::Cr1, value: c & !CR1_UE },
            RegOp::AwaitClear { reg: UsartReg::Cr1, mask: CR1_UE },
            RegOp::Write { reg: UsartReg::Brr, value: brr },
            RegOp::Write { reg: UsartReg::Cr1, value: (c & !CR1_UE) | CR1_UE },
        ]
    } else {
        seq![RegOp::Write { reg: UsartReg::Brr, value: brr }]
    }
}

/// The steps that bring up a USART whose registers hold `regs`: disable it
/// and wait until it shows disabled, select the oversampling and the word length, set the baud rate, select the
/// stop bits, enable it, then enable the transmitter and the receiver.
pub open spec fn new_writes(
    regs: UsartRegisters,
    device: UsartDevice,
    baud: u32,
    config: UsartConfig,
    clock_cfg: ClockCfg,
) -> Seq<RegOp<UsartReg>> {
    let c1 = regs.cr1 & !CR1_UE;
    let c2 = with_bits(c1, CR1_OVER8, config.oversampling == OverSampling::O8);
    let c3 = with_bits(c2, CR1_M1, word_len_bits(config.word_len).0 != 0);
    let c4 = with_bits(c3, CR1_M0, word_len_bits(config.word_len).1 != 0);
    let r4 = regs.with_value(UsartReg::Cr1, c4);
    let div = usart_div(bus_clock(device, clock_cfg), baud, config.oversampling) as u32;
    let baud_ws = set_baud_writes(r4, brr_value(div, config.oversampling));
    let r5 = after(r4, baud_ws);
    let stop = (r5.cr2 & !CR2_STOP) | (((stop_bits_code(config.stop_bits) as u32) & 0b11) << 12);
    let c5 = r5.cr1 | CR1_UE;
    let c6 = c5 | (CR1_TE | CR1_RE);
    seq![
        RegOp::Write { reg: UsartReg::Cr1, value: c1 },
        RegOp::AwaitClear { reg: UsartReg::Cr1, mask: CR1_UE },
        RegOp::Write { reg: UsartReg::Cr1, value: c2 },
        RegOp::Write { reg: UsartReg::Cr1, value: c3 },
        RegOp::Write { reg: UsartReg::Cr1, value: c4 },
    ] + baud_ws + seq![
        RegOp::Write { reg: UsartReg::Cr2, value: stop },
        RegOp::Write { reg: UsartReg::Cr1, value: c5 },
        RegOp::Write { reg: UsartReg::Cr1, value: c6 },
    ]
}

/// The registers once the reset pulse is over: CR1, CR2, CR3 and BRR at their
/// reset value 0, and the write-only RQR and ICR reading 0; the registers the
/// hardware drives (ISR, RDR, TDR) as `regs` shows them.
pub open spec fn after_reset(regs: UsartRegisters) -> UsartRegisters {
    UsartRegisters { cr1: 0, cr2: 0, cr3: 0, brr: 0, rqr: 0, icr: 0, ..regs }
}

fn reset_image(regs: UsartRegisters) -> (r: UsartRegisters)
    ensures
        r == after_reset(regs),
{
    UsartRegisters { cr1: 0, cr2: 0, cr3: 0, brr: 0, rqr: 0, icr: 0, ..regs }
}

/// The writes to RCC that enable the clock of a USART and pulse its reset.
pub open spec fn usart_rcc_writes(rcc: crate::rcc::RccRegisters, device: UsartDevice) -> Seq<
    RegOp<RccReg>,
> {
    match device {
        UsartDevice::One => enable_reset_writes(rcc, RccReg::Apb2Enr, RccReg::Apb2Rstr, USART1_BIT),
        UsartDevice::Two => enable_reset_writes(
            rcc,
            RccReg::Apb1Enr1,
            RccReg::Apb1Rstr1,
            USART2_BIT,
        ),
        UsartDevice::Three => enable_reset_writes(
            rcc,
            RccReg::Apb1Enr1,
            RccReg::Apb1Rstr1,
            USART3_BIT,
        ),
    }
}

/// The register and the bit that enable an interrupt.
pub open spec fn interrupt_enable_bit(interrupt: UsartInterrupt) -> (UsartReg, u32) {
    match interrupt {
        UsartInterrupt::CharDetect(_) => (UsartReg::Cr1, CR1_CMIE),
        UsartInterrupt::Cts => (UsartReg::Cr3, CR3_CTSIE),
        UsartInterrupt::EndOfBlock => (UsartReg::Cr1, CR1_EOBIE),
        UsartInterrupt::Idle => (UsartReg::Cr1, CR1_IDLEIE),
        UsartInterrupt::FramingError => (UsartReg::Cr3, CR3_EIE),
        UsartInterrupt::LineBreak => (UsartReg::Cr2, CR2_LBDIE),
        UsartInterrupt::Overrun => (UsartReg::Cr3, CR3_EIE),
        UsartInterrupt::ParityError => (UsartReg::Cr1, CR1_PEIE),
        UsartInterrupt::ReadNotEmpty => (UsartReg::Cr1, CR1_RXNEIE),
        UsartInterrupt::ReceiverTimeout => (UsartReg::Cr1, CR1_RTOIE),
        UsartInterrupt::Tcbgt => (UsartReg::Cr3, CR3_TCBGTIE),
        UsartInterrupt::TransmissionComplete => (UsartReg::Cr1, CR1_TCIE),
        UsartInterrupt::TransmitEmpty => (UsartReg::Cr1, CR1_TXEIE),
    }
}

/// The register and the bit that clear an interrupt's pending flag.
pub open spec fn interrupt_clear_bit(interrupt: UsartInterrupt) -> (UsartReg, u32) {
    match interrupt {
        UsartInterrupt::CharDetect(_) => (UsartReg::Icr, ICR_CMCF),
        UsartInterrupt::Cts => (UsartReg::Icr, ICR_CTSCF),
        UsartInterrupt::EndOfBlock => (UsartReg::Icr, ICR_EOBCF),
        UsartInterrupt::Idle => (UsartReg::Icr, ICR_IDLECF),
        UsartInterrupt::FramingError => (UsartReg::Icr, ICR_FECF),
        UsartInterrupt::LineBreak => (UsartReg::Icr, ICR_LBDCF),
        UsartInterrupt::Overrun => (UsartReg::Icr, ICR_ORECF),
        UsartInterrupt::ParityError => (UsartReg::Icr, ICR_PECF),
        UsartInterrupt::ReadNotEmpty => (UsartReg::Rqr, RQR_RXFRQ),
        UsartInterrupt::ReceiverTimeout => (UsartReg::Icr, ICR_RTOCF),
        UsartInterrupt::Tcbgt => (UsartReg::Icr, ICR_TCBGTCF),
        UsartInterrupt::TransmissionComplete => (UsartReg::Icr, ICR_TCCF),
        UsartInterrupt::TransmitEmpty => (UsartReg::Rqr, RQR_TXFRQ),
    }
}

/// CR2 once character detection of `ch` is set up: ADDM7 set (8-bit address),
/// ADD[3:0] holding the low four bits of `ch` and ADD[7:4] its high four bits.
pub open spec fn char_detect_cr2(cr2: u32, ch: u8) -> u32 {
    let v1 = cr2 | CR2_ADDM7;
    let v2 = (v1 & !CR2_ADD_LOW) | (((ch & 0x0F) as u32) << 24);
    (v2 & !CR2_ADD_HIGH) | (((ch >> 4) as u32) << 28)
}

/// The steps that enable an interrupt: disable the USART and wait until it
/// shows disabled, set the enable bit (and, for character detection, the character to detect), then enable
/// the USART again.
pub open spec fn enable_interrupt_writes(
    regs: UsartRegisters,
    interrupt: UsartInterrupt,
) -> Seq<RegOp<UsartReg>> {
    let c1 = regs.cr1 & !CR1_UE;
    let r1 = regs.with_value(UsartReg::Cr1, c1);
    let (reg, bit) = interrupt_enable_bit(interrupt);
    let r2 = r1.with_value(reg, r1.value_of(reg) | bit);
    let detect = match interrupt {
        UsartInterrupt::CharDetect(ch) => seq![
            RegOp::Write { reg: UsartReg::Cr2, value: char_detect_cr2(r2.cr2, ch) },
        ],
        _ => Seq::empty(),
    };
    let r3 = after(r2, detect);
    seq![
        RegOp::Write { reg: UsartReg::Cr1, value: c1 },
        RegOp::AwaitClear { reg: UsartReg::Cr1, mask: CR1_UE },
        RegOp::Write { reg: reg, value: r1.value_of(reg) | bit },
    ] + detect + seq![RegOp::Write { reg: UsartReg::Cr1, value: r3.cr1 | CR1_UE }]
}

/// Where the register block of a USART starts.
pub open spec fn base_address(device: UsartDevice) -> u32 {
    match device {
        UsartDevice::One => 0x4001_3800,
        UsartDevice::Two => 0x4000_4400,
        UsartDevice::Three => 0x4000_4800,
    }
}

/// The offset of a register from the start of a USART register block.
pub open spec fn register_offset(reg: UsartReg) -> u32 {
    match reg {
        UsartReg::Cr1 => 0x00,
        UsartReg::Cr2 => 0x04,
        UsartReg::Cr3 => 0x08,
        UsartReg::Brr => 0x0C,
        UsartReg::Rqr => 0x18,
        UsartReg::Isr => 0x1C,
        UsartReg::Icr => 0x20,
        UsartReg::Rdr => 0x24,
        UsartReg::Tdr => 0x28,
    }
}

/// The address of a register of a USART.
pub fn register_address(device: UsartDevice, reg: UsartReg) -> (addr: u32)
    ensures
        addr == base_address(device) + register_offset(reg),
{
    let base: u32 = match device {
        UsartDevice::One => 0x4001_3800,
        UsartDevice::Two => 0x4000_4400,
        UsartDevice::Three => 0x4000_4800,
    };
    let offset: u32 = match reg {
        UsartReg::Cr1 => 0x00,
        UsartReg::Cr2 => 0x04,
        UsartReg::Cr3 => 0x08,
        UsartReg::Brr => 0x0C,
        UsartReg::Rqr => 0x18,
        UsartReg::Isr => 0x1C,
        UsartReg::Icr => 0x20,
        UsartReg::Rdr => 0x24,
        UsartReg::Tdr => 0x28,
    };
    base + offset
}

/// The DMA transfer count for `len` bytes: the number of bytes, kept to the
/// 16 bits of the count register.
pub open spec fn dma_count(len: nat) -> u16 {
    (len % 0x1_0000) as u16
}

fn dma_count_of(len: usize) -> (n: u16)
    ensures
        n == dma_count(len as nat),
{
    (len % 0x1_0000) as u16
}

/// The DMA channel that serves transmission of a USART.
pub open spec fn tx_channel(device: UsartDevice) -> DmaChannel {
    match device {
        UsartDevice::One => DmaChannel::C4,
        UsartDevice::Two => DmaChannel::C7,
        UsartDevice::Three => DmaChannel::C2,
    }
}

/// The DMA channel that serves reception of a USART.
pub open spec fn rx_channel(device: UsartDevice) -> DmaChannel {
    match device {
        UsartDevice::One => DmaChannel::C5,
        UsartDevice::Two => DmaChannel::C6,
        UsartDevice::Three => DmaChannel::C3,
    }
}

/// The DMA configuration that sends `len` bytes starting at `data_addr` to the
/// transmit data register.
pub open spec fn write_dma_cfg(device: UsartDevice, data_addr: u32, len: nat) -> ChannelCfg {
    ChannelCfg {
        channel: tx_channel(device),
        periph_addr: (base_address(device) + register_offset(UsartReg::Tdr)) as u32,
        mem_addr: data_addr,
        num_data: dma_count(len),
        priority: Priority::Medium,
        direction: Direction::ReadFromMem,
        circular: Circular::Disabled,
        periph_incr: IncrMode::Disabled,
        mem_incr: IncrMode::Enabled,
        periph_size: DataSize::S8,
        mem_size: DataSize::S8,
    }
}

/// The DMA configuration that fills `len` bytes starting at `buf_addr` from
/// the read data register.
pub open spec fn read_dma_cfg(device: UsartDevice, buf_addr: u32, len: nat) -> ChannelCfg {
    ChannelCfg {
        channel: rx_channel(device),
        periph_addr: (base_address(device) + register_offset(UsartReg::Rdr)) as u32,
        mem_addr: buf_addr,
        num_data: dma_count(len),
        priority: Priority::Medium,
        direction: Direction::ReadFromPeriph,
        circular: Circular::Disabled,
        periph_incr: IncrMode::Disabled,
        mem_incr: IncrMode::Enabled,
        periph_size: DataSize::S8,
        mem_size: DataSize::S8,
    }
}

/// The write that puts `word` into the data field of TDR.
pub open spec fn tdr_write(regs: UsartRegisters, word: u8) -> RegOp<UsartReg> {
    RegOp::Write {
        reg: UsartReg::Tdr,
        value: (regs.tdr & !DATA_FIELD) | ((word as u32) & DATA_FIELD),
    }
}

/// The registers once `word` has been written to TDR: TDR holds it, and TXE
/// and TC read clear, as the hardware clears them on a write to TDR.
pub open spec fn tdr_written(regs: UsartRegisters, word: u8) -> UsartRegisters {
    UsartRegisters {
        tdr: (regs.tdr & !DATA_FIELD) | ((word as u32) & DATA_FIELD),
        isr: regs.isr & !(ISR_TXE | ISR_TC),
        ..regs
    }
}

/// The registers once the received word has been taken from RDR: RXNE reads
/// clear, as the hardware clears it on a read of RDR.
pub open spec fn rdr_taken(regs: UsartRegisters) -> UsartRegisters {
    UsartRegisters { isr: regs.isr & !ISR_RXNE, ..regs }
}

/// The data fields of the writes to TDR in `log`, oldest first.
pub open spec fn tdr_words(log: Seq<RegOp<UsartReg>>) -> Seq<u32>
    decreases log.len(),
{
    if log.len() == 0 {
        Seq::empty()
    } else {
        tdr_words(log.drop_last()) + match log.last() {
            RegOp::Write { reg: UsartReg::Tdr, value } => seq![value & DATA_FIELD],
            _ => Seq::<u32>::empty(),
        }
    }
}

/// How one step of a blocking write changes the log: either it writes nothing
/// and `sent` stays, or it writes the word `data[sent]` into TDR's data field
/// and `sent` moves on by one.
pub open spec fn write_step_log(
    log: Seq<RegOp<UsartReg>>,
    log2: Seq<RegOp<UsartReg>>,
    data: Seq<u8>,
    sent: int,
    next: int,
) -> bool {
    ||| next == sent && log2 == log
    ||| 0 <= sent < data.len() && next == sent + 1 && exists|t: u32|
        log2 == log.push(
            RegOp::Write {
                reg: UsartReg::Tdr,
                value: (t & !DATA_FIELD) | ((data[sent] as u32) & DATA_FIELD),
            },
        )
}

proof fn lemma_with_bits(v: u32, m: u32, on: bool, k: u32)
    ensures
        m & k == 0 ==> with_bits(v, m, on) & k == v & k,
        (with_bits(v, m, on) & m == m) == (on || m == 0),
        m != 0 ==> ((with_bits(v, m, on) & m != 0) == on),
{
    if on {
        assert(m & k == 0 ==> (v | m) & k == v & k) by (bit_vector);
        assert((v | m) & m == m) by (bit_vector);
        assert(m != 0 ==> (v | m) & m != 0) by (bit_vector);
    } else {
        assert(m & k == 0 ==> (v & !m) & k == v & k) by (bit_vector);
        assert(((v & !m) & m == m) == (m == 0)) by (bit_vector);
        assert((v & !m) & m == 0) by (bit_vector);
    }
}

/// Setting the baud rate leaves CR1, and so whether the USART is enabled, as it
/// was, and BRR ends holding the value given. BRR is written only while the
/// USART shows disabled: when it was enabled, it is disabled and seen disabled
/// first.
pub proof fn law_set_baud_restores_enable(regs: UsartRegisters, brr: u32)
    ensures
        after(regs, set_baud_writes(regs, brr)).cr1 == regs.cr1,
        after(regs, set_baud_writes(regs, brr)).brr == brr,
        forall|i: int|
            0 <= i < set_baud_writes(regs, brr).len() && (#[trigger] set_baud_writes(
                regs,
                brr,
            )[i] matches RegOp::Write { reg: UsartReg::Brr, .. }) ==> {
                &&& after(regs, set_baud_writes(regs, brr).take(i)).cr1 & CR1_UE == 0
                &&& regs.cr1 & CR1_UE != 0 ==> exists|j: int|
                    0 <= j < i && set_baud_writes(regs, brr)[j] == (RegOp::AwaitClear {
                        reg: UsartReg::Cr1,
                        mask: CR1_UE,
                    })
            },
{
    let c = regs.cr1;
    let ws = set_baud_writes(regs, brr);
    if c & CR1_UE != 0 {
        let w1 = ws[0];
        let w2 = ws[1];
        let w3 = ws[2];
        let w4 = ws[3];
        lemma_after_single(regs, w1);
        let r1 = after(regs, seq![w1]);
        lemma_after_single(r1, w2);
        let r2 = after(r1, seq![w2]);
        lemma_after_single(r2, w3);
        let r3 = after(r2, seq![w3]);
        lemma_after_single(r3, w4);
        crate::regs::lemma_after_concat(regs, seq![w1], seq![w2]);
        crate::regs::lemma_after_concat(regs, seq![w1] + seq![w2], seq![w3]);
        crate::regs::lemma_after_concat(regs, seq![w1] + seq![w2] + seq![w3], seq![w4]);
        assert(seq![w1] + seq![w2] + seq![w3] + seq![w4] =~= ws);
        assert(ws.take(2) =~= seq![w1] + seq![w2]);
        assert(((c & !CR1_UE) | CR1_UE) == c) by (bit_vector)
            requires
                c & CR1_UE != 0,
        ;
        assert((c & !CR1_UE) & CR1_UE == 0) by (bit_vector);
        assert forall|i: int|
            0 <= i < ws.len() && (#[trigger] ws[i] matches RegOp::Write {
                reg: UsartReg::Brr,
                ..
            }) implies {
            &&& after(regs, ws.take(i)).cr1 & CR1_UE == 0
            &&& exists|j: int|
                0 <= j < i && ws[j] == (RegOp::AwaitClear { reg: UsartReg::Cr1, mask: CR1_UE })
        } by {
            assert(i == 2);
            assert(ws[1] == (RegOp::AwaitClear { reg: UsartReg::Cr1, mask: CR1_UE }));
        }
    } else {
        lemma_after_single(regs, ws[0]);
        assert forall|i: int|
            0 <= i < ws.len() && (#[trigger] ws[i] matches RegOp::Write {
                reg: UsartReg::Brr,
                ..
            }) implies after(regs, ws.take(i)).cr1 & CR1_UE == 0 by {
            assert(i == 0);
            assert(ws.take(0) =~= Seq::<RegOp<UsartReg>>::empty());
        }
    }
}

/// Bringing a USART up leaves it enabled with its transmitter and receiver on,
/// oversampling, word length and stop bits as configured, and BRR holding the
/// divider for the baud rate.
pub proof fn law_new_configures(
    regs: UsartRegisters,
    device: UsartDevice,
    baud: u32,
    config: UsartConfig,
    clock_cfg: ClockCfg,
)
    requires
        baud_settable(device, config.oversampling, clock_cfg, baud),
    ensures
        ({
            let r = after(regs, new_writes(regs, device, baud, config, clock_cfg));
            &&& r.cr1 & CR1_UE != 0
            &&& r.cr1 & CR1_TE != 0
            &&& r.cr1 & CR1_RE != 0
            &&& (r.cr1 & CR1_OVER8 != 0) == (config.oversampling == OverSampling::O8)
            &&& (r.cr1 & CR1_M1 != 0) == (word_len_bits(config.word_len).0 != 0)
            &&& (r.cr1 & CR1_M0 != 0) == (word_len_bits(config.word_len).1 != 0)
            &&& (r.cr2 & CR2_STOP) >> 12 == stop_bits_code(config.stop_bits) as u32
            &&& r.brr == brr_value(
                usart_div(bus_clock(device, clock_cfg), baud, config.oversampling) as u32,
                config.oversampling,
            )
            &&& new_writes(regs, device, baud, config, clock_cfg)[0] == (RegOp::Write {
                reg: UsartReg::Cr1,
                value: regs.cr1 & !CR1_UE,
            })
            &&& (regs.cr1 & !CR1_UE) & CR1_UE == 0
            &&& new_writes(regs, device, baud, config, clock_cfg)[1] == (RegOp::AwaitClear {
                reg: UsartReg::Cr1,
                mask: CR1_UE,
            })
        }),
{
    let c0 = regs.cr1;
    let c1 = c0 & !CR1_UE;
    let o8 = config.oversampling == OverSampling::O8;
    let m1 = word_len_bits(config.word_len).0 != 0;
    let m0 = word_len_bits(config.word_len).1 != 0;
    let c2 = with_bits(c1, CR1_OVER8, o8);
    let c3 = with_bits(c2, CR1_M1, m1);
    let c4 = with_bits(c3, CR1_M0, m0);
    let r4 = regs.with_value(UsartReg::Cr1, c4);
    let div = brr_value(
        usart_div(bus_clock(device, clock_cfg), baud, config.oversampling) as u32,
        config.oversampling,
    );
    let baud_ws = set_baud_writes(r4, div);
    let ws = new_writes(regs, device, baud, config, clock_cfg);
    // UE stays clear through the first four writes, so no toggling around BRR.
    assert(c1 & CR1_UE == 0) by (bit_vector)
        requires
            c1 == c0 & !CR1_UE,
    ;
    lemma_with_bits(c1, CR1_OVER8, o8, CR1_UE);
    lemma_with_bits(c2, CR1_M1, m1, CR1_UE);
    lemma_with_bits(c3, CR1_M0, m0, CR1_UE);
    assert(CR1_OVER8 & CR1_UE == 0 && CR1_M1 & CR1_UE == 0 && CR1_M0 & CR1_UE == 0) by (bit_vector);
    assert(c4 & CR1_UE == 0);
    let wb = RegOp::Write { reg: UsartReg::Brr, value: div };
    assert(baud_ws == seq![wb]);
    lemma_after_single(r4, wb);
    let r5 = after(r4, baud_ws);
    assert(r5.cr1 == c4 && r5.cr2 == regs.cr2 && r5.brr == div);
    let stop_code_v = (stop_bits_code(config.stop_bits) as u32) & 0b11;
    let stop_v = (regs.cr2 & !CR2_STOP) | (stop_code_v << 12);
    let c5 = c4 | CR1_UE;
    let c6 = c5 | (CR1_TE | CR1_RE);
    let w1 = RegOp::Write { reg: UsartReg::Cr1, value: c1 };
    let wt = RegOp::AwaitClear { reg: UsartReg::Cr1, mask: CR1_UE };
    let w2 = RegOp::Write { reg: UsartReg::Cr1, value: c2 };
    let w3 = RegOp::Write { reg: UsartReg::Cr1, value: c3 };
    let w4 = RegOp::Write { reg: UsartReg::Cr1, value: c4 };
    let w6 = RegOp::Write { reg: UsartReg::Cr2, value: stop_v };
    let w7 = RegOp::Write { reg: UsartReg::Cr1, value: c5 };
    let w8 = RegOp::Write { reg: UsartReg::Cr1, value: c6 };
    let head = seq![w1, wt, w2, w3, w4];
    let tail = seq![w6, w7, w8];
    assert(ws =~= head + baud_ws + tail);
    // The first steps all go to CR1.
    let a1 = after(regs, seq![w1]);
    let a2 = after(a1, seq![wt]);
    let a3 = after(a2, seq![w2]);
    let a4 = after(a3, seq![w3]);
    lemma_after_single(regs, w1);
    lemma_after_single(a1, wt);
    lemma_after_single(a2, w2);
    lemma_after_single(a3, w3);
    lemma_after_single(a4, w4);
    crate::regs::lemma_after_concat(regs, seq![w1], seq![wt]);
    crate::regs::lemma_after_concat(regs, seq![w1] + seq![wt], seq![w2]);
    crate::regs::lemma_after_concat(regs, seq![w1] + seq![wt] + seq![w2], seq![w3]);
    crate::regs::lemma_after_concat(regs, seq![w1] + seq![wt] + seq![w2] + seq![w3], seq![w4]);
    assert(seq![w1] + seq![wt] + seq![w2] + seq![w3] + seq![w4] =~= head);
    assert(after(regs, head) == r4);
    crate::regs::lemma_after_concat(regs, head, baud_ws);
    crate::regs::lemma_after_concat(regs, head + baud_ws, tail);
    // The last three writes.
    lemma_after_single(r5, w6);
    let r6 = after(r5, seq![w6]);
    lemma_after_single(r6, w7);
    let r7 = after(r6, seq![w7]);
    lemma_after_single(r7, w8);
    crate::regs::lemma_after_concat(r5, seq![w6], seq![w7]);
    crate::regs::lemma_after_concat(r5, seq![w6] + seq![w7], seq![w8]);
    assert(seq![w6] + seq![w7] + seq![w8] =~= tail);
    let r = after(regs, ws);
    assert(r.cr1 == c6 && r.cr2 == stop_v && r.brr == div);
    // Bits of CR1.
    assert(c6 & CR1_UE != 0 && c6 & CR1_TE != 0 && c6 & CR1_RE != 0) by (bit_vector)
        requires
            c6 == (c4 | CR1_UE) | (CR1_TE | CR1_RE),
    ;
    assert(CR1_OVER8 & CR1_M1 == 0 && CR1_OVER8 & CR1_M0 == 0 && CR1_M1 & CR1_M0 == 0)
        by (bit_vector);
    assert(CR1_M1 & CR1_OVER8 == 0 && CR1_M0 & CR1_OVER8 == 0 && CR1_M0 & CR1_M1 == 0)
        by (bit_vector);
    lemma_with_bits(c1, CR1_OVER8, o8, CR1_OVER8);
    lemma_with_bits(c2, CR1_M1, m1, CR1_OVER8);
    lemma_with_bits(c3, CR1_M0, m0, CR1_OVER8);
    lemma_with_bits(c2, CR1_M1, m1, CR1_M1);
    lemma_with_bits(c3, CR1_M0, m0, CR1_M1);
    lemma_with_bits(c3, CR1_M0, m0, CR1_M0);
    assert(CR1_OVER8 != 0 && CR1_M1 != 0 && CR1_M0 != 0);
    let k = CR1_UE | (CR1_TE | CR1_RE);
    assert(forall|m: u32|
        (m == CR1_OVER8 || m == CR1_M1 || m == CR1_M0) ==> #[trigger] ((c4 | CR1_UE) | (CR1_TE
            | CR1_RE)) & m == c4 & m) by (bit_vector);
    // The stop bits field.
    let code = stop_bits_code(config.stop_bits) as u32;
    let cr2 = regs.cr2;
    assert(code <= 3);
    assert(stop_code_v == code && ((((cr2 & !CR2_STOP) | (stop_code_v << 12)) & CR2_STOP) >> 12)
        == stop_code_v) by (bit_vector)
        requires
            stop_code_v == code & 0b11,
            code <= 3,
    ;
}

proof fn lemma_char_detect_fields(v: u32, ch: u8)
    ensures
        char_detect_cr2(v, ch) & CR2_ADDM7 != 0,
        char_detect_cr2(v, ch) >> 24 == ch as u32,
{
    let x = char_detect_cr2(v, ch);
    let lo = (ch & 0x0F) as u32;
    let hi = (ch >> 4) as u32;
    let c = ch as u32;
    assert(lo == c & 0x0F && hi == c >> 4 && c <= 0xFF) by (bit_vector)
        requires
            lo == (ch & 0x0F) as u32,
            hi == (ch >> 4) as u32,
            c == ch as u32,
    ;
    assert(x & CR2_ADDM7 != 0 && x >> 24 == c) by (bit_vector)
        requires
            x == ((((v | CR2_ADDM7) & !CR2_ADD_LOW) | (lo << 24)) & !CR2_ADD_HIGH) | (hi << 28),
            lo == c & 0x0F,
            hi == c >> 4,
            c <= 0xFF,
    ;
}

/// After an interrupt is enabled, the USART is enabled and the interrupt's
/// enable bit is set; the enable bits are written only after the USART has
/// been disabled and seen disabled. For character detection, 8-bit address
/// mode is on and the ADD field holds the character.
pub proof fn law_enable_interrupt(regs: UsartRegisters, interrupt: UsartInterrupt)
    ensures
        ({
            let r = after(regs, enable_interrupt_writes(regs, interrupt));
            let (reg, bit) = interrupt_enable_bit(interrupt);
            &&& r.cr1 & CR1_UE != 0
            &&& r.value_of(reg) & bit != 0
            &&& (interrupt matches UsartInterrupt::CharDetect(ch) ==> {
                &&& r.cr2 & CR2_ADDM7 != 0
                &&& r.cr2 >> 24 == ch as u32
            })
            &&& enable_interrupt_writes(regs, interrupt)[0] == (RegOp::Write {
                reg: UsartReg::Cr1,
                value: regs.cr1 & !CR1_UE,
            })
            &&& (regs.cr1 & !CR1_UE) & CR1_UE == 0
            &&& enable_interrupt_writes(regs, interrupt)[1] == (RegOp::AwaitClear {
                reg: UsartReg::Cr1,
                mask: CR1_UE,
            })
        }),
{
    let ws = enable_interrupt_writes(regs, interrupt);
    let c1 = regs.cr1 & !CR1_UE;
    let r1 = regs.with_value(UsartReg::Cr1, c1);
    let (reg, bit) = interrupt_enable_bit(interrupt);
    let r2 = r1.with_value(reg, r1.value_of(reg) | bit);
    let detect = match interrupt {
        UsartInterrupt::CharDetect(ch) => seq![
            RegOp::Write { reg: UsartReg::Cr2, value: char_detect_cr2(r2.cr2, ch) },
        ],
        _ => Seq::<RegOp<UsartReg>>::empty(),
    };
    let r3 = after(r2, detect);
    let w1 = RegOp::Write { reg: UsartReg::Cr1, value: c1 };
    let wt = RegOp::AwaitClear { reg: UsartReg::Cr1, mask: CR1_UE };
    let w2 = RegOp::Write { reg: reg, value: r1.value_of(reg) | bit };
    let w4 = RegOp::Write { reg: UsartReg::Cr1, value: r3.cr1 | CR1_UE };
    assert(ws =~= seq![w1] + seq![wt] + seq![w2] + detect + seq![w4]);
    let rc = regs.cr1;
    assert((rc & !CR1_UE) & CR1_UE == 0) by (bit_vector);
    lemma_after_single(regs, w1);
    lemma_after_single(r1, wt);
    lemma_after_single(r1, w2);
    lemma_after_single(r3, w4);
    crate::regs::lemma_after_concat(regs, seq![w1], seq![wt]);
    crate::regs::lemma_after_concat(regs, seq![w1] + seq![wt], seq![w2]);
    crate::regs::lemma_after_concat(regs, seq![w1] + seq![wt] + seq![w2], detect);
    crate::regs::lemma_after_concat(regs, seq![w1] + seq![wt] + seq![w2] + detect, seq![w4]);
    let r = after(regs, ws);
    assert(r == r3.with_value(UsartReg::Cr1, r3.cr1 | CR1_UE));
    match interrupt {
        UsartInterrupt::CharDetect(ch) => {
            lemma_after_single(r2, detect[0]);
            lemma_char_detect_fields(r2.cr2, ch);
        },
        _ => {
            assert(r3 == r2);
        },
    }
    let x = r3.cr1;
    assert((x | CR1_UE) & CR1_UE != 0) by (bit_vector);
    assert(bit != 0);
    let y = r1.value_of(reg);
    assert((y | bit) & bit != 0) by (bit_vector)
        requires
            bit != 0,
    ;
    if reg == UsartReg::Cr1 {
        assert(r3.cr1 == y | bit);
        assert(((y | bit) | CR1_UE) & bit != 0) by (bit_vector)
            requires
                bit != 0,
        ;
    }
}

/// Each kind of interrupt is cleared through a flag of its own, and every
/// clear flag is a single bit.
pub proof fn law_clear_flags_distinct(a: UsartInterrupt, b: UsartInterrupt)
    ensures
        interrupt_clear_bit(a) == interrupt_clear_bit(b) ==> (a == b || (
        a is CharDetect && b is CharDetect)),
        interrupt_clear_bit(a).1 != 0,
        interrupt_clear_bit(a).1 & (interrupt_clear_bit(a).1 - 1) as u32 == 0,
{
    let f = interrupt_clear_bit(a).1;
    assert(f == ICR_CMCF || f == ICR_CTSCF || f == ICR_EOBCF || f == ICR_IDLECF || f == ICR_FECF
        || f == ICR_LBDCF || f == ICR_ORECF || f == ICR_PECF || f == RQR_RXFRQ || f == ICR_RTOCF
        || f == ICR_TCBGTCF || f == ICR_TCCF || f == RQR_TXFRQ);
    assert(f == 0x0002_0000 || f == 0x200 || f == 0x1000 || f == 0x10 || f == 0x2 || f == 0x100
        || f == 0x8 || f == 0x1 || f == 0x800 || f == 0x80 || f == 0x40 ==> f & (f - 1) as u32
        == 0) by (bit_vector);
}

/// A word that was written ends up, unchanged, in the data field of TDR.
pub proof fn law_written_word_in_tdr(tdr: u32, word: u8)
    ensures
        ((tdr & !DATA_FIELD) | ((word as u32) & DATA_FIELD)) & DATA_FIELD == word as u32,
{
    let w = word as u32;
    assert(w <= 0xFF);
    assert(((tdr & !DATA_FIELD) | (w & DATA_FIELD)) & DATA_FIELD == w) by (bit_vector)
        requires
            w <= 0xFF,
    ;
}

/// Distinct word lengths are told apart by their M1 and M0 bits.
pub proof fn law_word_len_bits_distinct(a: WordLen, b: WordLen)
    ensures
        word_len_bits(a) == word_len_bits(b) ==> a == b,
{
}

proof fn lemma_write_steps_prefix(
    logs: Seq<Seq<RegOp<UsartReg>>>,
    sents: Seq<int>,
    data: Seq<u8>,
    k: int,
)
    requires
        logs.len() == sents.len(),
        sents[0] == 0,
        forall|i: int|
            0 <= i < logs.len() - 1 ==> #[trigger] write_step_log(
                logs[i],
                logs[i + 1],
                data,
                sents[i],
                sents[i + 1],
            ),
        0 <= k < logs.len(),
    ensures
        0 <= sents[k] <= data.len(),
        tdr_words(logs[k]) == tdr_words(logs[0]) + data.take(sents[k]).map_values(
            |b: u8| b as u32,
        ),
    decreases k,
{
    if k == 0 {
        assert(data.take(0).map_values(|b: u8| b as u32) =~= Seq::<u32>::empty());
        assert(tdr_words(logs[0]) + Seq::<u32>::empty() =~= tdr_words(logs[0]));
    } else {
        lemma_write_steps_prefix(logs, sents, data, k - 1);
        let i = k - 1;
        assert(write_step_log(logs[i], logs[i + 1], data, sents[i], sents[i + 1]));
        assert(i + 1 == k);
        let s = sents[k - 1];
        if sents[k] == s && logs[k] == logs[k - 1] {
        } else {
            let t = choose|t: u32|
                logs[k] == logs[k - 1].push(
                    RegOp::Write {
                        reg: UsartReg::Tdr,
                        value: (t & !DATA_FIELD) | ((data[s] as u32) & DATA_FIELD),
                    },
                );
            assert(logs[k].drop_last() =~= logs[k - 1]);
            law_written_word_in_tdr(t, data[s]);
            assert(data.take(s + 1).map_values(|b: u8| b as u32) =~= data.take(s).map_values(
                |b: u8| b as u32,
            ).push(data[s] as u32));
            assert(tdr_words(logs[k]) =~= tdr_words(logs[k - 1]) + seq![data[s] as u32]);
            assert(tdr_words(logs[0]) + data.take(s).map_values(|b: u8| b as u32) + seq![
                data[s] as u32,
            ] =~= tdr_words(logs[0]) + data.take(s + 1).map_values(|b: u8| b as u32));
        }
    }
}

/// Steps of a blocking write that go from nothing sent to all of `data` sent
/// put exactly the words of `data`, in order, into the data field of TDR.
pub proof fn law_write_steps_send_data(
    logs: Seq<Seq<RegOp<UsartReg>>>,
    sents: Seq<int>,
    data: Seq<u8>,
)
    requires
        logs.len() == sents.len(),
        logs.len() >= 1,
        sents[0] == 0,
        sents.last() == data.len(),
        forall|i: int|
            0 <= i < logs.len() - 1 ==> #[trigger] write_step_log(
                logs[i],
                logs[i + 1],
                data,
                sents[i],
                sents[i + 1],
            ),
    ensures
        tdr_words(logs.last()) == tdr_words(logs[0]) + data.map_values(|b: u8| b as u32),
{
    lemma_write_steps_prefix(logs, sents, data, logs.len() - 1);
    assert(data.take(data.len() as int) =~= data);
}

/// How one step of a blocking read changes the buffer: either nothing is
/// taken and `filled` stays, or the low eight bits of `rdr` go to
/// `buf[filled]` and `filled` moves on by one.
pub open spec fn read_step_buf(buf: Seq<u8>, buf2: Seq<u8>, rdr: u32, filled: int, next: int) -> bool {
    ||| next == filled && buf2 == buf
    ||| 0 <= filled < buf.len() && next == filled + 1 && buf2 == buf.update(
        filled,
        (rdr & 0xFF) as u8,
    )
}

/// The words taken by the first `k` steps of a blocking read, in order: the
/// low eight bits of RDR at each step that moved the count on.
pub open spec fn words_taken(fills: Seq<int>, rdrs: Seq<u32>, k: int) -> Seq<u8>
    decreases k,
{
    if k <= 0 {
        Seq::empty()
    } else {
        words_taken(fills, rdrs, k - 1) + if fills[k] == fills[k - 1] + 1 {
            seq![(rdrs[k - 1] & 0xFF) as u8]
        } else {
            Seq::<u8>::empty()
        }
    }
}

proof fn lemma_read_steps_prefix(bufs: Seq<Seq<u8>>, fills: Seq<int>, rdrs: Seq<u32>, k: int)
    requires
        bufs.len() == fills.len(),
        rdrs.len() + 1 == bufs.len(),
        fills[0] == 0,
        forall|i: int|
            0 <= i < bufs.len() - 1 ==> #[trigger] read_step_buf(
                bufs[i],
                bufs[i + 1],
                rdrs[i],
                fills[i],
                fills[i + 1],
            ),
        0 <= k < bufs.len(),
    ensures
        0 <= fills[k] <= bufs[0].len(),
        bufs[k].len() == bufs[0].len(),
        words_taken(fills, rdrs, k).len() == fills[k],
        bufs[k].take(fills[k]) == words_taken(fills, rdrs, k),
    decreases k,
{
    if k == 0 {
        assert(bufs[0].take(0) =~= Seq::<u8>::empty());
    } else {
        lemma_read_steps_prefix(bufs, fills, rdrs, k - 1);
        let i = k - 1;
        assert(read_step_buf(bufs[i], bufs[i + 1], rdrs[i], fills[i], fills[i + 1]));
        assert(i + 1 == k);
        if fills[k] == fills[i] && bufs[k] == bufs[i] {
            assert(words_taken(fills, rdrs, k) =~= words_taken(fills, rdrs, i));
        } else {
            let f = fills[i];
            assert(bufs[k].take(f + 1) =~= bufs[i].take(f).push((rdrs[i] & 0xFF) as u8));
            assert(words_taken(fills, rdrs, k) =~= words_taken(fills, rdrs, i) + seq![
                (rdrs[i] & 0xFF) as u8,
            ]);
        }
    }
}

/// Steps of a blocking read that go from nothing received to a full buffer
/// fill it, in order, with the low eight bits of RDR at each step that took a
/// word: `rdrs[i]` is RDR as step `i` saw it.
pub proof fn law_read_steps_fill_buffer(bufs: Seq<Seq<u8>>, fills: Seq<int>, rdrs: Seq<u32>)
    requires
        bufs.len() == fills.len(),
        rdrs.len() + 1 == bufs.len(),
        fills[0] == 0,
        fills.last() == bufs[0].len(),
        forall|i: int|
            0 <= i < bufs.len() - 1 ==> #[trigger] read_step_buf(
                bufs[i],
                bufs[i + 1],
                rdrs[i],
                fills[i],
                fills[i + 1],
            ),
    ensures
        bufs.last() == words_taken(fills, rdrs, bufs.len() - 1),
        words_taken(fills, rdrs, bufs.len() - 1).len() == bufs[0].len(),
{
    let k = bufs.len() - 1;
    lemma_read_steps_prefix(bufs, fills, rdrs, k);
    assert(bufs[k].take(fills[k]) =~= bufs[k]);
}

/// Bringing up a USART clocks and resets that USART and no other: USART1 by
/// bit 14 of APB2ENR and APB2RSTR, USART2 by bit 17 and USART3 by bit 18 of
/// APB1ENR1 and APB1RSTR1. The enable bit is set first; the reset bit is then
/// set and cleared again. Distinct USARTs get distinct bits.
pub proof fn law_usart_rcc_bits(rcc: RccRegisters, d1: UsartDevice, d2: UsartDevice)
    ensures
        usart_rcc_writes(rcc, UsartDevice::One) == seq![
            RegOp::Write { reg: RccReg::Apb2Enr, value: rcc.apb2enr | 0x0000_4000 },
            RegOp::Write { reg: RccReg::Apb2Rstr, value: rcc.apb2rstr | 0x0000_4000 },
            RegOp::Write {
                reg: RccReg::Apb2Rstr,
                value: (rcc.apb2rstr | 0x0000_4000) & !0x0000_4000u32,
            },
        ],
        usart_rcc_writes(rcc, UsartDevice::Two) == seq![
            RegOp::Write { reg: RccReg::Apb1Enr1, value: rcc.apb1enr1 | 0x0002_0000 },
            RegOp::Write { reg: RccReg::Apb1Rstr1, value: rcc.apb1rstr1 | 0x0002_0000 },
            RegOp::Write {
                reg: RccReg::Apb1Rstr1,
                value: (rcc.apb1rstr1 | 0x0002_0000) & !0x0002_0000u32,
            },
        ],
        usart_rcc_writes(rcc, UsartDevice::Three) == seq![
            RegOp::Write { reg: RccReg::Apb1Enr1, value: rcc.apb1enr1 | 0x0004_0000 },
            RegOp::Write { reg: RccReg::Apb1Rstr1, value: rcc.apb1rstr1 | 0x0004_0000 },
            RegOp::Write {
                reg: RccReg::Apb1Rstr1,
                value: (rcc.apb1rstr1 | 0x0004_0000) & !0x0004_0000u32,
            },
        ],
        ({
            let zero = RccRegisters {
                ahb3rstr: 0,
                apb1rstr1: 0,
                apb2rstr: 0,
                ahb3enr: 0,
                apb1enr1: 0,
                apb2enr: 0,
            };
            d1 != d2 ==> usart_rcc_writes(zero, d1)[0] != usart_rcc_writes(zero, d2)[0]
        }),
{
    assert(0u32 | 0x0000_4000u32 == 0x0000_4000u32 && 0u32 | 0x0002_0000u32 == 0x0002_0000u32
        && 0u32 | 0x0004_0000u32 == 0x0004_0000u32) by (bit_vector);
}

/// The bit that enables each interrupt: RXNEIE (CR1 bit 5) for a received
/// word, TXEIE (CR1 bit 7) for an empty transmit register, TCIE (CR1 bit 6),
/// IDLEIE (CR1 bit 4), PEIE (CR1 bit 8), CMIE (CR1 bit 14), RTOIE (CR1 bit 26),
/// EOBIE (CR1 bit 27), LBDIE (CR2 bit 6), EIE (CR3 bit 0) for framing and
/// overrun errors, CTSIE (CR3 bit 10) and TCBGTIE (CR3 bit 24). Interrupts of
/// distinct kinds have distinct enable bits, but for framing and overrun
/// errors, which share EIE.
pub proof fn law_interrupt_enable_bits(a: UsartInterrupt, b: UsartInterrupt)
    ensures
        interrupt_enable_bit(UsartInterrupt::ReadNotEmpty) == (UsartReg::Cr1, 0x0000_0020u32),
        interrupt_enable_bit(UsartInterrupt::TransmitEmpty) == (UsartReg::Cr1, 0x0000_0080u32),
        interrupt_enable_bit(UsartInterrupt::TransmissionComplete) == (
            UsartReg::Cr1,
            0x0000_0040u32,
        ),
        interrupt_enable_bit(UsartInterrupt::Idle) == (UsartReg::Cr1, 0x0000_0010u32),
        interrupt_enable_bit(UsartInterrupt::ParityError) == (UsartReg::Cr1, 0x0000_0100u32),
        forall|ch: u8|
            #[trigger] interrupt_enable_bit(UsartInterrupt::CharDetect(ch)) == (
                UsartReg::Cr1,
                0x0000_4000u32,
            ),
        interrupt_enable_bit(UsartInterrupt::ReceiverTimeout) == (UsartReg::Cr1, 0x0400_0000u32),
        interrupt_enable_bit(UsartInterrupt::EndOfBlock) == (UsartReg::Cr1, 0x0800_0000u32),
        interrupt_enable_bit(UsartInterrupt::LineBreak) == (UsartReg::Cr2, 0x0000_0040u32),
        interrupt_enable_bit(UsartInterrupt::FramingError) == (UsartReg::Cr3, 0x0000_0001u32),
        interrupt_enable_bit(UsartInterrupt::Overrun) == (UsartReg::Cr3, 0x0000_0001u32),
        interrupt_enable_bit(UsartInterrupt::Cts) == (UsartReg::Cr3, 0x0000_0400u32),
        interrupt_enable_bit(UsartInterrupt::Tcbgt) == (UsartReg::Cr3, 0x0100_0000u32),
        interrupt_enable_bit(a) == interrupt_enable_bit(b) ==> a == b || (a is CharDetect
            && b is CharDetect) || ((a is FramingError || a is Overrun) && (b is FramingError
            || b is Overrun)),
{
}

proof fn lemma_enable_bits_disjoint(a: UsartInterrupt, b: UsartInterrupt)
    ensures
        interrupt_enable_bit(a).1 != 0,
        interrupt_enable_bit(a).0 == UsartReg::Cr1 ==> interrupt_enable_bit(a).1 & CR1_UE == 0
            && CR1_UE & interrupt_enable_bit(a).1 == 0,
        interrupt_enable_bit(a) != interrupt_enable_bit(b) && interrupt_enable_bit(a).0
            == interrupt_enable_bit(b).0 ==> interrupt_enable_bit(a).1 & interrupt_enable_bit(b).1
            == 0,
{
    let x = interrupt_enable_bit(a).1;
    let y = interrupt_enable_bit(b).1;
    let xr = interrupt_enable_bit(a).0;
    let yr = interrupt_enable_bit(b).0;
    let c1x = xr == UsartReg::Cr1;
    let c1y = yr == UsartReg::Cr1;
    let c2x = xr == UsartReg::Cr2;
    let c2y = yr == UsartReg::Cr2;
    assert(c1x ==> (x == 0x20 || x == 0x80 || x == 0x40 || x == 0x10 || x == 0x100 || x == 0x4000
        || x == 0x0400_0000 || x == 0x0800_0000));
    assert(c1y ==> (y == 0x20 || y == 0x80 || y == 0x40 || y == 0x10 || y == 0x100 || y == 0x4000
        || y == 0x0400_0000 || y == 0x0800_0000));
    assert(c2x ==> x == 0x40);
    assert(c2y ==> y == 0x40);
    assert(!c1x && !c2x ==> (x == 0x1 || x == 0x400 || x == 0x0100_0000));
    assert(!c1y && !c2y ==> (y == 0x1 || y == 0x400 || y == 0x0100_0000));
    assert(x != 0 && (c1x ==> x & 1 == 0 && 1 & x == 0) && (x != y && c1x == c1y && c2x == c2y
        ==> x & y == 0))
        by (bit_vector)
        requires
            c1x ==> (x == 0x20 || x == 0x80 || x == 0x40 || x == 0x10 || x == 0x100 || x == 0x4000
                || x == 0x0400_0000 || x == 0x0800_0000),
            c1y ==> (y == 0x20 || y == 0x80 || y == 0x40 || y == 0x10 || y == 0x100 || y == 0x4000
                || y == 0x0400_0000 || y == 0x0800_0000),
            c2x ==> x == 0x40,
            c2y ==> y == 0x40,
            !c1x && !c2x ==> (x == 0x1 || x == 0x400 || x == 0x0100_0000),
            !c1y && !c2y ==> (y == 0x1 || y == 0x400 || y == 0x0100_0000),
            !(c1x && c2x),
            !(c1y && c2y),
    ;
}

proof fn lemma_char_detect_keeps_lbdie(v: u32, ch: u8)
    ensures
        char_detect_cr2(v, ch) & CR2_LBDIE == v & CR2_LBDIE,
{
    let lo = (ch & 0x0F) as u32;
    let hi = (ch >> 4) as u32;
    let x = char_detect_cr2(v, ch);
    assert(lo <= 0x0F && hi <= 0x0F) by (bit_vector)
        requires
            lo == (ch & 0x0F) as u32,
            hi == (ch >> 4) as u32,
    ;
    assert(x & CR2_LBDIE == v & CR2_LBDIE) by (bit_vector)
        requires
            x == ((((v | CR2_ADDM7) & !CR2_ADD_LOW) | (lo << 24)) & !CR2_ADD_HIGH) | (hi << 28),
            lo <= 0x0F,
            hi <= 0x0F,
    ;
}

/// Enabling one interrupt sets its own enable bit and leaves the enable bit of
/// every interrupt with another enable bit as it was: enabling reception
/// interrupts (RXNEIE) leaves TXEIE alone, and so on.
pub proof fn law_enable_interrupt_leaves_others(
    regs: UsartRegisters,
    interrupt: UsartInterrupt,
    other: UsartInterrupt,
)
    requires
        interrupt_enable_bit(interrupt) != interrupt_enable_bit(other),
    ensures
        ({
            let r = after(regs, enable_interrupt_writes(regs, interrupt));
            let (reg, bit) = interrupt_enable_bit(interrupt);
            let (oreg, obit) = interrupt_enable_bit(other);
            &&& r.value_of(reg) & bit == bit
            &&& r.value_of(oreg) & obit == regs.value_of(oreg) & obit
        }),
{
    law_enable_interrupt(regs, interrupt);
    let ws = enable_interrupt_writes(regs, interrupt);
    let c1 = regs.cr1 & !CR1_UE;
    let r1 = regs.with_value(UsartReg::Cr1, c1);
    let (reg, bit) = interrupt_enable_bit(interrupt);
    let (oreg, obit) = interrupt_enable_bit(other);
    let r2 = r1.with_value(reg, r1.value_of(reg) | bit);
    let detect = match interrupt {
        UsartInterrupt::CharDetect(ch) => seq![
            RegOp::Write { reg: UsartReg::Cr2, value: char_detect_cr2(r2.cr2, ch) },
        ],
        _ => Seq::<RegOp<UsartReg>>::empty(),
    };
    let r3 = after(r2, detect);
    let w1 = RegOp::Write { reg: UsartReg::Cr1, value: c1 };
    let wt = RegOp::AwaitClear { reg: UsartReg::Cr1, mask: CR1_UE };
    let w2 = RegOp::Write { reg: reg, value: r1.value_of(reg) | bit };
    let w4 = RegOp::Write { reg: UsartReg::Cr1, value: r3.cr1 | CR1_UE };
    assert(ws =~= seq![w1] + seq![wt] + seq![w2] + detect + seq![w4]);
    lemma_after_single(regs, w1);
    lemma_after_single(r1, wt);
    lemma_after_single(r1, w2);
    lemma_after_single(r3, w4);
    crate::regs::lemma_after_concat(regs, seq![w1], seq![wt]);
    crate::regs::lemma_after_concat(regs, seq![w1] + seq![wt], seq![w2]);
    crate::regs::lemma_after_concat(regs, seq![w1] + seq![wt] + seq![w2], detect);
    crate::regs::lemma_after_concat(regs, seq![w1] + seq![wt] + seq![w2] + detect, seq![w4]);
    let r = after(regs, ws);
    assert(r == r3.with_value(UsartReg::Cr1, r3.cr1 | CR1_UE));
    match interrupt {
        UsartInterrupt::CharDetect(ch) => {
            lemma_after_single(r2, detect[0]);
            lemma_char_detect_keeps_lbdie(r2.cr2, ch);
        },
        _ => {
            assert(r3 == r2);
        },
    }
    lemma_enable_bits_disjoint(interrupt, other);
    lemma_enable_bits_disjoint(other, interrupt);
    // The enable bit of the interrupt itself ends set.
    let ov = regs.value_of(oreg);
    if oreg == UsartReg::Cr1 {
        lemma_with_bits(regs.cr1, CR1_UE, false, obit);
        if reg == UsartReg::Cr1 {
            lemma_with_bits(c1, bit, true, obit);
            lemma_with_bits(c1 | bit, CR1_UE, true, obit);
        } else {
            lemma_with_bits(r3.cr1, CR1_UE, true, obit);
        }
    } else if oreg == reg {
        lemma_with_bits(ov, bit, true, obit);
    }
    assert(bit != 0);
    assert(r.value_of(reg) & bit == bit) by {
        if reg == UsartReg::Cr1 {
            lemma_with_bits(r3.cr1, CR1_UE, true, bit);
            lemma_with_bits(c1, bit, true, bit);
        } else {
            lemma_with_bits(r1.value_of(reg), bit, true, bit);
        }
    }
}

/// The DMA channels of the USARTs: USART1 transmits on C4 and receives on C5,
/// USART2 on C7 and C6, USART3 on C2 and C3. No channel serves two purposes:
/// a USART never transmits and receives on one channel, and distinct USARTs
/// never share a channel.
pub proof fn law_dma_channels(d1: UsartDevice, d2: UsartDevice)
    ensures
        tx_channel(UsartDevice::One) == DmaChannel::C4,
        rx_channel(UsartDevice::One) == DmaChannel::C5,
        tx_channel(UsartDevice::Two) == DmaChannel::C7,
        rx_channel(UsartDevice::Two) == DmaChannel::C6,
        tx_channel(UsartDevice::Three) == DmaChannel::C2,
        rx_channel(UsartDevice::Three) == DmaChannel::C3,
        tx_channel(d1) != rx_channel(d2),
        d1 != d2 ==> tx_channel(d1) != tx_channel(d2) && rx_channel(d1) != rx_channel(d2),
{
}

/// The flag that clears each interrupt: CMCF (ICR bit 17) for a character
/// match, CTSCF (bit 9), EOBCF (bit 12), IDLECF (bit 4), FECF (bit 1), LBDCF
/// (bit 8), ORECF (bit 3), PECF (bit 0), RTOCF (bit 11), TCBGTCF (bit 7) and
/// TCCF (bit 6) in ICR; a received word is flushed with RXFRQ (RQR bit 3) and
/// the transmit register with TXFRQ (RQR bit 4).
pub proof fn law_interrupt_clear_flags()
    ensures
        forall|ch: u8|
            #[trigger] interrupt_clear_bit(UsartInterrupt::CharDetect(ch)) == (
                UsartReg::Icr,
                0x0002_0000u32,
            ),
        interrupt_clear_bit(UsartInterrupt::Cts) == (UsartReg::Icr, 0x0000_0200u32),
        interrupt_clear_bit(UsartInterrupt::EndOfBlock) == (UsartReg::Icr, 0x0000_1000u32),
        interrupt_clear_bit(UsartInterrupt::Idle) == (UsartReg::Icr, 0x0000_0010u32),
        interrupt_clear_bit(UsartInterrupt::FramingError) == (UsartReg::Icr, 0x0000_0002u32),
        interrupt_clear_bit(UsartInterrupt::LineBreak) == (UsartReg::Icr, 0x0000_0100u32),
        interrupt_clear_bit(UsartInterrupt::Overrun) == (UsartReg::Icr, 0x0000_0008u32),
        interrupt_clear_bit(UsartInterrupt::ParityError) == (UsartReg::Icr, 0x0000_0001u32),
        interrupt_clear_bit(UsartInterrupt::ReadNotEmpty) == (UsartReg::Rqr, 0x0000_0008u32),
        interrupt_clear_bit(UsartInterrupt::ReceiverTimeout) == (UsartReg::Icr, 0x0000_0800u32),
        interrupt_clear_bit(UsartInterrupt::Tcbgt) == (UsartReg::Icr, 0x0000_0080u32),
        interrupt_clear_bit(UsartInterrupt::TransmissionComplete) == (
            UsartReg::Icr,
            0x0000_0040u32,
        ),
        interrupt_clear_bit(UsartInterrupt::TransmitEmpty) == (UsartReg::Rqr, 0x0000_0010u32),
{
}

/// USARTDIV is the bus clock over the baud rate, rounded down: the bus
/// clock (doubled when oversampling by 8) lies between USARTDIV times the
/// baud rate and one more than that. USART1 runs from APB2, USART2 and USART3
/// from APB1.
pub proof fn law_usart_div(device: UsartDevice, clock_cfg: ClockCfg, baud: u32, oversampling: OverSampling)
    requires
        baud != 0,
    ensures
        bus_clock(UsartDevice::One, clock_cfg) == clock_cfg.apb2,
        bus_clock(UsartDevice::Two, clock_cfg) == clock_cfg.apb1,
        bus_clock(UsartDevice::Three, clock_cfg) == clock_cfg.apb1,
        ({
            let f = if oversampling == OverSampling::O8 {
                2 * bus_clock(device, clock_cfg)
            } else {
                bus_clock(device, clock_cfg) as int
            };
            let d = usart_div(bus_clock(device, clock_cfg), baud, oversampling);
            &&& d * baud <= f
            &&& f < (d + 1) * baud
        }),
{
    let fc = bus_clock(device, clock_cfg);
    let f = if oversampling == OverSampling::O8 { 2 * fc } else { fc as int };
    let d = usart_div(fc, baud, oversampling);
    assert(d == f / (baud as int));
    assert(d * baud <= f && f < (d + 1) * baud) by (nonlinear_arith)
        requires
            d == f / (baud as int),
            baud > 0,
            f >= 0,
    ;
}

/// The BRR value keeps USARTDIV as it is when oversampling by 16. When
/// oversampling by 8 it keeps USARTDIV[15:4] in BRR[15:4], holds
/// USARTDIV[3:0] shifted right by one in BRR[2:0], keeps BRR[3] clear and
/// leaves every bit above 15 clear.
pub proof fn law_brr_value(div: u32)
    ensures
        brr_value(div, OverSampling::O16) == div,
        brr_value(div, OverSampling::O8) & 0xFFF0 == div & 0xFFF0,
        brr_value(div, OverSampling::O8) & 0x7 == (div & 0xF) >> 1,
        brr_value(div, OverSampling::O8) & 0x8 == 0,
        brr_value(div, OverSampling::O8) >> 16 == 0,
{
    let b = brr_value(div, OverSampling::O8);
    assert(b & 0xFFF0 == div & 0xFFF0 && b & 0x7 == (div & 0xF) >> 1 && b & 0x8 == 0 && b >> 16
        == 0) by (bit_vector)
        requires
            b == (div & 0xFFF0) | ((div & 0x000F) >> 1),
    ;
}

/// The M bits select the word length: M1 M0 = 00 for 8 bits, 01 for 9 bits,
/// 10 for 7 bits. The STOP field selects the stop bits: 00 for one, 01 for a
/// half, 10 for two, 11 for one and a half.
pub proof fn law_frame_codes()
    ensures
        word_len_bits(WordLen::W8) == (0u8, 0u8),
        word_len_bits(WordLen::W9) == (0u8, 1u8),
        word_len_bits(WordLen::W7) == (1u8, 0u8),
        stop_bits_code(StopBits::S1) == 0,
        stop_bits_code(StopBits::S0_5) == 1,
        stop_bits_code(StopBits::S2) == 2,
        stop_bits_code(StopBits::S1_5) == 3,
{
}

/// The DMA transfer count is the number of bytes for every buffer of fewer
/// than 65536 bytes.
pub proof fn law_dma_count(len: nat)
    ensures
        len < 0x1_0000 ==> dma_count(len) == len,
        dma_count(len) < 0x1_0000,
{
}

/// The USART registers sit at USART1 0x4001_3800, USART2 0x4000_4400 and
/// USART3 0x4000_4800, each register at its own offset: CR1 0x00, CR2 0x04,
/// CR3 0x08, BRR 0x0C, RQR 0x18, ISR 0x1C, ICR 0x20, RDR 0x24, TDR 0x28.
/// Distinct registers of one USART have distinct addresses.
pub proof fn law_register_map(a: UsartReg, b: UsartReg)
    ensures
        base_address(UsartDevice::One) == 0x4001_3800,
        base_address(UsartDevice::Two) == 0x4000_4400,
        base_address(UsartDevice::Three) == 0x4000_4800,
        register_offset(UsartReg::Cr1) == 0x00 && register_offset(UsartReg::Cr2) == 0x04
            && register_offset(UsartReg::Cr3) == 0x08 && register_offset(UsartReg::Brr) == 0x0C
            && register_offset(UsartReg::Rqr) == 0x18 && register_offset(UsartReg::Isr) == 0x1C
            && register_offset(UsartReg::Icr) == 0x20 && register_offset(UsartReg::Rdr) == 0x24
            && register_offset(UsartReg::Tdr) == 0x28,
        a != b ==> register_offset(a) != register_offset(b),
{
}

/// A DMA transmission moves the bytes of the buffer, one byte at a time, from
/// memory to TDR (offset 0x28): the memory address advances, TDR's stays, the
/// count is the number of bytes, once, at medium priority. A DMA reception
/// moves bytes the other way, from RDR (offset 0x24) into the buffer.
pub proof fn law_dma_transfers(device: UsartDevice, addr: u32, len: nat)
    requires
        0 < len < 0x1_0000,
    ensures
        ({
            let w = write_dma_cfg(device, addr, len);
            &&& w.direction == Direction::ReadFromMem
            &&& w.periph_addr == base_address(device) + 0x28
            &&& w.mem_addr == addr
            &&& w.num_data == len
            &&& w.mem_incr == IncrMode::Enabled && w.periph_incr == IncrMode::Disabled
            &&& w.mem_size == DataSize::S8 && w.periph_size == DataSize::S8
            &&& w.circular == Circular::Disabled && w.priority == Priority::Medium
            &&& w.channel == tx_channel(device)
        }),
        ({
            let r = read_dma_cfg(device, addr, len);
            &&& r.direction == Direction::ReadFromPeriph
            &&& r.periph_addr == base_address(device) + 0x24
            &&& r.mem_addr == addr
            &&& r.num_data == len
            &&& r.mem_incr == IncrMode::Enabled && r.periph_incr == IncrMode::Disabled
            &&& r.mem_size == DataSize::S8 && r.periph_size == DataSize::S8
            &&& r.circular == Circular::Disabled && r.priority == Priority::Medium
            &&& r.channel == rx_channel(device)
        }),
{
}

/// Represents the USART peripheral, for serial communications.
pub struct Usart {
    pub regs: Bus<UsartRegisters>,
    pub device: UsartDevice,
    pub baud: u32,
    pub config: UsartConfig,
}

fn bus_clock_of(device: UsartDevice, clock_cfg: &ClockCfg) -> (fclk: u32)
    ensures
        fclk == bus_clock(device, *clock_cfg),
{
    match device {
        UsartDevice::One => clock_cfg.apb2,
        _ => clock_cfg.apb1,
    }
}

fn enable_bit_of(interrupt: UsartInterrupt) -> (rb: (UsartReg, u32))
    ensures
        rb == interrupt_enable_bit(interrupt),
{
    match interrupt {
        UsartInterrupt::CharDetect(_) => (UsartReg::Cr1, CR1_CMIE),
        UsartInterrupt::Cts => (UsartReg::Cr3, CR3_CTSIE),
        UsartInterrupt::EndOfBlock => (UsartReg::Cr1, CR1_EOBIE),
        UsartInterrupt::Idle => (UsartReg::Cr1, CR1_IDLEIE),
        UsartInterrupt::FramingError => (UsartReg::Cr3, CR3_EIE),
        UsartInterrupt::LineBreak => (UsartReg::Cr2, CR2_LBDIE),
        UsartInterrupt::Overrun => (UsartReg::Cr3, CR3_EIE),
        UsartInterrupt::ParityError => (UsartReg::Cr1, CR1_PEIE),
        UsartInterrupt::ReadNotEmpty => (UsartReg::Cr1, CR1_RXNEIE),
        UsartInterrupt::ReceiverTimeout => (UsartReg::Cr1, CR1_RTOIE),
        UsartInterrupt::Tcbgt => (UsartReg::Cr3, CR3_TCBGTIE),
        UsartInterrupt::TransmissionComplete => (UsartReg::Cr1, CR1_TCIE),
        UsartInterrupt::TransmitEmpty => (UsartReg::Cr1, CR1_TXEIE),
    }
}

fn clear_bit_of(interrupt: UsartInterrupt) -> (rb: (UsartReg, u32))
    ensures
        rb == interrupt_clear_bit(interrupt),
{
    match interrupt {
        UsartInterrupt::CharDetect(_) => (UsartReg::Icr, ICR_CMCF),
        UsartInterrupt::Cts => (UsartReg::Icr, ICR_CTSCF),
        UsartInterrupt::EndOfBlock => (UsartReg::Icr, ICR_EOBCF),
        UsartInterrupt::Idle => (UsartReg::Icr, ICR_IDLECF),
        UsartInterrupt::FramingError => (UsartReg::Icr, ICR_FECF),
        UsartInterrupt::LineBreak => (UsartReg::Icr, ICR_LBDCF),
        UsartInterrupt::Overrun => (UsartReg::Icr, ICR_ORECF),
        UsartInterrupt::ParityError => (UsartReg::Icr, ICR_PECF),
        UsartInterrupt::ReadNotEmpty => (UsartReg::Rqr, RQR_RXFRQ),
        UsartInterrupt::ReceiverTimeout => (UsartReg::Icr, ICR_RTOCF),
        UsartInterrupt::Tcbgt => (UsartReg::Icr, ICR_TCBGTCF),
        UsartInterrupt::TransmissionComplete => (UsartReg::Icr, ICR_TCCF),
        UsartInterrupt::TransmitEmpty => (UsartReg::Rqr, RQR_TXFRQ),
    }
}

fn char_detect_value(cr2: u32, ch: u8) -> (v: u32)
    ensures
        v == char_detect_cr2(cr2, ch),
{
    let v1 = cr2 | CR2_ADDM7;
    let v2 = (v1 & !CR2_ADD_LOW) | (((ch & 0x0F) as u32) << 24);
    (v2 & !CR2_ADD_HIGH) | (((ch >> 4) as u32) << 28)
}

impl Usart {
    /// The registers and the writes issued to them.
    pub open spec fn bus(&self) -> Bus<UsartRegisters> {
        self.regs
    }

    /// Which USART this is.
    pub open spec fn device(&self) -> UsartDevice {
        self.device
    }

    /// The baud rate last set.
    pub open spec fn baud_view(&self) -> u32 {
        self.baud
    }

    /// The configuration the USART was brought up with.
    pub open spec fn config_view(&self) -> UsartConfig {
        self.config
    }

    /// Enables the clock of the USART and pulses its reset, then brings it up
    /// with `config` at `baud` (see [`new_writes`]). The reset pulse leaves the
    /// control registers at their reset values (see [`after_reset`]); `regs`
    /// gives what the other registers show.
    pub fn new(
        regs: UsartRegisters,
        device: UsartDevice,
        baud: u32,
        config: UsartConfig,
        clock_cfg: &ClockCfg,
        rcc: &mut Rcc,
    ) -> (usart: Self)
        requires
            baud_settable(device, config.oversampling, *clock_cfg, baud),
        ensures
            final(rcc).wrote(*old(rcc), usart_rcc_writes(old(rcc).image(), device)),
            usart.bus().log() == new_writes(after_reset(regs), device, baud, config, *clock_cfg),
            usart.bus().image() == after(
                after_reset(regs),
                new_writes(after_reset(regs), device, baud, config, *clock_cfg),
            ),
            usart.device() == device,
            usart.baud_view() == baud,
            usart.config_view() == config,
    {
        match device {
            UsartDevice::One => {
                enable_reset(rcc, RccReg::Apb2Enr, RccReg::Apb2Rstr, USART1_BIT);
            },
            UsartDevice::Two => {
                enable_reset(rcc, RccReg::Apb1Enr1, RccReg::Apb1Rstr1, USART2_BIT);
            },
            UsartDevice::Three => {
                enable_reset(rcc, RccReg::Apb1Enr1, RccReg::Apb1Rstr1, USART3_BIT);
            },
        }
        let regs = reset_image(regs);
        let mut result = Self { regs: Bus::new(regs), device, baud, config };
        let ghost b0 = result.regs;
        // This should already be disabled on power up, but disable here just in case.
        result.regs.clear_bits(UsartReg::Cr1, CR1_UE);
        let ghost b1a = result.regs;
        result.regs.await_clear(UsartReg::Cr1, CR1_UE);
        let ghost b1 = result.regs;
        let over8 = match result.config.oversampling {
            OverSampling::O16 => false,
            OverSampling::O8 => true,
        };
        result.regs.put_bits(UsartReg::Cr1, CR1_OVER8, over8);
        let ghost b2 = result.regs;
        // 1. Program the M bits in USART_CR1 to define the word length.
        let wl_bits = result.config.word_len.bits();
        result.regs.put_bits(UsartReg::Cr1, CR1_M1, wl_bits.0 != 0);
        let ghost b3 = result.regs;
        result.regs.put_bits(UsartReg::Cr1, CR1_M0, wl_bits.1 != 0);
        let ghost b4 = result.regs;
        // 2. Select the desired baud rate using the USART_BRR register.
        result.set_baud(baud, clock_cfg);
        let ghost b5 = result.regs;
        // 3. Program the number of stop bits in USART_CR2.
        let stop = ((stop_code(result.config.stop_bits) as u32) & 0b11) << 12;
        result.regs.modify(UsartReg::Cr2, CR2_STOP, stop);
        let ghost b6 = result.regs;
        // 4. Enable the USART by writing the UE bit in USART_CR1 register to 1.
        result.regs.set_bits(UsartReg::Cr1, CR1_UE);
        let ghost b7 = result.regs;
        // 5. Set the TE and RE bits in USART_CR1: send an idle frame as first
        // transmission, and start searching for a start bit.
        result.regs.set_bits(UsartReg::Cr1, CR1_TE | CR1_RE);
        proof {
            let c1 = regs.cr1 & !CR1_UE;
            let c2 = with_bits(c1, CR1_OVER8, config.oversampling == OverSampling::O8);
            let c3 = with_bits(c2, CR1_M1, word_len_bits(config.word_len).0 != 0);
            let c4 = with_bits(c3, CR1_M0, word_len_bits(config.word_len).1 != 0);
            let r4 = regs.with_value(UsartReg::Cr1, c4);
            let div = brr_value(
                usart_div(bus_clock(device, *clock_cfg), baud, config.oversampling) as u32,
                config.oversampling,
            );
            let baud_ws = set_baud_writes(r4, div);
            let w1 = RegOp::Write { reg: UsartReg::Cr1, value: c1 };
            let wt = RegOp::AwaitClear { reg: UsartReg::Cr1, mask: CR1_UE };
            let w2 = RegOp::Write { reg: UsartReg::Cr1, value: c2 };
            let w3 = RegOp::Write { reg: UsartReg::Cr1, value: c3 };
            let w4 = RegOp::Write { reg: UsartReg::Cr1, value: c4 };
            lemma_after_single(b0.image(), w1);
            lemma_after_single(b1a.image(), wt);
            lemma_after_single(b1.image(), w2);
            lemma_after_single(b2.image(), w3);
            lemma_after_single(b3.image(), w4);
            assert(b4.image() == r4);
            let r5 = after(r4, baud_ws);
            let stop_v = (r5.cr2 & !CR2_STOP) | (((stop_bits_code(config.stop_bits) as u32) & 0b11)
                << 12);
            let w6 = RegOp::Write { reg: UsartReg::Cr2, value: stop_v };
            let w7 = RegOp::Write { reg: UsartReg::Cr1, value: r5.cr1 | CR1_UE };
            let w8 = RegOp::Write { reg: UsartReg::Cr1, value: (r5.cr1 | CR1_UE) | (CR1_TE | CR1_RE) };
            lemma_after_single(b5.image(), w6);
            lemma_after_single(b6.image(), w7);
            b1.lemma_wrote_trans(b1a, b0, seq![w1], seq![wt]);
            b2.lemma_wrote_trans(b1, b0, seq![w1] + seq![wt], seq![w2]);
            b3.lemma_wrote_trans(b2, b0, seq![w1] + seq![wt] + seq![w2], seq![w3]);
            b4.lemma_wrote_trans(b3, b0, seq![w1] + seq![wt] + seq![w2] + seq![w3], seq![w4]);
            let ws4 = seq![w1] + seq![wt] + seq![w2] + seq![w3] + seq![w4];
            b5.lemma_wrote_trans(b4, b0, ws4, baud_ws);
            b6.lemma_wrote_trans(b5, b0, ws4 + baud_ws, seq![w6]);
            b7.lemma_wrote_trans(b6, b0, ws4 + baud_ws + seq![w6], seq![w7]);
            result.regs.lemma_wrote_trans(b7, b0, ws4 + baud_ws + seq![w6] + seq![w7], seq![w8]);
            assert(ws4 + baud_ws + seq![w6] + seq![w7] + seq![w8] =~= new_writes(
                regs,
                device,
                baud,
                config,
                *clock_cfg,
            ));
            assert(b0.log() + new_writes(regs, device, baud, config, *clock_cfg) =~= new_writes(
                regs,
                device,
                baud,
                config,
                *clock_cfg,
            ));
        }
        result
    }

    /// Set the BAUD rate. Called during init, and can be called later to change BAUD
    /// during program execution. A USART that was enabled is disabled while BRR
    /// is written and enabled again afterwards (see [`set_baud_writes`]).
    pub fn set_baud(&mut self, baud: u32, clock_cfg: &ClockCfg)
        requires
            baud_settable(old(self).device(), old(self).config_view().oversampling, *clock_cfg, baud),
        ensures
            final(self).bus().wrote(
                old(self).bus(),
                set_baud_writes(
                    old(self).bus().image(),
                    brr_value(
                        usart_div(
                            bus_clock(old(self).device(), *clock_cfg),
                            baud,
                            old(self).config_view().oversampling,
                        ) as u32,
                        old(self).config_view().oversampling,
                    ),
                ),
            ),
            final(self).baud_view() == baud,
            final(self).config_view() == old(self).config_view(),
            final(self).device() == old(self).device(),
    {
        let ghost b0 = self.regs;
        let ghost mut bm = self.regs;
        let was_enabled = self.regs.read(UsartReg::Cr1) & CR1_UE != 0;
        if was_enabled {
            self.regs.clear_bits(UsartReg::Cr1, CR1_UE);
            proof {
                bm = self.regs;
            }
            self.regs.await_clear(UsartReg::Cr1, CR1_UE);
        }
        let ghost b1 = self.regs;
        let fclk = bus_clock_of(self.device, clock_cfg);
        // USARTDIV is an unsigned fixed point number that is coded on the USART_BRR register.
        let usart_div = match self.config.oversampling {
            OverSampling::O16 => fclk / baud,
            OverSampling::O8 => 2 * fclk / baud,
        };
        let brr = brr_of(usart_div, self.config.oversampling);
        self.regs.write(UsartReg::Brr, brr);
        let ghost b2 = self.regs;
        self.baud = baud;
        if was_enabled {
            self.regs.set_bits(UsartReg::Cr1, CR1_UE);
        }
        proof {
            let c = b0.image().cr1;
            let wb = RegOp::Write { reg: UsartReg::Brr, value: brr };
            if was_enabled {
                let w1 = RegOp::Write { reg: UsartReg::Cr1, value: c & !CR1_UE };
                let wt = RegOp::AwaitClear { reg: UsartReg::Cr1, mask: CR1_UE };
                let w3 = RegOp::Write { reg: UsartReg::Cr1, value: (c & !CR1_UE) | CR1_UE };
                lemma_after_single(b0.image(), w1);
                lemma_after_single(bm.image(), wt);
                lemma_after_single(b1.image(), wb);
                b1.lemma_wrote_trans(bm, b0, seq![w1], seq![wt]);
                b2.lemma_wrote_trans(b1, b0, seq![w1] + seq![wt], seq![wb]);
                self.regs.lemma_wrote_trans(b2, b0, seq![w1] + seq![wt] + seq![wb], seq![w3]);
                assert(seq![w1] + seq![wt] + seq![wb] + seq![w3] =~= seq![w1, wt, wb, w3]);
            }
        }
    }

    /// Enable use of DMA transmission for U[s]ART: sets DMAT, then DMAR, in CR3.
    pub fn enable_dma(&mut self, dma: &mut Dma)
        ensures
            final(self).bus().wrote(
                old(self).bus(),
                seq![
                    RegOp::Write { reg: UsartReg::Cr3, value: old(self).bus().image().cr3 | CR3_DMAT },
                    RegOp::Write {
                        reg: UsartReg::Cr3,
                        value: (old(self).bus().image().cr3 | CR3_DMAT) | CR3_DMAR,
                    },
                ],
            ),
            final(dma).requests() == old(dma).requests(),
            final(self).baud_view() == old(self).baud_view(),
            final(self).config_view() == old(self).config_view(),
            final(self).device() == old(self).device(),
    {
        let ghost b0 = self.regs;
        self.regs.set_bits(UsartReg::Cr3, CR3_DMAT);
        let ghost b1 = self.regs;
        self.regs.set_bits(UsartReg::Cr3, CR3_DMAR);
        proof {
            let w1 = RegOp::Write { reg: UsartReg::Cr3, value: b0.image().cr3 | CR3_DMAT };
            let w2 = RegOp::Write { reg: UsartReg::Cr3, value: (b0.image().cr3 | CR3_DMAT) | CR3_DMAR };
            lemma_after_single(b0.image(), w1);
            self.regs.lemma_wrote_trans(b1, b0, seq![w1], seq![w2]);
            assert(seq![w1] + seq![w2] =~= seq![w1, w2]);
        }
    }

    /// Transmit data using DMA. The channel is configured for the transfer of
    /// the bytes of `data`, which start at address `data_addr`, to the transmit
    /// data register; then the transmission complete flag is cleared (TCCF);
    /// then the channel is activated.
    pub fn write_dma(&mut self, data: &[u8], data_addr: u32, dma: &mut Dma)
        requires
            data.len() >= 1,
        ensures
            final(dma).requests() == old(dma).requests().push(
                write_dma_cfg(old(self).device(), data_addr, data@.len()),
            ),
            final(self).bus().wrote(
                old(self).bus(),
                seq![
                    RegOp::Write { reg: UsartReg::Icr, value: ICR_TCCF },
                    RegOp::StartDma { channel: tx_channel(old(self).device()) },
                ],
            ),
            final(self).baud_view() == old(self).baud_view(),
            final(self).config_view() == old(self).config_view(),
            final(self).device() == old(self).device(),
    {
        let channel = match self.device {
            UsartDevice::One => DmaChannel::C4,
            UsartDevice::Two => DmaChannel::C7,
            UsartDevice::Three => DmaChannel::C2,
        };
        // 1.-5. Destination TDR, source `data`, number of bytes, priority.
        dma.cfg_channel(
            channel,
            register_address(self.device, UsartReg::Tdr),
            data_addr,
            dma_count_of(data.len()),
            Priority::Medium,
            Direction::ReadFromMem,
            Circular::Disabled,
            IncrMode::Disabled,
            IncrMode::Enabled,
            DataSize::S8,
            DataSize::S8,
        );
        let ghost b0 = self.regs;
        // 6. Clear the TC flag in the USART_ISR register by setting the TCCF bit.
        self.regs.write(UsartReg::Icr, ICR_TCCF);
        let ghost b1 = self.regs;
        // 7. Activate the channel.
        self.regs.start_dma(channel);
        proof {
            let w1 = RegOp::Write { reg: UsartReg::Icr, value: ICR_TCCF };
            let w2 = RegOp::<UsartReg>::StartDma { channel: channel };
            self.regs.lemma_wrote_trans(b1, b0, seq![w1], seq![w2]);
            assert(seq![w1] + seq![w2] =~= seq![w1, w2]);
        }
    }

    /// Receive data using DMA. The channel is configured for the transfer from
    /// the read data register into the bytes of `buf`, which start at address
    /// `buf_addr`; then the channel is activated.
    pub fn read_dma(&mut self, buf: &[u8], buf_addr: u32, dma: &mut Dma)
        requires
            buf.len() >= 1,
        ensures
            final(dma).requests() == old(dma).requests().push(
                read_dma_cfg(old(self).device(), buf_addr, buf@.len()),
            ),
            final(self).bus().wrote(
                old(self).bus(),
                seq![RegOp::StartDma { channel: rx_channel(old(self).device()) }],
            ),
            final(self).baud_view() == old(self).baud_view(),
            final(self).config_view() == old(self).config_view(),
            final(self).device() == old(self).device(),
    {
        let channel = match self.device {
            UsartDevice::One => DmaChannel::C5,
            UsartDevice::Two => DmaChannel::C6,
            UsartDevice::Three => DmaChannel::C3,
        };
        // 1.-4. Source RDR, destination `buf`, number of bytes, priority.
        dma.cfg_channel(
            channel,
            register_address(self.device, UsartReg::Rdr),
            buf_addr,
            dma_count_of(buf.len()),
            Priority::Medium,
            Direction::ReadFromPeriph,
            Circular::Disabled,
            IncrMode::Disabled,
            IncrMode::Enabled,
            DataSize::S8,
            DataSize::S8,
        );
        // 6. Activate the channel.
        self.regs.start_dma(channel);
    }

    /// Whether the transmit buffer is flushed: transmission of the last frame
    /// is complete (ISR.TC).
    pub fn flush(&self) -> (done: bool)
        ensures
            done == (self.bus().image().isr & ISR_TC != 0),
    {
        self.regs.read(UsartReg::Isr) & ISR_TC != 0
    }

    /// Whether a received word waits in the read data register (ISR.RXNE).
    pub fn rx_not_empty(&self) -> (ready: bool)
        ensures
            ready == (self.bus().image().isr & ISR_RXNE != 0),
    {
        self.regs.read(UsartReg::Isr) & ISR_RXNE != 0
    }

    /// Reads a word if one has been received (ISR.RXNE): the low eight bits of
    /// the read data register. Reading RDR clears RXNE, so once a word is taken
    /// the image shows RXNE clear until ISR is read again.
    pub fn try_read(&mut self) -> (word: Option<u8>)
        ensures
            word == (if old(self).bus().image().isr & ISR_RXNE != 0 {
                Some((old(self).bus().image().rdr & 0xFF) as u8)
            } else {
                None::<u8>
            }),
            word is Some ==> final(self).bus().image() == rdr_taken(old(self).bus().image()),
            word is None ==> final(self).bus().image() == old(self).bus().image(),
            final(self).bus().log() == old(self).bus().log(),
            final(self).baud_view() == old(self).baud_view(),
            final(self).config_view() == old(self).config_view(),
            final(self).device() == old(self).device(),
    {
        let isr = self.regs.read(UsartReg::Isr);
        if isr & ISR_RXNE != 0 {
            let rdr = self.regs.read(UsartReg::Rdr);
            proof {
                assert(rdr & 0xFF <= 0xFF) by (bit_vector);
            }
            self.regs.observe(UsartReg::Isr, isr & !ISR_RXNE);
            Some((rdr & 0xFF) as u8)
        } else {
            None
        }
    }

    /// Writes `word` to the transmit data register if it is empty (ISR.TXE),
    /// and says whether it did. Writing TDR clears TXE and TC, so once a word is
    /// written the image shows them clear until ISR is read again.
    pub fn try_write(&mut self, word: u8) -> (written: bool)
        ensures
            written == (old(self).bus().image().isr & ISR_TXE != 0),
            written ==> final(self).bus().log() == old(self).bus().log().push(
                tdr_write(old(self).bus().image(), word),
            ),
            written ==> final(self).bus().image() == tdr_written(old(self).bus().image(), word),
            !written ==> final(self).bus().same(old(self).bus()),
            final(self).baud_view() == old(self).baud_view(),
            final(self).config_view() == old(self).config_view(),
            final(self).device() == old(self).device(),
    {
        let isr = self.regs.read(UsartReg::Isr);
        if isr & ISR_TXE != 0 {
            let ghost b0 = self.regs;
            self.regs.modify(UsartReg::Tdr, DATA_FIELD, (word as u32) & DATA_FIELD);
            proof {
                lemma_after_single(b0.image(), tdr_write(b0.image(), word));
                assert(b0.log() + seq![tdr_write(b0.image(), word)] =~= b0.log().push(
                    tdr_write(b0.image(), word),
                ));
            }
            self.regs.observe(UsartReg::Isr, isr & !(ISR_TXE | ISR_TC));
            true
        } else {
            false
        }
    }

    /// One step of transmitting `data`, as a sequence of u8, of which the first
    /// `sent` words have gone out: when a word is left and the transmit data
    /// register is empty (TXE), the next word is written to TDR and the count
    /// moves on; otherwise nothing is written. After a write the image shows
    /// TXE and TC clear, so the next word waits for a fresh read of ISR.
    pub fn write_step(&mut self, data: &[u8], sent: usize) -> (next: usize)
        requires
            sent <= data.len(),
        ensures
            sent < data.len() && old(self).bus().image().isr & ISR_TXE != 0 ==> {
                &&& next == sent + 1
                &&& final(self).bus().log() == old(self).bus().log().push(
                    tdr_write(old(self).bus().image(), data@[sent as int]),
                )
                &&& final(self).bus().image() == tdr_written(
                    old(self).bus().image(),
                    data@[sent as int],
                )
            },
            !(sent < data.len() && old(self).bus().image().isr & ISR_TXE != 0) ==> {
                &&& next == sent
                &&& final(self).bus().same(old(self).bus())
            },
            write_step_log(
                old(self).bus().log(),
                final(self).bus().log(),
                data@,
                sent as int,
                next as int,
            ),
            final(self).baud_view() == old(self).baud_view(),
            final(self).config_view() == old(self).config_view(),
            final(self).device() == old(self).device(),
    {
        if sent < data.len() && self.try_write(data[sent]) {
            sent + 1
        } else {
            sent
        }
    }

    /// Whether transmitting `data` is complete: every word has gone to TDR and
    /// transmission of the last frame is complete (TC).
    pub fn write_done(&self, data: &[u8], sent: usize) -> (done: bool)
        ensures
            done == (sent == data.len() && self.bus().image().isr & ISR_TC != 0),
    {
        sent == data.len() && self.flush()
    }

    /// One step of receiving into `buf`, of which the first `filled` words are
    /// in: when room is left and a word has been received (RXNE), the low eight
    /// bits of RDR go to `buf[filled]` and the count moves on, and the image
    /// shows RXNE clear until ISR is read again; otherwise nothing changes.
    pub fn read_step(&mut self, buf: &mut Vec<u8>, filled: usize) -> (next: usize)
        ensures
            filled < old(buf).len() && old(self).bus().image().isr & ISR_RXNE != 0 ==> {
                &&& final(buf)@ == old(buf)@.update(
                    filled as int,
                    (old(self).bus().image().rdr & 0xFF) as u8,
                )
                &&& next == filled + 1
                &&& final(self).bus().image() == rdr_taken(old(self).bus().image())
            },
            !(filled < old(buf).len() && old(self).bus().image().isr & ISR_RXNE != 0) ==> {
                &&& final(buf)@ == old(buf)@
                &&& next == filled
                &&& final(self).bus().image() == old(self).bus().image()
            },
            read_step_buf(
                old(buf)@,
                final(buf)@,
                old(self).bus().image().rdr,
                filled as int,
                next as int,
            ),
            final(self).bus().log() == old(self).bus().log(),
            final(self).baud_view() == old(self).baud_view(),
            final(self).config_view() == old(self).config_view(),
            final(self).device() == old(self).device(),
    {
        if filled < buf.len() {
            match self.try_read() {
                Some(word) => {
                    buf.set(filled, word);
                    filled + 1
                },
                None => filled,
            }
        } else {
            filled
        }
    }

    /// Enable a specific type of interrupt: the USART is disabled while the
    /// interrupt is set up and enabled afterwards (see [`enable_interrupt_writes`]).
    pub fn enable_interrupt(&mut self, interrupt_type: UsartInterrupt)
        ensures
            final(self).bus().wrote(
                old(self).bus(),
                enable_interrupt_writes(old(self).bus().image(), interrupt_type),
            ),
            final(self).baud_view() == old(self).baud_view(),
            final(self).config_view() == old(self).config_view(),
            final(self).device() == old(self).device(),
    {
        let ghost b0 = self.regs;
        // Disable the UART to allow writing the `add` and `addm7` bits
        self.regs.clear_bits(UsartReg::Cr1, CR1_UE);
        let ghost b1a = self.regs;
        self.regs.await_clear(UsartReg::Cr1, CR1_UE);
        let ghost b1 = self.regs;
        let (reg, bit) = enable_bit_of(interrupt_type);
        self.regs.set_bits(reg, bit);
        let ghost b2 = self.regs;
        match interrupt_type {
            UsartInterrupt::CharDetect(ch) => {
                let cr2 = self.regs.read(UsartReg::Cr2);
                self.regs.write(UsartReg::Cr2, char_detect_value(cr2, ch));
            },
            _ => {},
        }
        let ghost b3 = self.regs;
        self.regs.set_bits(UsartReg::Cr1, CR1_UE);
        proof {
            let c1 = b0.image().cr1 & !CR1_UE;
            let w1 = RegOp::Write { reg: UsartReg::Cr1, value: c1 };
            let wt = RegOp::AwaitClear { reg: UsartReg::Cr1, mask: CR1_UE };
            let w2 = RegOp::Write { reg: reg, value: b1.image().value_of(reg) | bit };
            lemma_after_single(b0.image(), w1);
            lemma_after_single(b1a.image(), wt);
            lemma_after_single(b1.image(), w2);
            let detect = match interrupt_type {
                UsartInterrupt::CharDetect(ch) => seq![
                    RegOp::Write { reg: UsartReg::Cr2, value: char_detect_cr2(b2.image().cr2, ch) },
                ],
                _ => Seq::empty(),
            };
            match interrupt_type {
                UsartInterrupt::CharDetect(ch) => {},
                _ => {
                    b2.lemma_wrote_nothing();
                    assert(b3.log() == b2.log());
                    assert(b3.wrote(b2, detect));
                },
            }
            let w4 = RegOp::Write { reg: UsartReg::Cr1, value: b3.image().cr1 | CR1_UE };
            b1.lemma_wrote_trans(b1a, b0, seq![w1], seq![wt]);
            b2.lemma_wrote_trans(b1, b0, seq![w1] + seq![wt], seq![w2]);
            b3.lemma_wrote_trans(b2, b0, seq![w1] + seq![wt] + seq![w2], detect);
            self.regs.lemma_wrote_trans(b3, b0, seq![w1] + seq![wt] + seq![w2] + detect, seq![w4]);
            assert(seq![w1] + seq![wt] + seq![w2] + detect + seq![w4] =~= enable_interrupt_writes(
                b0.image(),
                interrupt_type,
            ));
        }
    }

    /// Clears the interrupt pending flag for a specific type of interrupt: writes
    /// the interrupt's clear bit to ICR (or its flush request bit to RQR).
    pub fn clear_interrupt(&mut self, interrupt_type: UsartInterrupt)
        ensures
            final(self).bus().wrote(
                old(self).bus(),
                seq![
                    RegOp::Write {
                        reg: interrupt_clear_bit(interrupt_type).0,
                        value: interrupt_clear_bit(interrupt_type).1,
                    },
                ],
            ),
            final(self).baud_view() == old(self).baud_view(),
            final(self).config_view() == old(self).config_view(),
            final(self).device() == old(self).device(),
    {
        let (reg, bit) = clear_bit_of(interrupt_type);
        self.regs.write(reg, bit);
    }

    /// Records that the hardware shows `value` in `reg`, as read back from it.
    pub fn observe(&mut self, reg: UsartReg, value: u32)
        ensures
            final(self).bus().image() == old(self).bus().image().with_value(reg, value),
            final(self).bus().log() == old(self).bus().log(),
            final(self).baud_view() == old(self).baud_view(),
            final(self).config_view() == old(self).config_view(),
            final(self).device() == old(self).device(),
    {
        self.regs.observe(reg, value);
    }

    /// Hands out the register writes issued so far, oldest first, and forgets them.
    pub fn take_writes(&mut self) -> (ws: Vec<RegOp<UsartReg>>)
        ensures
            ws@ == old(self).bus().log(),
            final(self).bus().image() == old(self).bus().image(),
            final(self).bus().log() == Seq::<RegOp<UsartReg>>::empty(),
            final(self).baud_view() == old(self).baud_view(),
            final(self).config_view() == old(self).config_view(),
            final(self).device() == old(self).device(),
    {
        self.regs.take_writes()
    }

    /// The current register values.
    pub fn registers(&self) -> (regs: UsartRegisters)
        ensures
            regs == self.bus().image(),
    {
        self.regs.registers()
    }

    /// Which USART this is.
    pub fn usart_device(&self) -> (device: UsartDevice)
        ensures
            device == self.device(),
    {
        self.device
    }
}

} // verus!
