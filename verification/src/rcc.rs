//! The reset and clock control (RCC) registers that the drivers touch.

use vstd::prelude::*;
use crate::regs::{lemma_after_single, Bus, RegOp, RegisterFile};

verus! {

/// The RCC registers that enable and reset peripherals.
#[derive(Clone, Copy, Debug, PartialEq, Eq, Structural)]
pub enum RccReg {
    Ahb3Rstr,
    Apb1Rstr1,
    Apb2Rstr,
    Ahb3Enr,
    Apb1Enr1,
    Apb2Enr,
}

/// The values of the RCC registers in [`RccReg`].
#[derive(Clone, Copy, Debug, PartialEq, Eq, Structural)]
pub struct RccRegisters {
    pub ahb3rstr: u32,
    pub apb1rstr1: u32,
    pub apb2rstr: u32,
    pub ahb3enr: u32,
    pub apb1enr1: u32,
    pub apb2enr: u32,
}

impl RegisterFile for RccRegisters {
    type Reg = RccReg;

    open spec fn value_of(self, reg: RccReg) -> u32 {
        match reg {
            RccReg::Ahb3Rstr => self.ahb3rstr,
            RccReg::Apb1Rstr1 => self.apb1rstr1,
            RccReg::Apb2Rstr => self.apb2rstr,
            RccReg::Ahb3Enr => self.ahb3enr,
            RccReg::Apb1Enr1 => self.apb1enr1,
            RccReg::Apb2Enr => self.apb2enr,
        }
    }

    open spec fn with_value(self, reg: RccReg, value: u32) -> RccRegisters {
        match reg {
            RccReg::Ahb3Rstr => RccRegisters { ahb3rstr: value, ..self },
            RccReg::Apb1Rstr1 => RccRegisters { apb1rstr1: value, ..self },
            RccReg::Apb2Rstr => RccRegisters { apb2rstr: value, ..self },
            RccReg::Ahb3Enr => RccRegisters { ahb3enr: value, ..self },
            RccReg::Apb1Enr1 => RccRegisters { apb1enr1: value, ..self },
            RccReg::Apb2Enr => RccRegisters { apb2enr: value, ..self },
        }
    }

    fn read(&self, reg: RccReg) -> (v: u32) {
        match reg {
            RccReg::Ahb3Rstr => self.ahb3rstr,
            RccReg::Apb1Rstr1 => self.apb1rstr1,
            RccReg::Apb2Rstr => self.apb2rstr,
            RccReg::Ahb3Enr => self.ahb3enr,
            RccReg::Apb1Enr1 => self.apb1enr1,
            RccReg::Apb2Enr => self.apb2enr,
        }
    }

    fn store(&mut self, reg: RccReg, value: u32) {
        match reg {
            RccReg::Ahb3Rstr => self.ahb3rstr = value,
            RccReg::Apb1Rstr1 => self.apb1rstr1 = value,
            RccReg::Apb2Rstr => self.apb2rstr = value,
            RccReg::Ahb3Enr => self.ahb3enr = value,
            RccReg::Apb1Enr1 => self.apb1enr1 = value,
            RccReg::Apb2Enr => self.apb2enr = value,
        }
    }
}

/// The RCC peripheral as the drivers see it.
pub type Rcc = Bus<RccRegisters>;

/// Where the RCC register block starts.
pub const RCC_BASE: u32 = 0x5800_0000;

/// The offset of a register from the start of the RCC register block.
pub open spec fn register_offset(reg: RccReg) -> u32 {
    match reg {
        RccReg::Ahb3Rstr => 0x30,
        RccReg::Apb1Rstr1 => 0x38,
        RccReg::Apb2Rstr => 0x40,
        RccReg::Ahb3Enr => 0x50,
        RccReg::Apb1Enr1 => 0x58,
        RccReg::Apb2Enr => 0x60,
    }
}

/// The address of an RCC register.
pub fn register_address(reg: RccReg) -> (addr: u32)
    ensures
        addr == RCC_BASE + register_offset(reg),
{
    let offset: u32 = match reg {
        RccReg::Ahb3Rstr => 0x30,
        RccReg::Apb1Rstr1 => 0x38,
        RccReg::Apb2Rstr => 0x40,
        RccReg::Ahb3Enr => 0x50,
        RccReg::Apb1Enr1 => 0x58,
        RccReg::Apb2Enr => 0x60,
    };
    RCC_BASE + offset
}

/// AHB3ENR.IPCCEN and AHB3RSTR.IPCCRST.
pub const IPCC_BIT: u32 = 0x0010_0000;

/// APB2ENR.USART1EN and APB2RSTR.USART1RST.
pub const USART1_BIT: u32 = 0x0000_4000;

/// APB1ENR1.USART2EN and APB1RSTR1.USART2RST.
pub const USART2_BIT: u32 = 0x0002_0000;

/// APB1ENR1.USART3EN and APB1RSTR1.USART3RST.
pub const USART3_BIT: u32 = 0x0004_0000;

/// The writes that enable a peripheral's clock in `enr` and pulse its reset
/// bit in `rstr`, where `mask` is the peripheral's bit in both registers.
pub open spec fn enable_reset_writes(
    regs: RccRegisters,
    enr: RccReg,
    rstr: RccReg,
    mask: u32,
) -> Seq<RegOp<RccReg>> {
    seq![
        RegOp::Write { reg: enr, value: regs.value_of(enr) | mask },
        RegOp::Write { reg: rstr, value: regs.value_of(rstr) | mask },
        RegOp::Write { reg: rstr, value: (regs.value_of(rstr) | mask) & !mask },
    ]
}

/// Enables the clock of a peripheral, then sets and clears its reset bit.
pub fn enable_reset(rcc: &mut Rcc, enr: RccReg, rstr: RccReg, mask: u32)
    requires
        enr != rstr,
    ensures
        final(rcc).wrote(*old(rcc), enable_reset_writes(old(rcc).image(), enr, rstr, mask)),
{
    let ghost r0 = *rcc;
    rcc.set_bits(enr, mask);
    let ghost r1 = *rcc;
    rcc.set_bits(rstr, mask);
    let ghost r2 = *rcc;
    rcc.clear_bits(rstr, mask);
    proof {
        let w1 = RegOp::Write { reg: enr, value: r0.image().value_of(enr) | mask };
        let w2 = RegOp::Write { reg: rstr, value: r1.image().value_of(rstr) | mask };
        let w3 = RegOp::Write { reg: rstr, value: r2.image().value_of(rstr) & !mask };
        lemma_after_single(r0.image(), w1);
        lemma_after_single(r1.image(), w2);
        r2.lemma_wrote_trans(r1, r0, seq![w1], seq![w2]);
        rcc.lemma_wrote_trans(r2, r0, seq![w1] + seq![w2], seq![w3]);
        assert(seq![w1] + seq![w2] + seq![w3] =~= enable_reset_writes(r0.image(), enr, rstr, mask));
    }
}

} // verus!
