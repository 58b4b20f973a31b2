//! A peripheral's register file and the ordered writes issued to it.

use vstd::prelude::*;
use crate::dma::DmaChannel;

verus! {

/// One step a driver asks of the hardware, named by the peripheral's registers `R`.
#[derive(Clone, Copy, Debug, PartialEq, Eq)]
pub enum RegOp<R> {
    /// Write `value` to `reg`.
    Write { reg: R, value: u32 },
    /// Wait until the hardware shows the bits of `mask` clear in `reg`.
    AwaitClear { reg: R, mask: u32 },
    /// Activate a DMA channel already configured for a transfer.
    StartDma { channel: DmaChannel },
}

/// The register image once `op` has been carried out on `regs`: a write
/// changes the register written; a wait or a DMA start changes none.
pub open spec fn apply_op<F: RegisterFile>(regs: F, op: RegOp<F::Reg>) -> F {
    match op {
        RegOp::Write { reg, value } => regs.with_value(reg, value),
        RegOp::AwaitClear { .. } => regs,
        RegOp::StartDma { .. } => regs,
    }
}

/// The registers of one peripheral, each a 32-bit word, named by `Reg`.
pub trait RegisterFile: Sized + Copy {
    type Reg: Copy;

    /// The value the register `reg` holds.
    spec fn value_of(self, reg: Self::Reg) -> u32;

    /// The same registers, with `reg` holding `value`.
    spec fn with_value(self, reg: Self::Reg, value: u32) -> Self;

    fn read(&self, reg: Self::Reg) -> (v: u32)
        ensures
            v == self.value_of(reg),
    ;

    fn store(&mut self, reg: Self::Reg, value: u32)
        ensures
            *final(self) == old(self).with_value(reg, value),
    ;
}

/// The register image reached from `regs` by carrying out the steps `ws` in order.
pub open spec fn after<F: RegisterFile>(regs: F, ws: Seq<RegOp<F::Reg>>) -> F
    decreases ws.len(),
{
    if ws.len() == 0 {
        regs
    } else {
        apply_op(after(regs, ws.drop_last()), ws.last())
    }
}

pub proof fn lemma_after_single<F: RegisterFile>(regs: F, w: RegOp<F::Reg>)
    ensures
        after(regs, seq![w]) == apply_op(regs, w),
{
    assert(seq![w].drop_last() =~= Seq::<RegOp<F::Reg>>::empty());
    assert(after(regs, Seq::<RegOp<F::Reg>>::empty()) == regs);
}

pub proof fn lemma_after_concat<F: RegisterFile>(
    regs: F,
    ws1: Seq<RegOp<F::Reg>>,
    ws2: Seq<RegOp<F::Reg>>,
)
    ensures
        after(after(regs, ws1), ws2) == after(regs, ws1 + ws2),
    decreases ws2.len(),
{
    if ws2.len() == 0 {
        assert(ws1 + ws2 =~= ws1);
    } else {
        lemma_after_concat(regs, ws1, ws2.drop_last());
        assert((ws1 + ws2).drop_last() =~= ws1 + ws2.drop_last());
        assert((ws1 + ws2).last() == ws2.last());
    }
}

/// `v` with the bits of `mask` set when `on` holds, cleared otherwise.
pub open spec fn with_bits(v: u32, mask: u32, on: bool) -> u32 {
    if on {
        v | mask
    } else {
        v & !mask
    }
}

/// A peripheral as the driver sees it: the last known value of each register
/// and every write issued to it, oldest first.
pub struct Bus<F: RegisterFile> {
    regs: F,
    writes: Vec<RegOp<F::Reg>>,
}

impl<F: RegisterFile> Bus<F> {
    /// The current register image.
    pub closed spec fn image(&self) -> F {
        self.regs
    }

    /// The writes issued so far, oldest first.
    pub closed spec fn log(&self) -> Seq<RegOp<F::Reg>> {
        self.writes@
    }

    /// `self` is `before` after it has issued the writes `ws`, in order.
    pub open spec fn wrote(self, before: Self, ws: Seq<RegOp<F::Reg>>) -> bool {
        &&& self.log() == before.log() + ws
        &&& self.image() == after(before.image(), ws)
    }

    /// `self` holds the same registers and writes as `other`.
    pub open spec fn same(self, other: Self) -> bool {
        self.image() == other.image() && self.log() == other.log()
    }

    pub proof fn lemma_wrote_nothing(self)
        ensures
            self.wrote(self, Seq::empty()),
    {
        assert(self.log() + Seq::empty() =~= self.log());
    }

    /// Writes issued one after another add up.
    pub proof fn lemma_wrote_trans(
        self,
        mid: Self,
        before: Self,
        ws1: Seq<RegOp<F::Reg>>,
        ws2: Seq<RegOp<F::Reg>>,
    )
        requires
            mid.wrote(before, ws1),
            self.wrote(mid, ws2),
        ensures
            self.wrote(before, ws1 + ws2),
    {
        lemma_after_concat(before.image(), ws1, ws2);
        assert(before.log() + (ws1 + ws2) =~= before.log() + ws1 + ws2);
    }

    /// A bus with the registers `regs` and no writes yet.
    pub fn new(regs: F) -> (bus: Self)
        ensures
            bus.image() == regs,
            bus.log() == Seq::<RegOp<F::Reg>>::empty(),
    {
        Bus { regs, writes: Vec::new() }
    }

    /// The current register image.
    pub fn registers(&self) -> (regs: F)
        ensures
            regs == self.image(),
    {
        self.regs
    }

    /// The value of `reg`.
    pub fn read(&self, reg: F::Reg) -> (v: u32)
        ensures
            v == self.image().value_of(reg),
    {
        self.regs.read(reg)
    }

    /// Writes `value` to `reg`.
    pub fn write(&mut self, reg: F::Reg, value: u32)
        ensures
            final(self).wrote(*old(self), seq![RegOp::Write { reg: reg, value: value }]),
    {
        self.regs.store(reg, value);
        self.writes.push(RegOp::Write { reg, value });
        proof {
            let w = RegOp::Write { reg: reg, value: value };
            lemma_after_single(old(self).image(), w);
            assert(old(self).log() + seq![w] =~= old(self).log().push(w));
        }
    }

    /// Reads `reg`, clears the bits of `clear`, sets the bits of `set`, and
    /// writes the result back.
    pub fn modify(&mut self, reg: F::Reg, clear: u32, set: u32)
        ensures
            final(self).wrote(
                *old(self),
                seq![RegOp::Write { reg: reg, value: (old(self).image().value_of(reg) & !clear) | set }],
            ),
    {
        let v = self.regs.read(reg);
        self.write(reg, (v & !clear) | set);
    }

    /// Sets the bits of `mask` in `reg`, keeping the others.
    pub fn set_bits(&mut self, reg: F::Reg, mask: u32)
        ensures
            final(self).wrote(
                *old(self),
                seq![RegOp::Write { reg: reg, value: old(self).image().value_of(reg) | mask }],
            ),
    {
        let v = self.regs.read(reg);
        self.write(reg, v | mask);
    }

    /// Clears the bits of `mask` in `reg`, keeping the others.
    pub fn clear_bits(&mut self, reg: F::Reg, mask: u32)
        ensures
            final(self).wrote(
                *old(self),
                seq![RegOp::Write { reg: reg, value: old(self).image().value_of(reg) & !mask }],
            ),
    {
        let v = self.regs.read(reg);
        self.write(reg, v & !mask);
    }

    /// Sets the bits of `mask` in `reg` when `on` holds and clears them
    /// otherwise, keeping the others.
    pub fn put_bits(&mut self, reg: F::Reg, mask: u32, on: bool)
        ensures
            final(self).wrote(
                *old(self),
                seq![RegOp::Write { reg: reg, value: with_bits(old(self).image().value_of(reg), mask, on) }],
            ),
    {
        if on {
            self.set_bits(reg, mask);
        } else {
            self.clear_bits(reg, mask);
        }
    }

    /// Waits until the hardware shows the bits of `mask` clear in `reg`.
    pub fn await_clear(&mut self, reg: F::Reg, mask: u32)
        ensures
            final(self).wrote(*old(self), seq![RegOp::AwaitClear { reg: reg, mask: mask }]),
    {
        self.writes.push(RegOp::AwaitClear { reg, mask });
        proof {
            let w = RegOp::AwaitClear { reg: reg, mask: mask };
            lemma_after_single(old(self).image(), w);
            assert(old(self).log() + seq![w] =~= old(self).log().push(w));
        }
    }

    /// Activates the DMA channel `channel`.
    pub fn start_dma(&mut self, channel: DmaChannel)
        ensures
            final(self).wrote(*old(self), seq![RegOp::StartDma { channel: channel }]),
    {
        self.writes.push(RegOp::StartDma { channel });
        proof {
            let w = RegOp::<F::Reg>::StartDma { channel: channel };
            lemma_after_single(old(self).image(), w);
            assert(old(self).log() + seq![w] =~= old(self).log().push(w));
        }
    }

    /// Records that `reg` was seen to hold `value`; issues no write.
    pub fn observe(&mut self, reg: F::Reg, value: u32)
        ensures
            final(self).image() == old(self).image().with_value(reg, value),
            final(self).log() == old(self).log(),
    {
        self.regs.store(reg, value);
    }

    /// Hands out the writes issued so far, oldest first, and forgets them.
    pub fn take_writes(&mut self) -> (ws: Vec<RegOp<F::Reg>>)
        ensures
            ws@ == old(self).log(),
            final(self).image() == old(self).image(),
            final(self).log() == Seq::<RegOp<F::Reg>>::empty(),
    {
        let mut out: Vec<RegOp<F::Reg>> = Vec::new();
        std::mem::swap(&mut out, &mut self.writes);
        out
    }
}

} // verus!
