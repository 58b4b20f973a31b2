use stm32_hal::ipcc::{register_address, Core, Ipcc, IpccChannel, IpccReg, IpccRegisters};
use stm32_hal::rcc::{Rcc, RccReg, RccRegisters};
use stm32_hal::regs::RegOp;

fn rcc() -> Rcc {
    Rcc::new(RccRegisters {
        ahb3rstr: 0,
        apb1rstr1: 0,
        apb2rstr: 0,
        ahb3enr: 0x0000_0100,
        apb1enr1: 0,
        apb2enr: 0,
    })
}

fn regs() -> IpccRegisters {
    IpccRegisters {
        c1cr: 0,
        c1mr: 0x003F_003F,
        c1scr: 0,
        c1toc2sr: 0,
        c2cr: 0,
        c2mr: 0x003F_003F,
        c2scr: 0,
        c2toc1sr: 0,
    }
}

fn ipcc() -> Ipcc {
    let mut rcc = rcc();
    Ipcc::new(regs(), &mut rcc)
}

fn w(reg: IpccReg, value: u32) -> RegOp<IpccReg> {
    RegOp::Write { reg, value }
}

#[test]
fn new_enables_clock_and_pulses_reset() {
    let mut rcc = rcc();
    let mut ipcc = Ipcc::new(regs(), &mut rcc);
    assert_eq!(
        rcc.take_writes(),
        vec![
            RegOp::Write { reg: RccReg::Ahb3Enr, value: 0x0010_0100 },
            RegOp::Write { reg: RccReg::Ahb3Rstr, value: 0x0010_0000 },
            RegOp::Write { reg: RccReg::Ahb3Rstr, value: 0 },
        ]
    );
    assert_eq!(rcc.registers().ahb3enr, 0x0010_0100);
    assert_eq!(rcc.registers().ahb3rstr, 0);
    assert_eq!(ipcc.registers(), regs());
    assert!(ipcc.take_writes().is_empty());
    assert!(!ipcc.response_pending(Core::C1, IpccChannel::C1));
}

#[test]
fn ipcc_new_starts_from_reset_values() {
    let mut rcc = rcc();
    let mut start = regs();
    start.c1mr = 0;
    start.c2cr = 0x0001_0001;
    start.c1toc2sr = 0x3;
    let mut ipcc = Ipcc::new(start, &mut rcc);
    let r = ipcc.registers();
    assert_eq!(r.c1mr, 0x003F_003F);
    assert_eq!(r.c2cr, 0);
    assert_eq!(r.c1toc2sr, 0x3);
    ipcc.receive_simplex(Core::C1, IpccChannel::C1);
    assert_eq!(ipcc.take_writes(), vec![w(IpccReg::C1Mr, 0x003F_003E)]);
}

#[test]
fn send_simplex_sets_status_on_free_channel() {
    let mut ipcc = ipcc();
    ipcc.send_simplex(Core::C1, IpccChannel::C2, &[1, 2, 3]);
    assert_eq!(ipcc.take_writes(), vec![w(IpccReg::C1Scr, 0x0002_0000)]);
    assert_eq!(ipcc.registers().c1mr, 0x003F_003F);
}

#[test]
fn send_simplex_unmasks_free_interrupt_on_occupied_channel() {
    let mut ipcc = ipcc();
    ipcc.observe(IpccReg::C2ToC1Sr, 0x2);
    ipcc.send_simplex(Core::C2, IpccChannel::C2, &[1, 2, 3]);
    assert_eq!(ipcc.take_writes(), vec![w(IpccReg::C2Mr, 0x003D_003F)]);
    assert_eq!(ipcc.registers().c2mr & 0x0002_0000, 0);
}

#[test]
fn receive_simplex_unmasks_occupied_interrupt() {
    let mut ipcc = ipcc();
    ipcc.receive_simplex(Core::C1, IpccChannel::C3);
    assert_eq!(ipcc.take_writes(), vec![w(IpccReg::C1Mr, 0x003F_003B)]);
    ipcc.receive_simplex(Core::C2, IpccChannel::C6);
    assert_eq!(ipcc.take_writes(), vec![w(IpccReg::C2Mr, 0x003F_001F)]);
    assert_eq!(ipcc.registers().c1mr, 0x003F_003B);
    assert_eq!(ipcc.registers().c2mr, 0x003F_001F);
}

#[test]
fn receive_simplex_twice_is_once() {
    let mut ipcc = ipcc();
    ipcc.receive_simplex(Core::C1, IpccChannel::C1);
    let once = ipcc.registers();
    ipcc.receive_simplex(Core::C1, IpccChannel::C1);
    assert_eq!(ipcc.registers(), once);
}

#[test]
fn send_half_duplex_posts_on_free_channel() {
    let mut ipcc = ipcc();
    assert!(ipcc.send_half_duplex(Core::C1, IpccChannel::C4, &[7]));
    assert_eq!(
        ipcc.take_writes(),
        vec![w(IpccReg::C1Scr, 0x0008_0000), w(IpccReg::C1Mr, 0x0037_003F)]
    );
}

#[test]
fn send_half_duplex_waits_on_occupied_channel() {
    let mut ipcc = ipcc();
    ipcc.observe(IpccReg::C2ToC1Sr, 0x0000_0001);
    assert!(!ipcc.send_half_duplex(Core::C2, IpccChannel::C1, &[7]));
    assert!(ipcc.take_writes().is_empty());
    ipcc.observe(IpccReg::C2ToC1Sr, 0);
    assert!(ipcc.send_half_duplex(Core::C2, IpccChannel::C1, &[7]));
    assert_eq!(
        ipcc.take_writes(),
        vec![w(IpccReg::C2Scr, 0x0001_0000), w(IpccReg::C2Mr, 0x003E_003F)]
    );
}

#[test]
fn send_response_half_duplex_waits_for_occupied_channel() {
    let mut ipcc = ipcc();
    assert!(!ipcc.send_response_half_duplex(Core::C1, IpccChannel::C2, &[]));
    assert!(ipcc.take_writes().is_empty());
    ipcc.observe(IpccReg::C1ToC2Sr, 0x0000_0002);
    assert!(ipcc.send_response_half_duplex(Core::C1, IpccChannel::C2, &[]));
    assert_eq!(
        ipcc.take_writes(),
        vec![w(IpccReg::C1Scr, 0x0000_0002), w(IpccReg::C1Mr, 0x003D_003D)]
    );
}

#[test]
fn exactly_one_of_send_and_response_posts() {
    for status in [0u32, 0x20] {
        let mut a = ipcc();
        let mut b = ipcc();
        a.observe(IpccReg::C1ToC2Sr, status);
        b.observe(IpccReg::C1ToC2Sr, status);
        let sent = a.send_half_duplex(Core::C1, IpccChannel::C6, &[]);
        let answered = b.send_response_half_duplex(Core::C1, IpccChannel::C6, &[]);
        assert!(sent != answered);
    }
}

#[test]
fn receive_half_duplex_sets_response_pending_only() {
    let mut ipcc = ipcc();
    assert!(!ipcc.response_pending(Core::C2, IpccChannel::C5));
    ipcc.receive_half_duplex(Core::C2, IpccChannel::C5);
    assert!(ipcc.take_writes().is_empty());
    assert_eq!(ipcc.registers(), regs());
    assert!(ipcc.response_pending(Core::C2, IpccChannel::C5));
    assert!(!ipcc.response_pending(Core::C1, IpccChannel::C5));
    assert!(!ipcc.response_pending(Core::C2, IpccChannel::C4));
}

#[test]
fn posted_response_clears_response_pending() {
    let mut ipcc = ipcc();
    ipcc.receive_half_duplex(Core::C1, IpccChannel::C3);
    assert!(!ipcc.send_response_half_duplex(Core::C1, IpccChannel::C3, &[]));
    assert!(ipcc.response_pending(Core::C1, IpccChannel::C3));
    ipcc.observe(IpccReg::C1ToC2Sr, 0x4);
    assert!(ipcc.send_response_half_duplex(Core::C1, IpccChannel::C3, &[]));
    assert!(!ipcc.response_pending(Core::C1, IpccChannel::C3));
}

#[test]
fn channel_is_free_reads_flag() {
    let mut ipcc = ipcc();
    assert!(ipcc.channel_is_free(Core::C1, IpccChannel::C3));
    ipcc.observe(IpccReg::C1ToC2Sr, 0x0000_0004);
    assert!(!ipcc.channel_is_free(Core::C1, IpccChannel::C3));
    assert!(ipcc.channel_is_free(Core::C1, IpccChannel::C2));
    assert!(ipcc.channel_is_free(Core::C2, IpccChannel::C3));
    assert!(ipcc.take_writes().is_empty());
}

#[test]
fn other_channels_keep_their_bits() {
    let mut ipcc = ipcc();
    ipcc.observe(IpccReg::C1ToC2Sr, 0);
    ipcc.send_half_duplex(Core::C1, IpccChannel::C2, &[]);
    ipcc.receive_simplex(Core::C1, IpccChannel::C5);
    let mr = ipcc.registers().c1mr;
    for (i, keep) in [(0u32, true), (1, false), (2, true), (3, true), (4, true), (5, true)] {
        assert_eq!(mr & (1 << (i + 16)) != 0, keep);
    }
    assert_eq!(mr & 0x3F, 0x2F);
}

#[test]
fn ipcc_register_addresses() {
    assert_eq!(register_address(IpccReg::C1Cr), 0x5800_0C00);
    assert_eq!(register_address(IpccReg::C1Scr), 0x5800_0C08);
    assert_eq!(register_address(IpccReg::C2ToC1Sr), 0x5800_0C1C);
}
