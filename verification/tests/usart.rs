use stm32_hal::dma::{
    ccr_bits, channel_register_addresses, ChannelCfg, Circular, DataSize, Direction, Dma,
    DmaChannel, IncrMode, Priority,
};
use stm32_hal::rcc::{Rcc, RccReg, RccRegisters};
use stm32_hal::regs::RegOp;
use stm32_hal::usart::{
    register_address, ClockCfg, Error, OverSampling, StopBits, Usart, UsartConfig, UsartDevice,
    UsartInterrupt, UsartReg, UsartRegisters, WordLen,
};

const CLOCKS: ClockCfg = ClockCfg { apb1: 40_000_000, apb2: 80_000_000 };

fn rcc() -> Rcc {
    Rcc::new(RccRegisters {
        ahb3rstr: 0,
        apb1rstr1: 0,
        apb2rstr: 0,
        ahb3enr: 0,
        apb1enr1: 0x0000_0001,
        apb2enr: 0,
    })
}

fn zero() -> UsartRegisters {
    UsartRegisters { cr1: 0, cr2: 0, cr3: 0, brr: 0, rqr: 0, isr: 0, icr: 0, rdr: 0, tdr: 0 }
}

fn w(reg: UsartReg, value: u32) -> RegOp<UsartReg> {
    RegOp::Write { reg, value }
}

fn await_disabled() -> RegOp<UsartReg> {
    RegOp::AwaitClear { reg: UsartReg::Cr1, mask: 0x1 }
}

fn usart(device: UsartDevice, config: UsartConfig) -> Usart {
    let mut rcc = rcc();
    let mut u = Usart::new(zero(), device, 115_200, config, &CLOCKS, &mut rcc);
    u.take_writes();
    u
}

#[test]
fn default_config() {
    let c = UsartConfig::default();
    assert_eq!(c.word_len, WordLen::W8);
    assert_eq!(c.stop_bits, StopBits::S1);
    assert_eq!(c.oversampling, OverSampling::O16);
}

#[test]
fn word_len_bits() {
    assert_eq!(WordLen::W8.bits(), (0, 0));
    assert_eq!(WordLen::W9.bits(), (0, 1));
    assert_eq!(WordLen::W7.bits(), (1, 0));
}

#[test]
fn new_brings_usart1_up() {
    let mut rcc = rcc();
    let mut u = Usart::new(
        zero(),
        UsartDevice::One,
        115_200,
        UsartConfig::default(),
        &CLOCKS,
        &mut rcc,
    );
    assert_eq!(
        rcc.take_writes(),
        vec![
            RegOp::Write { reg: RccReg::Apb2Enr, value: 0x4000 },
            RegOp::Write { reg: RccReg::Apb2Rstr, value: 0x4000 },
            RegOp::Write { reg: RccReg::Apb2Rstr, value: 0 },
        ]
    );
    assert_eq!(u.baud, 115_200);
    assert_eq!(u.usart_device(), UsartDevice::One);
    assert_eq!(
        u.take_writes(),
        vec![
            w(UsartReg::Cr1, 0),
            await_disabled(),
            w(UsartReg::Cr1, 0),
            w(UsartReg::Cr1, 0),
            w(UsartReg::Cr1, 0),
            w(UsartReg::Brr, 694),
            w(UsartReg::Cr2, 0),
            w(UsartReg::Cr1, 0x1),
            w(UsartReg::Cr1, 0xD),
        ]
    );
    let r = u.registers();
    assert_eq!(r.cr1, 0xD);
    assert_eq!(r.brr, 694);
}

#[test]
fn new_with_other_config() {
    let mut rcc = rcc();
    let config = UsartConfig {
        word_len: WordLen::W9,
        stop_bits: StopBits::S2,
        oversampling: OverSampling::O8,
    };
    let mut start = zero();
    start.cr1 = 0x1000_0001;
    start.cr2 = 0x0000_1000;
    let mut u = Usart::new(start, UsartDevice::Three, 9_600, config, &CLOCKS, &mut rcc);
    assert_eq!(
        rcc.take_writes(),
        vec![
            RegOp::Write { reg: RccReg::Apb1Enr1, value: 0x0004_0001 },
            RegOp::Write { reg: RccReg::Apb1Rstr1, value: 0x0004_0000 },
            RegOp::Write { reg: RccReg::Apb1Rstr1, value: 0 },
        ]
    );
    assert_eq!(
        u.take_writes(),
        vec![
            w(UsartReg::Cr1, 0),
            await_disabled(),
            w(UsartReg::Cr1, 0x0000_8000),
            w(UsartReg::Cr1, 0x0000_8000),
            w(UsartReg::Cr1, 0x0000_9000),
            w(UsartReg::Brr, 0x2086),
            w(UsartReg::Cr2, 0x0000_2000),
            w(UsartReg::Cr1, 0x0000_9001),
            w(UsartReg::Cr1, 0x0000_900D),
        ]
    );
}

#[test]
fn usart_new_starts_from_reset_values() {
    let mut rcc = rcc();
    let mut start = zero();
    start.cr1 = 0xFFFF_FFFF;
    start.cr2 = 0xFFFF_FFFF;
    start.cr3 = 0x0000_00C0;
    start.brr = 0x1234;
    let u = Usart::new(start, UsartDevice::One, 115_200, UsartConfig::default(), &CLOCKS, &mut rcc);
    let r = u.registers();
    assert_eq!(r.cr1, 0xD);
    assert_eq!(r.cr2, 0);
    assert_eq!(r.cr3, 0);
    assert_eq!(r.brr, 694);
}

#[test]
fn set_baud_toggles_enabled_usart() {
    let mut u = usart(UsartDevice::Two, UsartConfig::default());
    assert_eq!(u.registers().cr1, 0xD);
    u.set_baud(9_600, &CLOCKS);
    assert_eq!(u.baud, 9_600);
    assert_eq!(
        u.take_writes(),
        vec![
            w(UsartReg::Cr1, 0xC),
            await_disabled(),
            w(UsartReg::Brr, 4_166),
            w(UsartReg::Cr1, 0xD),
        ]
    );
    assert_eq!(u.registers().cr1, 0xD);
}

#[test]
fn set_baud_on_disabled_usart_writes_brr_only() {
    let mut u = usart(UsartDevice::One, UsartConfig::default());
    u.observe(UsartReg::Cr1, 0xC);
    u.set_baud(57_600, &CLOCKS);
    assert_eq!(u.take_writes(), vec![w(UsartReg::Brr, 1_388)]);
    assert_eq!(u.registers().cr1, 0xC);
}

#[test]
fn enable_interrupt_sets_bit_with_usart_off() {
    let mut u = usart(UsartDevice::One, UsartConfig::default());
    u.enable_interrupt(UsartInterrupt::TransmissionComplete);
    assert_eq!(
        u.take_writes(),
        vec![
            w(UsartReg::Cr1, 0xC),
            await_disabled(),
            w(UsartReg::Cr1, 0x4C),
            w(UsartReg::Cr1, 0x4D),
        ]
    );
    u.enable_interrupt(UsartInterrupt::Cts);
    assert_eq!(
        u.take_writes(),
        vec![
            w(UsartReg::Cr1, 0x4C),
            await_disabled(),
            w(UsartReg::Cr3, 0x400),
            w(UsartReg::Cr1, 0x4D),
        ]
    );
    u.enable_interrupt(UsartInterrupt::LineBreak);
    assert_eq!(u.registers().cr2, 0x40);
    u.enable_interrupt(UsartInterrupt::Tcbgt);
    assert_eq!(u.registers().cr3, 0x0100_0400);
}

#[test]
fn enable_char_detect() {
    let mut u = usart(UsartDevice::One, UsartConfig::default());
    u.enable_interrupt(UsartInterrupt::CharDetect(0xA5));
    assert_eq!(
        u.take_writes(),
        vec![
            w(UsartReg::Cr1, 0xC),
            await_disabled(),
            w(UsartReg::Cr1, 0x400C),
            w(UsartReg::Cr2, 0xA500_0010),
            w(UsartReg::Cr1, 0x400D),
        ]
    );
    u.enable_interrupt(UsartInterrupt::CharDetect(b'A'));
    assert_eq!(u.registers().cr2 >> 24, 0x41);
}

#[test]
fn clear_interrupt_writes_one_flag() {
    let cases = [
        (UsartInterrupt::CharDetect(3), UsartReg::Icr, 0x0002_0000),
        (UsartInterrupt::Cts, UsartReg::Icr, 0x200),
        (UsartInterrupt::EndOfBlock, UsartReg::Icr, 0x1000),
        (UsartInterrupt::Idle, UsartReg::Icr, 0x10),
        (UsartInterrupt::FramingError, UsartReg::Icr, 0x2),
        (UsartInterrupt::LineBreak, UsartReg::Icr, 0x100),
        (UsartInterrupt::Overrun, UsartReg::Icr, 0x8),
        (UsartInterrupt::ParityError, UsartReg::Icr, 0x1),
        (UsartInterrupt::ReadNotEmpty, UsartReg::Rqr, 0x8),
        (UsartInterrupt::ReceiverTimeout, UsartReg::Icr, 0x800),
        (UsartInterrupt::Tcbgt, UsartReg::Icr, 0x80),
        (UsartInterrupt::TransmissionComplete, UsartReg::Icr, 0x40),
        (UsartInterrupt::TransmitEmpty, UsartReg::Rqr, 0x10),
    ];
    for (interrupt, reg, bit) in cases {
        let mut u = usart(UsartDevice::One, UsartConfig::default());
        u.clear_interrupt(interrupt);
        assert_eq!(u.take_writes(), vec![w(reg, bit)]);
    }
}

#[test]
fn enable_dma_sets_dmat_then_dmar() {
    let mut u = usart(UsartDevice::One, UsartConfig::default());
    let mut dma = Dma::new();
    u.enable_dma(&mut dma);
    assert_eq!(u.take_writes(), vec![w(UsartReg::Cr3, 0x80), w(UsartReg::Cr3, 0xC0)]);
    assert!(dma.take_requests().is_empty());
}

#[test]
fn write_dma_clears_tc_then_starts_channel() {
    let mut u = usart(UsartDevice::Two, UsartConfig::default());
    let mut dma = Dma::new();
    u.write_dma(&[0x42, 1, 2], 0x2000_0100, &mut dma);
    assert_eq!(
        dma.take_requests(),
        vec![ChannelCfg {
            channel: DmaChannel::C7,
            periph_addr: 0x4000_4428,
            mem_addr: 0x2000_0100,
            num_data: 3,
            priority: Priority::Medium,
            direction: Direction::ReadFromMem,
            circular: Circular::Disabled,
            periph_incr: IncrMode::Disabled,
            mem_incr: IncrMode::Enabled,
            periph_size: DataSize::S8,
            mem_size: DataSize::S8,
        }]
    );
    assert_eq!(
        u.take_writes(),
        vec![w(UsartReg::Icr, 0x40), RegOp::StartDma { channel: DmaChannel::C7 }]
    );
}

#[test]
fn read_dma_requests_transfer_from_rdr() {
    let mut u = usart(UsartDevice::One, UsartConfig::default());
    let mut dma = Dma::new();
    let buf = vec![9u8; 70_000];
    u.read_dma(&buf, 0x2000_4000, &mut dma);
    assert_eq!(
        dma.take_requests(),
        vec![ChannelCfg {
            channel: DmaChannel::C5,
            periph_addr: 0x4001_3824,
            mem_addr: 0x2000_4000,
            num_data: 4_464,
            priority: Priority::Medium,
            direction: Direction::ReadFromPeriph,
            circular: Circular::Disabled,
            periph_incr: IncrMode::Disabled,
            mem_incr: IncrMode::Enabled,
            periph_size: DataSize::S8,
            mem_size: DataSize::S8,
        }]
    );
    assert_eq!(u.take_writes(), vec![RegOp::StartDma { channel: DmaChannel::C5 }]);
}

#[test]
fn dma_channel_register_values() {
    let cfg = ChannelCfg {
        channel: DmaChannel::C4,
        periph_addr: 0x4001_3828,
        mem_addr: 0x2000_0000,
        num_data: 5,
        priority: Priority::Medium,
        direction: Direction::ReadFromMem,
        circular: Circular::Disabled,
        periph_incr: IncrMode::Disabled,
        mem_incr: IncrMode::Enabled,
        periph_size: DataSize::S8,
        mem_size: DataSize::S8,
    };
    assert_eq!(ccr_bits(&cfg), 0x1090);
    assert_eq!(
        channel_register_addresses(DmaChannel::C4),
        (0x4002_0044, 0x4002_0048, 0x4002_004C, 0x4002_0050)
    );
}

#[test]
fn set_baud_with_oversampling_by_8_encodes_brr() {
    let mut rcc = rcc();
    let config = UsartConfig {
        word_len: WordLen::W8,
        stop_bits: StopBits::S1,
        oversampling: OverSampling::O8,
    };
    let clocks = ClockCfg { apb1: 1, apb2: 17 };
    let mut u = Usart::new(zero(), UsartDevice::One, 2, config, &clocks, &mut rcc);
    assert_eq!(u.registers().brr, 0x10);
    u.take_writes();
    u.set_baud(1, &clocks);
    assert_eq!(u.registers().brr, 0x21);
    assert_eq!(u.baud, 1);
}

#[test]
fn write_steps_send_data_in_order() {
    let mut u = usart(UsartDevice::One, UsartConfig::default());
    let data = [b'h', b'i', b'!'];
    let mut sent = 0;
    let mut words = Vec::new();
    assert_eq!(u.write_step(&data, sent), 0);
    while !u.write_done(&data, sent) {
        u.observe(UsartReg::Isr, 0x80);
        sent = u.write_step(&data, sent);
        for op in u.take_writes() {
            if let RegOp::Write { reg: UsartReg::Tdr, value } = op {
                words.push((value & 0x1FF) as u8);
            }
        }
        if sent == data.len() {
            u.observe(UsartReg::Isr, 0xC0);
        }
    }
    assert_eq!(words, data.to_vec());
    assert_eq!(u.write_step(&data, sent), sent);
}

#[test]
fn read_steps_fill_buffer_in_order() {
    let mut u = usart(UsartDevice::One, UsartConfig::default());
    let mut buf = vec![0u8; 3];
    let mut filled = 0;
    assert_eq!(u.read_step(&mut buf, filled), 0);
    for word in [0x161u32, 0x62, 0x63] {
        u.observe(UsartReg::Isr, 0x20);
        u.observe(UsartReg::Rdr, word);
        filled = u.read_step(&mut buf, filled);
        assert_eq!(u.read_step(&mut buf, filled), filled);
    }
    assert_eq!(filled, 3);
    assert_eq!(buf, vec![0x61, 0x62, 0x63]);
    assert_eq!(u.read_step(&mut buf, filled), 3);
    assert!(u.take_writes().is_empty());
}

#[test]
fn try_write_waits_for_empty_tdr() {
    let mut u = usart(UsartDevice::One, UsartConfig::default());
    assert!(!u.try_write(b'x'));
    assert!(u.take_writes().is_empty());
    u.observe(UsartReg::Isr, 0x80);
    u.observe(UsartReg::Tdr, 0xFFFF_FFFF);
    assert!(u.try_write(b'x'));
    assert_eq!(u.take_writes(), vec![w(UsartReg::Tdr, 0xFFFF_FE78)]);
    assert_eq!(u.registers().tdr & 0x1FF, b'x' as u32);
    assert_eq!(u.registers().isr & 0xC0, 0);
    assert!(!u.try_write(b'y'));
    assert!(u.take_writes().is_empty());
}

#[test]
fn try_read_takes_low_byte_when_ready() {
    let mut u = usart(UsartDevice::One, UsartConfig::default());
    u.observe(UsartReg::Rdr, 0x1C3);
    assert_eq!(u.try_read(), None);
    assert!(!u.rx_not_empty());
    u.observe(UsartReg::Isr, 0x20);
    assert!(u.rx_not_empty());
    assert_eq!(u.try_read(), Some(0xC3));
    assert!(!u.rx_not_empty());
    assert_eq!(u.try_read(), None);
}

#[test]
fn flush_reports_transmission_complete() {
    let mut u = usart(UsartDevice::One, UsartConfig::default());
    assert!(!u.flush());
    u.observe(UsartReg::Isr, 0x40);
    assert!(u.flush());
}

#[test]
fn usart_register_addresses() {
    assert_eq!(register_address(UsartDevice::One, UsartReg::Cr1), 0x4001_3800);
    assert_eq!(register_address(UsartDevice::Two, UsartReg::Isr), 0x4000_441C);
    assert_eq!(register_address(UsartDevice::Three, UsartReg::Tdr), 0x4000_4828);
}

#[test]
fn errors_are_distinct() {
    assert_ne!(Error::Framing, Error::Noise);
    assert_ne!(Error::Overrun, Error::Parity);
}
