use flower::io::{wait, IOPort, PortWrite};
use flower::legacy_pic;
use flower::pic::{ChainedPics, IrqDestination};
use flower::pit::{compute_reload, sleep, tick, time_ms, AccessMode, Channel, Controller, OperatingMode};
use flower::serial::{InvalidBaudrate, SerialPort, PORT_1_ADDR};

fn w(port: u16, value: u8) -> PortWrite {
    PortWrite { port, value }
}

#[test]
fn irq_destinations() {
    let pics = ChainedPics::new();
    assert_eq!(pics.destination(0), IrqDestination::Master(0));
    assert_eq!(pics.destination(7), IrqDestination::Master(7));
    assert_eq!(pics.destination(8), IrqDestination::Slave(0));
    assert_eq!(pics.destination(15), IrqDestination::Slave(7));
    assert_eq!(pics.mask_port(3), 0x21);
    assert_eq!(pics.mask_port(12), 0xA1);
}

#[test]
fn lines_are_masked_and_unmasked_bit_by_bit() {
    let pics = ChainedPics::new();
    assert_eq!(pics.enable_line(1, 0xff), vec![w(0x21, 0xfd), wait()]);
    assert_eq!(pics.disable_line(9, 0x00), vec![w(0xA1, 0x02), wait()]);
    assert_eq!(pics.disable(), vec![w(0x21, 0xff), wait(), w(0xA1, 0xff), wait()]);
}

#[test]
fn interrupts_are_acknowledged_at_their_pic() {
    let pics = ChainedPics::new();
    let handling = pics.handle_interrupt(1, 0x02);
    assert!(handling.run_handler);
    assert_eq!(handling.end_of_interrupt, vec![w(0x20, 0x20), wait()]);
    let spurious = pics.handle_interrupt(7, 0x00);
    assert!(!spurious.run_handler);
    assert!(spurious.end_of_interrupt.is_empty());
    let slave = pics.handle_interrupt(12, 0x10);
    assert!(slave.run_handler);
    assert_eq!(slave.end_of_interrupt, vec![w(0xA0, 0x20), wait()]);
    let slave_spurious = pics.handle_interrupt(15, 0x00);
    assert!(!slave_spurious.run_handler);
    assert_eq!(slave_spurious.end_of_interrupt, vec![w(0x20, 0x20), wait()]);
    assert_eq!(pics.isr_request(3), vec![w(0x20, 0x0B), wait()]);
}

#[test]
fn remapping_restores_the_masks() {
    let pics = ChainedPics::new();
    let writes = pics.init_and_remap(0x12, 0x34);
    assert_eq!(
        writes,
        vec![
            wait(),
            w(0x20, 0x11), wait(), w(0x21, 0x20), wait(),
            w(0xA0, 0x11), wait(), w(0xA1, 0x28), wait(),
            w(0x21, 4), wait(), w(0xA1, 2), wait(),
            w(0x21, 1), wait(), w(0xA1, 1), wait(),
            w(0x21, 0x12), wait(), w(0xA1, 0x34), wait(),
        ]
    );
}

#[test]
fn legacy_pics() {
    let pics = legacy_pic::ChainedPics::new((0x20, 0x28));
    assert!(pics.master.handles_interrupt(0x20));
    assert!(pics.master.handles_interrupt(0x27));
    assert!(!pics.master.handles_interrupt(0x28));
    assert!(pics.slave.handles_interrupt(0x28));
    assert_eq!(pics.master.end_of_interrupt(), w(0x20, 0x20));
    let writes = pics.remap_and_disable();
    assert_eq!(
        writes,
        vec![
            wait(),
            w(0x20, 0x10), wait(), w(0x21, 0x20), wait(),
            w(0xA0, 0x10), wait(), w(0xA1, 0x28), wait(),
            w(0x21, 4), wait(), w(0xA1, 2), wait(),
            w(0x21, 1), wait(), w(0xA1, 1), wait(),
            w(0x21, 0xFF), w(0xA1, 0xFF),
        ]
    );
    let mut out = Vec::new();
    pics.slave.set_mode(&mut out, 3);
    assert_eq!(out, vec![w(0xA1, 3), wait()]);
}

#[test]
fn timer_programming() {
    assert_eq!(compute_reload(1000), 1193);
    assert_eq!(compute_reload(1), (1193182u32 % 65536) as u16);
    let controller = Controller::new();
    assert_eq!(
        controller.initialize(),
        vec![w(0x43, 0x34), w(0x40, 0xA9), w(0x40, 0x04)]
    );
    assert_eq!(
        controller.configure(2, OperatingMode::SquareWaveGenerator, AccessMode::LobyteOnly),
        w(0x43, 0x96)
    );
    assert_eq!(Channel::new(0x42).set_reload_value(0x1234), vec![w(0x42, 0x34), w(0x42, 0x12)]);
    assert_eq!(tick(5), 6);
    assert_eq!(tick(usize::MAX), 0);
    assert_eq!(time_ms(42), 42);
    assert_eq!(sleep(100, 20), 120);
}

#[test]
fn serial_port_setup() {
    let mut port = SerialPort::new(PORT_1_ADDR);
    assert_eq!(port.init(50000, false), Err(InvalidBaudrate(50000)));
    assert!(!port.initialized);
    let writes = port.init(9600, true).unwrap();
    assert!(port.initialized);
    assert_eq!(
        writes,
        vec![
            w(0x3f9, 0),
            w(0x3fb, 0x80),
            w(0x3f8, 12),
            w(0x3f9, 0),
            w(0x3fb, 0x03),
            w(0x3fa, 0xE7),
            w(0x3fc, 0x09),
        ]
    );
    assert_eq!(port.status_port(), 0x3fd);
    assert_eq!(port.status(0x21).bits, 0x21);
    assert!(port.try_read(0x01));
    assert!(!port.try_read(0x20));
    assert!(port.try_write(0x20));
    assert!(!port.try_write(0x01));
}

#[test]
fn slow_baud_rates_need_a_high_divisor_byte() {
    let mut port = SerialPort::new(0x2f8);
    let writes = port.init(300, false).unwrap();
    assert_eq!(writes[2], w(0x2f8, (384 % 256) as u8));
    assert_eq!(writes[3], w(0x2f9, 1));
    assert_eq!(writes[6], w(0x2fc, 0x01));
}

#[test]
fn io_ports() {
    let port = IOPort::new(0x80);
    assert_eq!(port.write(3), w(0x80, 3));
    assert_eq!(wait(), w(0x80, 0));
}
