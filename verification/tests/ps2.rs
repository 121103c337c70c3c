use flower::ps2::device::{
    identify, identity_continues, send_raw_device_command, send_raw_device_command_data,
    CommandIo, CommandStep, Device, DeviceKind, KeyboardKind, MouseKind, COMMAND_RETRIES,
};
use flower::ps2::io::{can_read, can_write, flush_output, read, Poll, StatusFlags};
use flower::ps2::keyboard::{Event, EventParser, Keyboard, Mouse, Scancode, Scanset};
use flower::ps2::port::{detect, test_dual_channel, InputQueue, INPUT_CAPACITY};
use flower::ps2::{
    enable_interrupts, initialize, initialize_config, ConfigFlags, Controller, Error, InitStage,
    Initialization, Reply, Request, KEYBOARD_INTERRUPT, KEYBOARD_TRANSLATION, MOUSE_CLOCK_DISABLED,
    MOUSE_INTERRUPT,
};
use flower::keymap;
use flower::scanset_2::parse;

#[test]
fn config_flags_set_and_clear_single_bits() {
    let mut config = ConfigFlags::from_bits_truncate(0xff);
    assert_eq!(config.bits(), 0x73);
    config.set(KEYBOARD_INTERRUPT, false);
    assert_eq!(config.bits(), 0x72);
    assert!(!config.contains(KEYBOARD_INTERRUPT));
    assert!(config.contains(MOUSE_INTERRUPT));
    config.set(KEYBOARD_INTERRUPT, true);
    assert_eq!(config.bits(), 0x73);
}

#[test]
fn initialize_config_clears_interrupts_and_translation_only() {
    let config = initialize_config(ConfigFlags { bits: 0x73 });
    assert_eq!(config.bits, 0x30);
    let config = enable_interrupts(ConfigFlags { bits: 0x30 });
    assert_eq!(config.bits, 0x33);
}

#[test]
fn controller_responses() {
    assert_eq!(Controller::read_config(Some(0xff)), Ok(ConfigFlags { bits: 0x73 }));
    assert_eq!(Controller::read_config(None), Err(Error::ExpectedResponse));
    assert_eq!(Controller::test_controller(Some(0x55)), Ok(()));
    assert_eq!(Controller::test_controller(Some(0xfc)), Err(Error::ControllerTestFailed(0xfc)));
    assert_eq!(Controller::test_controller(None), Err(Error::ExpectedResponse));
    assert_eq!(Controller::test_keyboard(Some(0)), Ok(true));
    assert_eq!(Controller::test_keyboard(Some(1)), Ok(false));
    assert_eq!(Controller::test_mouse(None), Err(Error::ExpectedResponse));
    assert_eq!(Controller::write_config(ConfigFlags { bits: 0x12 }), (0x60, 0x12));
    assert_eq!(Controller::disable_mouse(), 0xA7);
    assert_eq!(Controller::enable_mouse(), 0xA8);
    assert_eq!(Controller::disable_keyboard(), 0xAD);
    assert_eq!(Controller::enable_keyboard(), 0xAE);
    assert_eq!(Controller::write_command_mouse(), 0xD4);
    assert_eq!(<Controller as CommandIo>::read(Some(7)), Ok(7));
}

#[test]
fn status_port_decisions() {
    assert!(can_read(0x01));
    assert!(!can_read(0x02));
    assert!(can_write(0x01));
    assert!(!can_write(0x02));
    assert_eq!(StatusFlags::from_bits_truncate(0xff).bits, 0x23);
    assert_eq!(flower::ps2::io::write(0, 5, 10), Poll::Ready);
    assert_eq!(flower::ps2::io::write(2, 5, 10), Poll::Wait);
    assert_eq!(flower::ps2::io::write(0, 10, 10), Poll::TimedOut);
    assert_eq!(read(1, 5, 10), Poll::Ready);
    assert_eq!(read(0, 5, 10), Poll::Wait);
    assert_eq!(read(1, 11, 10), Poll::TimedOut);
    assert!(flush_output(1));
    assert!(!flush_output(0));
}

#[test]
fn device_kinds() {
    assert_eq!(DeviceKind::parse(0x41, true), DeviceKind::Keyboard(KeyboardKind::Mf2TranslatedKeyboard));
    assert_eq!(DeviceKind::parse(0xC1, true), DeviceKind::Keyboard(KeyboardKind::Mf2TranslatedKeyboard));
    assert_eq!(DeviceKind::parse(0x83, true), DeviceKind::Keyboard(KeyboardKind::Mf2Keyboard));
    assert_eq!(DeviceKind::parse(0x00, true), DeviceKind::Keyboard(KeyboardKind::Unknown));
    assert_eq!(DeviceKind::parse(0x00, false), DeviceKind::Mouse(MouseKind::Mouse));
    assert_eq!(DeviceKind::parse(0x03, false), DeviceKind::Mouse(MouseKind::MouseWithScrollWheel));
    assert_eq!(DeviceKind::parse(0x04, false), DeviceKind::Mouse(MouseKind::FiveButtonMouse));
    assert_eq!(DeviceKind::parse(0x41, false), DeviceKind::Unknown);
    assert!(DeviceKind::parse(0x83, true).is_keyboard());
    assert!(DeviceKind::parse(0x00, false).is_mouse());
    assert!(!DeviceKind::Unknown.is_mouse());
}

#[test]
fn identify_reads_a_second_byte_after_a_keyboard_announcement() {
    assert!(identity_continues(Some(0xAB)));
    assert!(!identity_continues(Some(0x00)));
    assert_eq!(identify(Some(0xAB), Some(0x83)), DeviceKind::Keyboard(KeyboardKind::Mf2Keyboard));
    assert_eq!(identify(Some(0xAB), None), DeviceKind::Keyboard(KeyboardKind::TranslatedAtKeyboard));
    assert_eq!(identify(Some(0x03), Some(0x83)), DeviceKind::Mouse(MouseKind::MouseWithScrollWheel));
    assert_eq!(identify(None, None), DeviceKind::Keyboard(KeyboardKind::TranslatedAtKeyboard));
}

#[test]
fn device_commands_are_resent_until_the_retries_run_out() {
    assert_eq!(send_raw_device_command(0, Some(0xFA)), CommandStep::Done(Ok(())));
    assert_eq!(send_raw_device_command(0, Some(0xEE)), CommandStep::Done(Ok(())));
    assert_eq!(send_raw_device_command(0, Some(0xFE)), CommandStep::Resend);
    assert_eq!(
        send_raw_device_command(COMMAND_RETRIES - 1, Some(0xFE)),
        CommandStep::Done(Err(Error::RetriesExceeded))
    );
    assert_eq!(send_raw_device_command(3, Some(0x12)), CommandStep::Done(Err(Error::UnexpectedResponse(0x12))));
    assert_eq!(send_raw_device_command(3, None), CommandStep::Done(Err(Error::ExpectedResponse)));
    assert_eq!(send_raw_device_command_data(Ok(()), Some(0xFA)), Ok(()));
    assert_eq!(send_raw_device_command_data(Ok(()), Some(0xFE)), Err(Error::UnexpectedResponse(0xFE)));
    assert_eq!(send_raw_device_command_data(Ok(()), None), Err(Error::ExpectedResponse));
    assert_eq!(
        send_raw_device_command_data(Err(Error::RetriesExceeded), Some(0xFA)),
        Err(Error::RetriesExceeded)
    );
}

#[test]
fn keyboard_and_mouse_ports() {
    assert_eq!(<Keyboard as Device>::enable(), 0xAE);
    assert_eq!(<Keyboard as Device>::disable(), 0xAD);
    assert_eq!(<Mouse as Device>::enable(), 0xA8);
    assert_eq!(<Mouse as Device>::disable(), 0xA7);
    assert_eq!(<Keyboard as Device>::test(Some(0)), Ok(true));
    assert_eq!(<Mouse as Device>::test(Some(2)), Ok(false));
    assert!(<Mouse as Device>::mouse_port());
    assert!(!<Keyboard as Device>::mouse_port());
    assert_eq!(<Mouse as CommandIo>::read(None), Err(Error::ExpectedResponse));
}

#[test]
fn scan_sets() {
    assert_eq!(Keyboard::get_scanset(Some(1)), Ok(Scanset::One));
    assert_eq!(Keyboard::get_scanset(Some(2)), Ok(Scanset::Two));
    assert_eq!(Keyboard::get_scanset(Some(3)), Ok(Scanset::Three));
    assert_eq!(Keyboard::get_scanset(Some(4)), Err(Error::UnexpectedResponse(4)));
    assert_eq!(Keyboard::get_scanset(None), Err(Error::ExpectedResponse));
    assert_eq!(Keyboard::set_scanset(Scanset::Two), (0xF0, 2));
    assert_eq!(Keyboard::scanset_query(), (0xF0, 0));
    assert_eq!(Keyboard::set_leds(flower::keyboard::LedFlags { bits: 5 }), (0xED, 5));
}

#[test]
fn scan_codes_are_assembled_from_prefixes() {
    let mut parser = EventParser::new();
    assert_eq!(parser.parse_scancode(0xE0), None);
    assert_eq!(parser.parse_scancode(0xF0), None);
    assert_eq!(parser.parse_scancode(0x75), Some(Scancode { code: 0x75, extended: true, make: false }));
    assert_eq!(parser, EventParser::new());
    assert_eq!(parse(Scancode { code: 0x75, extended: true, make: false }), Some(keymap::UP_ARROW));
    assert_eq!(parse(Scancode { code: 0x1C, extended: false, make: true }), Some(keymap::A));
}

#[test]
fn bytes_become_events() {
    let mut parser = EventParser::new();
    assert_eq!(parser.parse_byte(0xAA), Some(Event::BatSuccess));
    assert_eq!(parser.parse_byte(0xFC), Some(Event::BatError));
    assert_eq!(parser.parse_byte(0x1C), Some(Event::Key { key: keymap::A, make: true }));
    assert_eq!(parser.parse_byte(0xF0), None);
    assert_eq!(parser.parse_byte(0x1C), Some(Event::Key { key: keymap::A, make: false }));
    assert_eq!(parser.parse_byte(0x02), Some(Event::UnexpectedByte(0x02)));
}

#[test]
fn input_queue_keeps_old_bytes_when_full() {
    let mut queue = InputQueue::new();
    for i in 0..INPUT_CAPACITY + 3 {
        queue.push(i as u8);
    }
    for i in 0..INPUT_CAPACITY {
        assert_eq!(queue.next(), Some(i as u8));
    }
    assert_eq!(queue.next(), None);
}

#[test]
fn next_event_reads_until_an_event() {
    let mut queue = InputQueue::new();
    for byte in [0xE0, 0xF0, 0x75, 0x1C, 0x32] {
        queue.push(byte);
    }
    let mut parser = EventParser::new();
    assert_eq!(
        Keyboard::next_event(&mut parser, &mut queue),
        Some(Event::Key { key: keymap::UP_ARROW, make: false })
    );
    assert_eq!(parser.next_event(&mut queue), Some(Event::Key { key: keymap::A, make: true }));
    assert_eq!(parser.next_event(&mut queue), Some(Event::Key { key: keymap::B, make: true }));
    assert_eq!(parser.next_event(&mut queue), None);
    queue.push(0xF0);
    assert_eq!(parser.next_event(&mut queue), None);
    assert!(!parser.make_scancode);
}

#[test]
fn detection_outcomes() {
    assert_eq!(detect(Ok(false), Ok(false), Err(Error::RetriesExceeded)), Ok(()));
    assert_eq!(detect(Ok(true), Ok(true), Err(Error::ExpectedResponse)), Err(Error::ExpectedResponse));
    assert_eq!(detect(Err(Error::RetriesExceeded), Ok(true), Ok(true)), Err(Error::RetriesExceeded));
    let disabled = ConfigFlags { bits: MOUSE_CLOCK_DISABLED };
    let enabled = ConfigFlags { bits: 0 };
    assert_eq!(test_dual_channel(Ok(disabled), Ok(enabled)), Ok(true));
    assert_eq!(test_dual_channel(Ok(disabled), Ok(disabled)), Ok(false));
    assert_eq!(test_dual_channel(Ok(enabled), Err(Error::ExpectedResponse)), Ok(false));
    assert_eq!(test_dual_channel(Err(Error::ExpectedResponse), Ok(enabled)), Err(Error::ExpectedResponse));
}

fn run(replies: &[Reply]) -> Vec<Request> {
    let (mut init, first) = initialize();
    let mut requests = vec![first];
    for reply in replies {
        requests.push(init.step(*reply));
    }
    requests
}

#[test]
fn initialization_of_a_dual_channel_controller() {
    let replies = [
        Reply::Done,               // disable keyboard
        Reply::Done,               // disable mouse
        Reply::Done,               // flush
        Reply::Byte(Some(0x47)),   // config
        Reply::Done,               // write config
        Reply::Byte(Some(0x55)),   // controller test
        Reply::Byte(Some(0)),      // keyboard test
        Reply::Done,               // disable mouse
        Reply::Byte(Some(0x20)),   // config: mouse clock disabled
        Reply::Done,               // enable mouse
        Reply::Byte(Some(0x00)),   // config: mouse clock running
        Reply::Done,               // disable mouse
        Reply::Byte(Some(0)),      // mouse test
        Reply::Done,               // enable keyboard
        Reply::Done,               // enable mouse
        Reply::Device(Ok(())),     // reset keyboard
        Reply::Device(Ok(())),     // reset mouse
        Reply::Done,               // listen
        Reply::Byte(Some(0x04)),   // config
        Reply::Done,               // write config
        Reply::Done,               // flush
        Reply::Done,               // flush
    ];
    let requests = run(&replies);
    assert_eq!(
        requests,
        vec![
            Request::Command(0xAD),
            Request::Command(0xA7),
            Request::Flush,
            Request::Query(0x20),
            Request::CommandData(0x60, 0x00),
            Request::Query(0xAA),
            Request::Query(0xAB),
            Request::Command(0xA7),
            Request::Query(0x20),
            Request::Command(0xA8),
            Request::Query(0x20),
            Request::Command(0xA7),
            Request::Query(0xA9),
            Request::Command(0xAE),
            Request::Command(0xA8),
            Request::DeviceCommand(0xFF, false),
            Request::DeviceCommand(0xFF, true),
            Request::ListenInterrupts,
            Request::Query(0x20),
            Request::CommandData(0x60, 0x03),
            Request::Flush,
            Request::Flush,
            Request::Finished(Ok(())),
        ]
    );
}

#[test]
fn initialization_skips_the_mouse_test_on_a_single_channel_controller() {
    let replies = [
        Reply::Done,
        Reply::Done,
        Reply::Done,
        Reply::Byte(Some(0x00)),
        Reply::Done,
        Reply::Byte(Some(0x55)),
        Reply::Byte(Some(0)),
        Reply::Done,
        Reply::Byte(Some(0x00)),
    ];
    let requests = run(&replies);
    assert_eq!(requests.last(), Some(&Request::Command(0xAE)));
}

#[test]
fn initialization_stops_at_the_first_failure() {
    let replies = [
        Reply::Done,
        Reply::Done,
        Reply::Done,
        Reply::Byte(Some(0x00)),
        Reply::Done,
        Reply::Byte(Some(0x00)),
        Reply::Done,
    ];
    let requests = run(&replies);
    assert_eq!(requests[6], Request::Finished(Err(Error::ControllerTestFailed(0))));
    assert_eq!(requests[7], Request::Finished(Err(Error::ControllerTestFailed(0))));
    let mut init = Initialization { stage: InitStage::ReadConfig };
    assert_eq!(init.step(Reply::Done), Request::Finished(Err(Error::ExpectedResponse)));
    let mut init = Initialization { stage: InitStage::ResetMouse };
    assert_eq!(init.step(Reply::Device(Err(Error::RetriesExceeded))), Request::Finished(Err(Error::RetriesExceeded)));
    let _ = KEYBOARD_TRANSLATION;
}
