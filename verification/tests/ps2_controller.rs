use flower::legacy_keyboard::{enable, read_break, read_scancode, Scancode, ScancodeStep};
use flower::ps2_controller::{
    is_ok, ControllerConfigBit, Ps2Action, Ps2Config, Ps2Controller, Ps2Device, Ps2InitStage,
    DEVICE_AVAILABLE_FLAG, DEVICE_ENABLED_FLAG, DEVICE_SECOND_FLAG,
};
use flower::ps2_io::{
    command, command_data, command_ret, flush_output, read, read_data, write_data,
    ControllerCommand, ControllerReturnCommand, DeviceCommand, PortWrite, COMMAND_PORT, DATA_PORT,
    WAIT_TIMEOUT,
};

#[test]
fn response_codes() {
    assert!(is_ok(Some(0xFA)));
    assert!(is_ok(Some(0xAA)));
    assert!(!is_ok(Some(0xFE)));
    assert!(!is_ok(None));
}

#[test]
fn config_bits() {
    let mut config = Ps2Config { data: 0 };
    config.set(ControllerConfigBit::PortOutputFull2, true);
    assert_eq!(config.data, 0x20);
    assert!(config.get(ControllerConfigBit::PortOutputFull2));
    assert!(!config.get(ControllerConfigBit::PortInterrupt1));
    config.set(ControllerConfigBit::PortOutputFull2, false);
    assert_eq!(config.data, 0);
    assert_eq!(ControllerConfigBit::PortTranslation1.value(), 0x40);
    assert_eq!(ControllerConfigBit::KeyboardLock.value(), 0x10);
}

#[test]
fn device_flags_and_commands() {
    let mut device = Ps2Device { flags: DEVICE_SECOND_FLAG };
    assert_eq!(device.test_command(), ControllerReturnCommand::TestPort2);
    assert_eq!(device.enable(), None);
    assert!(device.test(Some(0)));
    assert!(device.get_flag(DEVICE_AVAILABLE_FLAG));
    assert_eq!(device.enable(), Some(ControllerCommand::EnablePort2));
    assert!(device.get_flag(DEVICE_ENABLED_FLAG));
    assert_eq!(device.disable(), ControllerCommand::DisablePort2);
    assert!(!device.get_flag(DEVICE_ENABLED_FLAG));
    assert!(!device.test(Some(1)));
    assert!(!device.get_flag(DEVICE_AVAILABLE_FLAG));
    assert_eq!(device.command_prefix(), Some(ControllerCommand::WriteInputPort2));
    assert_eq!(Ps2Device { flags: 0 }.command_prefix(), None);
    assert_eq!(device.reset(), DeviceCommand::Reset);
    device.set_flag(DEVICE_ENABLED_FLAG, true);
    assert_eq!(device.flags, DEVICE_SECOND_FLAG | DEVICE_ENABLED_FLAG);
}

#[test]
fn device_commands_retry_while_resend_requested() {
    let device = Ps2Device { flags: 0 };
    assert!(device.command(0, Some(0xFE)));
    assert!(device.command(2, None));
    assert!(!device.command(1, Some(0xFA)));
    assert!(!device.command(4, Some(0xFE)));
    assert_eq!(device.command_data(Some(0xFA), Some(0x12)), Some(0x12));
    assert_eq!(device.command_data(Some(0xFE), Some(0x12)), Some(0xFE));
    assert_eq!(device.command_data(None, Some(0x12)), None);
}

#[test]
fn port_writes() {
    assert_eq!(command(ControllerCommand::DisablePort1), PortWrite { port: COMMAND_PORT, value: 0xAD });
    assert_eq!(
        command_data(ControllerCommand::WriteConfig, 0x12),
        (PortWrite { port: COMMAND_PORT, value: 0x60 }, PortWrite { port: DATA_PORT, value: 0x12 })
    );
    assert_eq!(command_ret(ControllerReturnCommand::IdentifyDevice), PortWrite { port: COMMAND_PORT, value: 0xF2 });
    assert_eq!(write_data(7), PortWrite { port: DATA_PORT, value: 7 });
    assert_eq!(read_data(), DATA_PORT);
    assert_eq!(DeviceCommand::EnableScanning.value(), 0xF4);
    assert!(flower::ps2_io::write(0));
    assert!(!flower::ps2_io::write(2));
    assert_eq!(read(0, 1), Some(true));
    assert_eq!(read(0, 0), Some(false));
    assert_eq!(read(WAIT_TIMEOUT - 1, 0), None);
    assert!(flush_output(1));
    assert!(!flush_output(0));
}

fn drive(controller: &mut Ps2Controller, replies: &[Option<u8>]) -> Vec<(Ps2InitStage, Ps2Action)> {
    let mut steps = vec![controller.begin_initialize()];
    for reply in replies {
        let (stage, _) = *steps.last().unwrap();
        steps.push(controller.initialize(stage, *reply));
    }
    steps
}

#[test]
fn controller_initialization_with_two_devices() {
    let mut controller = Ps2Controller::new();
    let replies = [
        None,       // disable first
        None,       // disable second
        None,       // flush
        Some(0x63), // config
        None,       // write config
        Some(0x55), // controller test
        Some(0x00), // first port test
        Some(0x00), // second port test
        None,       // enable first
        None,       // reset first
        None,       // enable second
        None,       // reset second
        None,       // flush
    ];
    let steps = drive(&mut controller, &replies);
    let actions: Vec<Ps2Action> = steps.iter().map(|(_, action)| *action).collect();
    assert_eq!(
        actions,
        vec![
            Ps2Action::Command(ControllerCommand::DisablePort1),
            Ps2Action::Command(ControllerCommand::DisablePort2),
            Ps2Action::Flush,
            Ps2Action::CommandRet(ControllerReturnCommand::ReadConfig),
            Ps2Action::CommandData(ControllerCommand::WriteConfig, 0x20),
            Ps2Action::CommandRet(ControllerReturnCommand::TestController),
            Ps2Action::CommandRet(ControllerReturnCommand::TestPort1),
            Ps2Action::CommandRet(ControllerReturnCommand::TestPort2),
            Ps2Action::Command(ControllerCommand::EnablePort1),
            Ps2Action::DeviceCommand(false, DeviceCommand::Reset),
            Ps2Action::Command(ControllerCommand::EnablePort2),
            Ps2Action::DeviceCommand(true, DeviceCommand::Reset),
            Ps2Action::Flush,
            Ps2Action::Finished,
        ]
    );
    assert!(controller.initialized);
    assert!(controller.devices[0].get_flag(DEVICE_ENABLED_FLAG));
    assert!(controller.devices[1].get_flag(DEVICE_AVAILABLE_FLAG));
}

#[test]
fn controller_initialization_without_second_port() {
    let mut controller = Ps2Controller::new();
    let replies = [
        None,       // disable first
        None,       // disable second
        None,       // flush
        Some(0x00), // config: second port output bit clear
        None,       // write config
        Some(0x00), // controller test fails, which is only reported
        Some(0x01), // first port test fails
        Some(0x00), // config read again
        None,       // disable second
        None,       // flush
    ];
    let steps = drive(&mut controller, &replies);
    let stages: Vec<Ps2InitStage> = steps.iter().map(|(stage, _)| *stage).collect();
    assert_eq!(
        stages,
        vec![
            Ps2InitStage::DisableFirst,
            Ps2InitStage::DisableSecond,
            Ps2InitStage::FlushStart,
            Ps2InitStage::ReadConfig,
            Ps2InitStage::WriteConfig,
            Ps2InitStage::TestController,
            Ps2InitStage::TestFirst,
            Ps2InitStage::SecondReadConfig,
            Ps2InitStage::SecondDisable,
            Ps2InitStage::FlushEnd,
            Ps2InitStage::Done,
        ]
    );
    assert!(controller.initialized);
    assert!(!controller.devices[0].get_flag(DEVICE_AVAILABLE_FLAG));
}

#[test]
fn read_config_keeps_the_old_configuration_without_a_response() {
    let mut controller = Ps2Controller::new();
    controller.read_config(Some(0x47));
    assert_eq!(controller.config.data, 0x47);
    controller.read_config(None);
    assert_eq!(controller.config.data, 0x47);
    assert_eq!(controller.write_config(), (ControllerCommand::WriteConfig, 0x47));
}

#[test]
fn legacy_scan_codes() {
    assert_eq!(read_scancode(None), ScancodeStep::Again);
    assert_eq!(read_scancode(Some(0)), ScancodeStep::Again);
    assert_eq!(read_scancode(Some(0xE0)), ScancodeStep::Again);
    assert_eq!(read_scancode(Some(0xF0)), ScancodeStep::Break);
    assert_eq!(read_scancode(Some(0x1C)), ScancodeStep::Make(Scancode { code: 0x1C, make: true }));
    assert_eq!(read_break(Some(0x1C)), Scancode::new(0x1C, false));
    assert_eq!(read_break(None), Scancode::new(0, false));
    assert!(enable(Some(0xFA), Some(0xFA)));
    assert!(!enable(Some(0xFE), Some(0xFA)));
}
