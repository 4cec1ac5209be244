use a2dp_source::a2dp_app::hci_classic::{WriteClassOfDevice, WriteLocalName, WriteScanEnable};
use a2dp_source::a2dp_app::state_machine::{Action, Event};
use a2dp_source::a2dp_app::{A2dpState, AppConfig, StateMachine};
use a2dp_source::bt_classic::BdAddr;

#[test]
fn test_initial_state() {
    let sm = StateMachine::new();
    assert_eq!(sm.state(), A2dpState::Disconnected);
}

#[test]
fn test_make_discoverable() {
    let mut sm = StateMachine::new();
    let action = sm.process(Event::MakeDiscoverable);

    assert_eq!(sm.state(), A2dpState::Discoverable);
    assert!(matches!(action, Action::EnableDiscovery));
}

#[test]
fn test_connection_flow() {
    let mut sm = StateMachine::new();
    let addr = BdAddr::new([0x11, 0x22, 0x33, 0x44, 0x55, 0x66]);

    // Connect
    sm.process(Event::Connect(addr));
    assert_eq!(sm.state(), A2dpState::Connecting);

    // Connection complete
    sm.process(Event::ConnectionComplete { handle: 0x0001 });
    assert_eq!(sm.state(), A2dpState::Connected);

    // L2CAP connected
    sm.process(Event::L2capConnected);
    assert_eq!(sm.state(), A2dpState::Configuring);

    // Configuration complete
    sm.process(Event::AvdtpConfigured);
    assert_eq!(sm.state(), A2dpState::Open);
}

#[test]
fn test_streaming_flow_and_actions() {
    let mut sm = StateMachine::new();
    let addr = BdAddr::new([1, 2, 3, 4, 5, 6]);
    assert!(sm.remote_addr().is_none());
    assert!(matches!(
        sm.process(Event::Connect(addr)),
        Action::InitiateConnection(a) if a == addr
    ));
    assert_eq!(sm.remote_addr(), Some(addr));
    assert!(matches!(
        sm.process(Event::ConnectionComplete { handle: 7 }),
        Action::OpenL2cap
    ));
    assert!(matches!(
        sm.process(Event::L2capConnected),
        Action::SendAvdtpDiscover
    ));
    assert!(matches!(sm.process(Event::AvdtpConfigured), Action::UpdateLed));
    assert!(matches!(sm.process(Event::StartStream), Action::SendStart));
    assert_eq!(sm.state(), A2dpState::Open);
    assert!(matches!(sm.process(Event::StreamStarted), Action::UpdateLed));
    assert_eq!(sm.state(), A2dpState::Streaming);
    assert!(matches!(sm.process(Event::PauseStream), Action::SendSuspend));
    assert_eq!(sm.state(), A2dpState::Streaming);
    assert!(matches!(sm.process(Event::StreamSuspended), Action::UpdateLed));
    assert_eq!(sm.state(), A2dpState::Suspended);
    assert!(matches!(sm.process(Event::StartStream), Action::SendStart));
    assert!(matches!(sm.process(Event::StreamStarted), Action::UpdateLed));
    assert_eq!(sm.state(), A2dpState::Streaming);
    assert!(matches!(sm.process(Event::Disconnect), Action::SendClose));
    assert_eq!(sm.state(), A2dpState::Disconnecting);
    assert_eq!(sm.remote_addr(), Some(addr));
    assert!(matches!(sm.process(Event::Disconnected), Action::UpdateLed));
    assert_eq!(sm.state(), A2dpState::Disconnected);
    assert!(sm.remote_addr().is_none());
}

#[test]
fn test_failures_drop_the_connection() {
    let addr = BdAddr::new([1, 2, 3, 4, 5, 6]);

    let mut sm = StateMachine::new();
    sm.process(Event::Connect(addr));
    assert!(matches!(sm.process(Event::Timeout), Action::UpdateLed));
    assert_eq!(sm.state(), A2dpState::Disconnected);
    assert!(sm.remote_addr().is_none());

    let mut sm = StateMachine::new();
    sm.process(Event::Connect(addr));
    sm.process(Event::ConnectionComplete { handle: 1 });
    sm.process(Event::L2capConnected);
    // An error while configuring asks for a disconnect first.
    assert!(matches!(
        sm.process(Event::Error(9)),
        Action::InitiateDisconnect
    ));
    assert_eq!(sm.state(), A2dpState::Disconnecting);
    // An error anywhere else drops straight to disconnected.
    assert!(matches!(sm.process(Event::Error(9)), Action::UpdateLed));
    assert_eq!(sm.state(), A2dpState::Disconnected);
    assert!(sm.remote_addr().is_none());

    let mut sm = StateMachine::new();
    sm.process(Event::MakeDiscoverable);
    sm.process(Event::ConnectionComplete { handle: 1 });
    assert_eq!(sm.state(), A2dpState::Connected);
    assert!(matches!(
        sm.process(Event::ConnectionFailed),
        Action::UpdateLed
    ));
    assert_eq!(sm.state(), A2dpState::Disconnected);
}

#[test]
fn test_unhandled_events_and_reset() {
    let mut sm = StateMachine::new();
    assert!(matches!(sm.process(Event::StartStream), Action::NoAction));
    assert!(matches!(sm.process(Event::StreamOpened), Action::NoAction));
    assert!(matches!(sm.process(Event::Timeout), Action::NoAction));
    assert_eq!(sm.state(), A2dpState::Disconnected);
    sm.process(Event::MakeDiscoverable);
    assert!(matches!(sm.process(Event::Disconnect), Action::NoAction));
    assert_eq!(sm.state(), A2dpState::Disconnected);
    sm.process(Event::Connect(BdAddr::new([5; 6])));
    sm.reset();
    assert_eq!(sm.state(), A2dpState::Disconnected);
    assert!(sm.remote_addr().is_none());
    assert_eq!(StateMachine::default().state(), A2dpState::Disconnected);
}

#[test]
fn test_app_config_validate() {
    let config = AppConfig::default();
    assert_eq!(config.device_name, "Pico A2DP Audio");
    assert_eq!(config.default_bitpool, 53);
    assert!(config.auto_reconnect);
    assert_eq!(config.audio_buffer_ms, 100);
    assert_eq!(config.validate(), Ok(()));

    let unnamed = AppConfig {
        device_name: "",
        default_bitpool: 0,
        ..AppConfig::default()
    };
    assert_eq!(unnamed.validate(), Err("Device name cannot be empty"));
    for bitpool in [0u8, 1, 251, 255] {
        let bad = AppConfig {
            default_bitpool: bitpool,
            audio_buffer_ms: 0,
            ..AppConfig::default()
        };
        assert_eq!(bad.validate(), Err("Bitpool must be between 2 and 250"));
    }
    for ms in [0u32, 19, 501] {
        let bad = AppConfig {
            audio_buffer_ms: ms,
            ..AppConfig::default()
        };
        assert_eq!(
            bad.validate(),
            Err("Audio buffer must be between 20 and 500 ms")
        );
    }
    for (bitpool, ms) in [(2u8, 20u32), (250, 500)] {
        let edge = AppConfig {
            default_bitpool: bitpool,
            audio_buffer_ms: ms,
            ..AppConfig::default()
        };
        assert_eq!(edge.validate(), Ok(()));
    }
}

#[test]
fn test_hci_classic_commands() {
    let name = WriteLocalName::new(b"Pico");
    assert_eq!(&name.name[..4], b"Pico");
    assert!(name.name[4..].iter().all(|&b| b == 0));
    let long = WriteLocalName::new(&[0x41u8; 300]);
    assert!(long.name[..247].iter().all(|&b| b == 0x41));
    assert_eq!(long.name[247], 0);

    assert_eq!(WriteClassOfDevice::audio().class, [0x04, 0x04, 0x24]);
    assert_eq!(WriteClassOfDevice::new([1, 2, 3]).class, [1, 2, 3]);
    assert_eq!(WriteScanEnable::disabled().scan_enable, 0);
    assert_eq!(WriteScanEnable::inquiry_only().scan_enable, 1);
    assert_eq!(WriteScanEnable::page_only().scan_enable, 2);
    assert_eq!(WriteScanEnable::both().scan_enable, 3);
    assert_eq!(WriteScanEnable::new(9).scan_enable, 9);
}

#[test]
fn test_command_opcodes_match_the_opcode_table() {
    assert_eq!(WriteLocalName::opcode(), 0x0C13);
    assert_eq!(WriteClassOfDevice::opcode(), 0x0C24);
    assert_eq!(WriteScanEnable::opcode(), 0x0C1A);
    assert_eq!(
        WriteLocalName::opcode(),
        a2dp_source::hal_pico2w::bluetooth::opcode::WRITE_LOCAL_NAME
    );
    assert_eq!(
        WriteClassOfDevice::opcode(),
        a2dp_source::hal_pico2w::bluetooth::opcode::WRITE_CLASS_OF_DEVICE
    );
    assert_eq!(
        WriteScanEnable::opcode(),
        a2dp_source::hal_pico2w::bluetooth::opcode::WRITE_SCAN_ENABLE
    );
}

#[test]
fn test_command_headers_and_sizes() {
    let name = WriteLocalName::new(b"Pico");
    assert_eq!(name.size(), 251);
    assert_eq!(name.header(), [0x13, 0x0C, 248]);

    let class = WriteClassOfDevice::audio();
    assert_eq!(class.size(), 6);
    assert_eq!(class.header(), [0x24, 0x0C, 3]);

    let scan = WriteScanEnable::both();
    assert_eq!(scan.size(), 4);
    assert_eq!(scan.header(), [0x1A, 0x0C, 1]);
}
