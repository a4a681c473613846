use bevy_replicon::prelude::RepliconTick;
use thrust_core::main_plugin::{GlobalGameStates, MainPlugin};
use thrust_core::netcode::{
    ClientID, GameClock, IpAddress, NetcodeConfig, NetcodePlugin, NetcodeSetup, NetcodeTeardown,
    ServerEvent, DEFAULT_PORT, MAX_CLIENTS, PROTOCOL_ID,
};

fn tick_at(value: u32) -> RepliconTick {
    let mut tick = RepliconTick::default();
    tick.increment_by(value);
    tick
}

#[test]
fn the_tick_catches_up_with_the_clock() {
    let mut clock = GameClock::new(10);
    let mut tick = tick_at(3);
    NetcodePlugin::frame_inc_and_replicon_tick_sync(&mut clock, &mut tick);
    assert_eq!(clock.frame(), 11);
    assert_eq!(tick.get(), 11);
}

#[test]
fn the_tick_follows_the_clock_step_by_step() {
    let mut clock = GameClock::new(0);
    let mut tick = tick_at(0);
    let mut last = tick.get();
    for step in 1..=100u32 {
        NetcodePlugin::frame_inc_and_replicon_tick_sync(&mut clock, &mut tick);
        assert_eq!(clock.frame(), step);
        assert_eq!(tick.get(), step);
        assert!(tick.get() >= last);
        assert!(tick.get() <= clock.frame());
        last = tick.get();
    }
}

#[test]
fn a_tick_ahead_of_the_clock_is_never_lowered() {
    let mut clock = GameClock::new(3);
    let mut tick = tick_at(10);
    NetcodePlugin::frame_inc_and_replicon_tick_sync(&mut clock, &mut tick);
    assert_eq!(clock.frame(), 4);
    assert_eq!(tick.get(), 10);
    for _ in 0..6 {
        NetcodePlugin::frame_inc_and_replicon_tick_sync(&mut clock, &mut tick);
    }
    assert_eq!((clock.frame(), tick.get()), (10, 10));
    NetcodePlugin::frame_inc_and_replicon_tick_sync(&mut clock, &mut tick);
    assert_eq!((clock.frame(), tick.get()), (11, 11));
}

#[test]
fn the_last_step_of_the_clock() {
    let mut clock = GameClock::new(u32::MAX - 1);
    let mut tick = tick_at(5);
    NetcodePlugin::frame_inc_and_replicon_tick_sync(&mut clock, &mut tick);
    assert_eq!((clock.frame(), tick.get()), (u32::MAX, u32::MAX));
}

#[test]
fn the_clock_counts_steps() {
    let mut clock = GameClock::new(40);
    clock.advance(2);
    assert_eq!(clock.frame(), 42);
    clock.advance(0);
    assert_eq!(clock, GameClock::new(42));
}

#[test]
fn a_process_without_transport_is_the_authority() {
    assert_eq!(ClientID { transport: None }.id(), 0);
    assert_eq!(ClientID { transport: Some(77) }.id(), 77);
    assert_eq!(ClientID { transport: Some(0) }.id(), 0);
    assert_eq!(ClientID { transport: None }.id(), bevy_replicon::prelude::SERVER_ID.raw());
}

#[test]
fn the_three_configurations() {
    assert_eq!(
        NetcodeConfig::new_hosting_public(),
        NetcodeConfig::Server { ip: IpAddress::V4(0, 0, 0, 0), port: DEFAULT_PORT }
    );
    assert_eq!(
        NetcodeConfig::new_hosting_machine_local(),
        NetcodeConfig::Server { ip: IpAddress::V4(127, 0, 0, 1), port: DEFAULT_PORT }
    );
    assert_eq!(
        NetcodeConfig::new_client_machine_local(),
        NetcodeConfig::Client { ip: IpAddress::V4(127, 0, 0, 1), port: DEFAULT_PORT }
    );
    assert_eq!(DEFAULT_PORT, 5000);
}

#[test]
fn a_host_plays_as_the_authority() {
    let setup = NetcodePlugin::add_netcode(&NetcodeConfig::new_hosting_public(), 1_700_000_000_000);
    assert_eq!(
        setup,
        NetcodeSetup::Host {
            ip: IpAddress::V4(0, 0, 0, 0),
            port: DEFAULT_PORT,
            max_clients: 10,
            protocol_id: PROTOCOL_ID,
            local_player: 0,
        }
    );
    assert_eq!(MAX_CLIENTS, 10);
}

#[test]
fn a_client_is_named_after_the_time() {
    let config = NetcodeConfig::Client { ip: IpAddress::V6(0, 0, 0, 0, 0, 0, 0, 1), port: 9 };
    assert_eq!(
        NetcodePlugin::add_netcode(&config, 1_700_000_000_123),
        NetcodeSetup::Join {
            ip: IpAddress::V6(0, 0, 0, 0, 0, 0, 0, 1),
            port: 9,
            client_id: 1_700_000_000_123,
            protocol_id: PROTOCOL_ID,
        }
    );
    let late = (1u128 << 64) + 5;
    assert_eq!(
        NetcodePlugin::add_netcode(&config, late),
        NetcodeSetup::Join {
            ip: IpAddress::V6(0, 0, 0, 0, 0, 0, 0, 1),
            port: 9,
            client_id: 5,
            protocol_id: PROTOCOL_ID,
        }
    );
}

#[test]
fn leaving_depends_on_the_role() {
    assert_eq!(
        NetcodePlugin::disconnect_netcode(&NetcodeConfig::new_hosting_machine_local()),
        NetcodeTeardown::DisconnectAll
    );
    assert_eq!(
        NetcodePlugin::disconnect_netcode(&NetcodeConfig::new_client_machine_local()),
        NetcodeTeardown::Disconnect
    );
}

#[test]
fn every_client_that_connects_gets_a_player() {
    let events = vec![
        ServerEvent::ClientConnected { client_id: 4 },
        ServerEvent::ClientDisconnected { client_id: 4 },
        ServerEvent::ClientConnected { client_id: 9 },
        ServerEvent::ClientConnected { client_id: 4 },
    ];
    assert_eq!(NetcodePlugin::server_event_system(&events), vec![4, 9, 4]);
    assert!(NetcodePlugin::server_event_system(&vec![]).is_empty());
}

#[test]
fn options_on_the_command_line_skip_the_menu() {
    assert_eq!(MainPlugin::initial_state(0), GlobalGameStates::StartMenu);
    assert_eq!(MainPlugin::initial_state(1), GlobalGameStates::StartMenu);
    assert_eq!(MainPlugin::initial_state(2), GlobalGameStates::InGame);
    assert_eq!(MainPlugin::initial_state(usize::MAX), GlobalGameStates::InGame);
}
