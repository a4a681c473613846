//! The clock of the authority, who a process is on the network, and how a
//! process joins it.

use bevy_replicon::prelude::RepliconTick;
use vstd::prelude::*;

verus! {

/// The port that a game is hosted on unless another is given.
pub const DEFAULT_PORT: u16 = 5000;

/// The number that tells this game's packets from those of others.
pub const PROTOCOL_ID: u64 = 0;

/// The number of clients that a host accepts.
pub const MAX_CLIENTS: usize = 10;

/// `bevy_replicon`'s `RepliconTick`, the counter by which the replication
/// layer orders the states it sends. Nothing is known of a tick but the
/// number that [`replicon_tick_value`] names.
#[verifier::external_type_specification]
#[verifier::external_body]
pub struct ExRepliconTick(RepliconTick);

/// The number that a `bevy_replicon` tick holds.
pub uninterp spec fn replicon_tick_value(tick: RepliconTick) -> u32;

/// `RepliconTick::get` hands out the number that the tick holds.
pub assume_specification[ RepliconTick::get ](tick: RepliconTick) -> (value: u32)
    ensures
        value == replicon_tick_value(tick),
;

/// `RepliconTick::increment_by` adds `value` to the number that the tick
/// holds, and starts again from zero where 32 bits are exceeded.
pub assume_specification[ RepliconTick::increment_by ](tick: &mut RepliconTick, value: u32)
    ensures
        replicon_tick_value(*final(tick)) == (replicon_tick_value(*old(tick)) + value)
            % 0x1_0000_0000,
;

/// `bevy_replicon::server::SERVER_ID`, as a number: the identifier that
/// stands for the authority itself is zero.
#[verifier::external_body]
fn server_id() -> (id: u64)
    ensures
        id == 0,
{
    bevy_replicon::prelude::SERVER_ID.raw()
}

/// The frame counter of this process: the number of fixed steps taken.
#[derive(Clone, Copy, Debug, PartialEq, Eq, Structural)]
pub struct GameClock {
    frame: u32,
}

impl GameClock {
    /// The number of fixed steps taken, in contracts.
    pub closed spec fn count(self) -> int {
        self.frame as int
    }

    /// A clock that has taken `frame` steps.
    pub fn new(frame: u32) -> (clock: GameClock)
        ensures
            clock.count() == frame,
    {
        GameClock { frame }
    }

    /// The number of fixed steps taken.
    pub fn frame(&self) -> (frame: u32)
        ensures
            frame == self.count(),
    {
        self.frame
    }

    /// Counts `steps` more steps.
    pub fn advance(&mut self, steps: u32)
        requires
            old(self).count() + steps <= u32::MAX,
        ensures
            final(self).count() == old(self).count() + steps,
    {
        self.frame = self.frame + steps;
    }
}

/// The clock and the tick after one fixed step: the clock counts one more,
/// and the tick is raised to the clock where it was behind.
pub open spec fn synced(frame: int, tick: int) -> (int, int) {
    (frame + 1, if tick < frame + 1 {
        frame + 1
    } else {
        tick
    })
}

/// The clock and the tick after `steps` fixed steps.
pub open spec fn synced_after(frame: int, tick: int, steps: nat) -> (int, int)
    decreases steps,
{
    if steps == 0 {
        (frame, tick)
    } else {
        let before = synced_after(frame, tick, (steps - 1) as nat);
        synced(before.0, before.1)
    }
}

/// Over any number of steps the tick never falls, and where it starts at or
/// behind the clock it never gets ahead of it: from the first step on the
/// two are equal.
pub proof fn lemma_tick_follows_clock(frame: int, tick: int, steps: nat)
    ensures
        synced_after(frame, tick, steps).0 == frame + steps,
        synced_after(frame, tick, steps).1 >= tick,
        steps > 0 ==> synced_after(frame, tick, steps).1 >= synced_after(
            frame,
            tick,
            (steps - 1) as nat,
        ).1,
        tick <= frame ==> synced_after(frame, tick, steps).1 <= synced_after(
            frame,
            tick,
            steps,
        ).0,
        tick <= frame && steps > 0 ==> synced_after(frame, tick, steps).1 == frame + steps,
    decreases steps,
{
    if steps > 0 {
        lemma_tick_follows_clock(frame, tick, (steps - 1) as nat);
    }
}

/// The network plugin: what it decides, with the engine left out.
pub struct NetcodePlugin;

impl NetcodePlugin {
    /// One fixed step of the clocks: the frame counter counts one more step,
    /// and the replication tick is raised to it. A tick that is ahead of
    /// the counter is left as it is: the tick is never lowered.
    pub fn frame_inc_and_replicon_tick_sync(
        game_clock: &mut GameClock,
        replicon_tick: &mut RepliconTick,
    )
        requires
            old(game_clock).count() < u32::MAX,
        ensures
            (final(game_clock).count(), replicon_tick_value(*final(replicon_tick)) as int)
                == synced(old(game_clock).count(), replicon_tick_value(*old(replicon_tick)) as int),
    {
        game_clock.advance(1);
        let delta: u32 = game_clock.frame().saturating_sub(replicon_tick.get());
        replicon_tick.increment_by(delta);
    }
}

/// What the server tells of its clients.
#[derive(Clone, Copy, Debug, PartialEq, Eq, Structural)]
pub enum ServerEvent {
    ClientConnected { client_id: u64 },
    ClientDisconnected { client_id: u64 },
}

/// The clients that connected among the first `hi` events, in their order.
pub open spec fn connected_upto(events: Seq<ServerEvent>, hi: int) -> Seq<u64>
    decreases hi,
{
    if hi <= 0 {
        Seq::empty()
    } else {
        match events[hi - 1] {
            ServerEvent::ClientConnected { client_id } => connected_upto(events, hi - 1).push(
                client_id,
            ),
            ServerEvent::ClientDisconnected { .. } => connected_upto(events, hi - 1),
        }
    }
}

/// How a process takes part in a game.
#[derive(Clone, Copy, Debug, PartialEq, Eq, Structural)]
pub enum NetcodeSetup {
    /// It hosts: it binds `ip` and `port`, accepts `max_clients` clients,
    /// and steers a player of its own under the identifier `local_player`.
    Host { ip: IpAddress, port: u16, max_clients: usize, protocol_id: u64, local_player: u64 },
    /// It joins the host at `ip` and `port` under the identifier `client_id`.
    Join { ip: IpAddress, port: u16, client_id: u64, protocol_id: u64 },
}

/// How a process leaves a game.
#[derive(Clone, Copy, Debug, PartialEq, Eq, Structural)]
pub enum NetcodeTeardown {
    /// A host disconnects all its clients.
    DisconnectAll,
    /// A client disconnects itself.
    Disconnect,
}

/// How a process configured by `config` takes part, when
/// `millis_since_epoch` milliseconds have passed since 1970: a host plays
/// under the identifier of the authority, a client under the low 64 bits of
/// the time.
pub open spec fn netcode_setup(config: NetcodeConfig, millis_since_epoch: u128) -> NetcodeSetup {
    match config {
        NetcodeConfig::Server { ip, port } => NetcodeSetup::Host {
            ip,
            port,
            max_clients: MAX_CLIENTS,
            protocol_id: PROTOCOL_ID,
            local_player: 0,
        },
        NetcodeConfig::Client { ip, port } => NetcodeSetup::Join {
            ip,
            port,
            client_id: (millis_since_epoch as int % 0x1_0000_0000_0000_0000) as u64,
            protocol_id: PROTOCOL_ID,
        },
    }
}

impl NetcodePlugin {
    /// Decides how to set up the server or the client, depending on `config`.
    pub fn add_netcode(config: &NetcodeConfig, millis_since_epoch: u128) -> (setup: NetcodeSetup)
        ensures
            setup == netcode_setup(*config, millis_since_epoch),
    {
        match *config {
            NetcodeConfig::Server { ip, port } => NetcodeSetup::Host {
                ip,
                port,
                max_clients: MAX_CLIENTS,
                protocol_id: PROTOCOL_ID,
                local_player: server_id(),
            },
            NetcodeConfig::Client { ip, port } => NetcodeSetup::Join {
                ip,
                port,
                client_id: (millis_since_epoch % 0x1_0000_0000_0000_0000) as u64,
                protocol_id: PROTOCOL_ID,
            },
        }
    }

    /// Decides how to leave the game, depending on `config`.
    pub fn disconnect_netcode(config: &NetcodeConfig) -> (teardown: NetcodeTeardown)
        ensures
            teardown == match *config {
                NetcodeConfig::Server { .. } => NetcodeTeardown::DisconnectAll,
                NetcodeConfig::Client { .. } => NetcodeTeardown::Disconnect,
            },
    {
        match *config {
            NetcodeConfig::Server { .. } => NetcodeTeardown::DisconnectAll,
            NetcodeConfig::Client { .. } => NetcodeTeardown::Disconnect,
        }
    }

    /// The clients for whom a player is to be spawned: those that connected,
    /// in the order of the events.
    pub fn server_event_system(server_event: &Vec<ServerEvent>) -> (spawns: Vec<u64>)
        ensures
            spawns@ == connected_upto(server_event@, server_event@.len() as int),
    {
        let mut spawns: Vec<u64> = Vec::new();
        let mut i: usize = 0;
        while i < server_event.len()
            invariant
                i <= server_event@.len(),
                spawns@ == connected_upto(server_event@, i as int),
            decreases server_event@.len() - i,
        {
            match server_event[i] {
                ServerEvent::ClientConnected { client_id } => {
                    spawns.push(client_id);
                },
                ServerEvent::ClientDisconnected { .. } => {},
            }
            i += 1;
        }
        spawns
    }
}

/// Who this process is on the network.
#[derive(Clone, Copy, Debug, PartialEq, Eq)]
pub struct ClientID {
    /// The identifier that the client transport holds, where there is one.
    pub transport: Option<u64>,
}

impl ClientID {
    /// The identifier of this process: that of its client transport, or,
    /// where it has none, the one that stands for the authority.
    pub fn id(&self) -> (id: u64)
        ensures
            id == match self.transport {
                Some(client) => client,
                None => 0,
            },
    {
        match self.transport {
            Some(client) => client,
            None => server_id(),
        }
    }
}

/// An address on the network.
#[derive(Clone, Copy, Debug, PartialEq, Eq, Structural)]
pub enum IpAddress {
    V4(u8, u8, u8, u8),
    V6(u16, u16, u16, u16, u16, u16, u16, u16),
}

/// Holds information about what ip and port to connect to, or host on.
#[derive(Clone, Copy, Debug, PartialEq, Eq, Structural)]
pub enum NetcodeConfig {
    Server { ip: IpAddress, port: u16 },
    Client { ip: IpAddress, port: u16 },
}

impl NetcodeConfig {
    /// Hosting on every address of this machine.
    pub fn new_hosting_public() -> (config: NetcodeConfig)
        ensures
            config == (NetcodeConfig::Server { ip: IpAddress::V4(0, 0, 0, 0), port: DEFAULT_PORT }),
    {
        NetcodeConfig::Server { ip: IpAddress::V4(0, 0, 0, 0), port: DEFAULT_PORT }
    }

    /// Hosting for this machine alone.
    pub fn new_hosting_machine_local() -> (config: NetcodeConfig)
        ensures
            config == (NetcodeConfig::Server {
                ip: IpAddress::V4(127, 0, 0, 1),
                port: DEFAULT_PORT,
            }),
    {
        NetcodeConfig::Server { ip: IpAddress::V4(127, 0, 0, 1), port: DEFAULT_PORT }
    }

    /// Joining a game hosted on this machine.
    pub fn new_client_machine_local() -> (config: NetcodeConfig)
        ensures
            config == (NetcodeConfig::Client {
                ip: IpAddress::V4(127, 0, 0, 1),
                port: DEFAULT_PORT,
            }),
    {
        NetcodeConfig::Client { ip: IpAddress::V4(127, 0, 0, 1), port: DEFAULT_PORT }
    }
}

} // verus!
