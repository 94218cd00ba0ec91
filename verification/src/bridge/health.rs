//! Whether the daemon is still there, and when to build the connection anew.
//!
//! Times are milliseconds of a clock that never runs backwards.

use vstd::prelude::*;

use crate::bridge::events::Channel;

verus! {

/// A stream that is down for this many milliseconds counts as stalled.
pub const STALL_THRESHOLD_MS: u64 = 15_000;

/// The least number of seconds between two rebuilds.
pub const REBUILD_COOLDOWN_SECS: u64 = 60;

/// The least number of seconds between two attempts to connect at all.
pub const AUTO_RECONNECT_COOLDOWN_SECS: u64 = 5;

/// After this many failures in a row the rebuild cooldown stops growing.
pub const REBUILD_BACKOFF_CAP: u32 = 4;

/// How long a caller waits for a connection that another one is opening.
pub const CONNECT_WAIT_TIMEOUT_MS: u64 = 25_000;

/// The state of an event channel.
#[derive(Debug, Clone, Copy, PartialEq, Eq, Structural)]
pub enum ChannelStatus {
    Connecting,
    Open { cursor: u64 },
    Reconnecting { retry_ms: u64, last_cursor: u64 },
    Closed,
}

/// The state of the timeline stream.
#[derive(Debug, Clone, Copy, PartialEq, Eq, Structural)]
pub enum TimelineStatus {
    Connecting,
    Open { cursor: u64 },
    Reconnecting { retry_ms: u64, cursor: u64 },
    Closed,
}

/// `base`, doubled `times` times.
pub open spec fn doubled(base: nat, times: nat) -> nat
    decreases times,
{
    if times == 0 {
        base
    } else {
        2 * doubled(base, (times - 1) as nat)
    }
}

/// The smaller of two numbers.
pub open spec fn at_most(n: nat, cap: nat) -> nat {
    if n < cap {
        n
    } else {
        cap
    }
}

/// The seconds between two rebuilds after so many failures in a row.
pub open spec fn rebuild_cooldown(failures: nat) -> nat {
    doubled(REBUILD_COOLDOWN_SECS as nat, at_most(failures, REBUILD_BACKOFF_CAP as nat))
}

/// The seconds between two attempts to connect after so many failures in a row.
pub open spec fn reconnect_cooldown(failures: nat) -> nat {
    doubled(AUTO_RECONNECT_COOLDOWN_SECS as nat, at_most(failures, REBUILD_BACKOFF_CAP as nat + 2))
}

/// Doubling more often gives no less.
proof fn doubled_grows(base: nat, fewer: nat, more: nat)
    requires
        fewer <= more,
    ensures
        doubled(base, fewer) <= doubled(base, more),
    decreases more,
{
    if fewer < more {
        doubled_grows(base, fewer, (more - 1) as nat);
    }
}

/// More failures never shorten a cooldown, and none grows past its cap.
pub proof fn cooldowns_grow_up_to_a_cap(fewer: nat, more: nat)
    requires
        fewer <= more,
    ensures
        rebuild_cooldown(fewer) <= rebuild_cooldown(more) <= 960,
        reconnect_cooldown(fewer) <= reconnect_cooldown(more) <= 320,
        rebuild_cooldown(0) == 60,
        reconnect_cooldown(0) == 5,
{
    let cap = REBUILD_BACKOFF_CAP as nat;
    doubled_grows(60, at_most(fewer, cap), at_most(more, cap));
    doubled_grows(60, at_most(more, cap), cap);
    doubled_grows(5, at_most(fewer, cap + 2), at_most(more, cap + 2));
    doubled_grows(5, at_most(more, cap + 2), cap + 2);
    assert(doubled(60, 4) == 960) by {
        reveal_with_fuel(doubled, 5);
    }
    assert(doubled(5, 6) == 320) by {
        reveal_with_fuel(doubled, 7);
    }
}

/// `base`, doubled `times` times.
fn double(base: u64, times: u32) -> (r: u64)
    requires
        base <= 60,
        times <= 6,
    ensures
        r == doubled(base as nat, times as nat),
{
    let mut r: u64 = base;
    let mut i: u32 = 0;
    proof {
        reveal_with_fuel(doubled, 7);
    }
    while i < times
        invariant
            i <= times <= 6,
            base <= 60,
            r == doubled(base as nat, i as nat),
            r <= doubled(60, i as nat),
            doubled(60, i as nat) <= doubled(60, 6),
            doubled(60, 6) == 3840,
        decreases times - i,
    {
        proof {
            doubled_grows(60, (i + 1) as nat, 6);
        }
        r = r * 2;
        i = i + 1;
    }
    r
}

/// The seconds between two rebuilds after so many failures in a row.
pub fn rebuild_cooldown_for(failures: u32) -> (r: u64)
    ensures
        r == rebuild_cooldown(failures as nat),
{
    let times: u32 = if failures < REBUILD_BACKOFF_CAP {
        failures
    } else {
        REBUILD_BACKOFF_CAP
    };
    double(REBUILD_COOLDOWN_SECS, times)
}

/// The seconds between two attempts to connect after so many failures in a row.
pub fn auto_reconnect_cooldown_for(failures: u32) -> (r: u64)
    ensures
        r == reconnect_cooldown(failures as nat),
{
    let cap: u32 = REBUILD_BACKOFF_CAP + 2;
    let times: u32 = if failures < cap {
        failures
    } else {
        cap
    };
    double(AUTO_RECONNECT_COOLDOWN_SECS, times)
}

/// What the shell knows of the connection.
#[derive(Debug, Clone, Copy)]
pub struct Health {
    /// A client is connected.
    pub connected: bool,
    /// A client is being connected.
    pub connecting: bool,
    /// The connection is being built anew.
    pub rebuilding: bool,
    pub control: Option<ChannelStatus>,
    pub tool: Option<ChannelStatus>,
    pub conversation: Option<ChannelStatus>,
    pub timeline_status: Option<TimelineStatus>,
    /// Since when the timeline stream is down.
    pub timeline_stall_since: Option<u64>,
    /// Since when no channel is open.
    pub channels_stall_since: Option<u64>,
    pub last_rebuild_at: u64,
    pub last_auto_reconnect_at: u64,
    /// How many rebuilds failed in a row.
    pub rebuild_failures: u32,
}

/// Whether the timeline stream is as it should be.
pub open spec fn timeline_ok(status: TimelineStatus) -> bool {
    status is Open || status is Closed
}

/// Whether a channel is open.
pub open spec fn is_open(status: Option<ChannelStatus>) -> bool {
    status matches Some(s) && s is Open
}

/// Whether some channel is open.
pub open spec fn any_open(h: Health) -> bool {
    is_open(h.control) || is_open(h.tool) || is_open(h.conversation)
}

/// Whether the state of some channel is known.
pub open spec fn any_tracked(h: Health) -> bool {
    h.control is Some || h.tool is Some || h.conversation is Some
}

/// Whether `since` lies so far back that a stream counts as stalled.
pub open spec fn overdue(since: u64, now: u64) -> bool {
    now - since >= STALL_THRESHOLD_MS
}

/// Whether the timeline stream is stalled.
pub open spec fn timeline_stalled(h: Health, now: u64) -> bool {
    match (h.timeline_status, h.timeline_stall_since) {
        (Some(status), Some(since)) => !timeline_ok(status) && overdue(since, now),
        _ => false,
    }
}

/// Whether the channels are stalled.
pub open spec fn channels_stalled(h: Health, now: u64) -> bool {
    match h.channels_stall_since {
        Some(since) => any_tracked(h) && !any_open(h) && overdue(since, now),
        None => false,
    }
}

/// Since when the timeline stream is down, looked at `now`.
pub open spec fn timeline_since(h: Health, now: u64) -> Option<u64> {
    match h.timeline_status {
        None => h.timeline_stall_since,
        Some(s) => if timeline_ok(s) {
            None
        } else if h.timeline_stall_since is None {
            Some(now)
        } else {
            h.timeline_stall_since
        },
    }
}

/// Since when no channel is open, looked at `now`.
pub open spec fn channels_since(h: Health, now: u64) -> Option<u64> {
    if any_open(h) || !any_tracked(h) {
        None
    } else if h.channels_stall_since is None {
        Some(now)
    } else {
        h.channels_stall_since
    }
}

/// The state after a look at the streams: the timers start when a stream is
/// first seen down and stop when it is up again. The channels are not looked at
/// where the timeline stream is stalled.
pub open spec fn after_look(h: Health, now: u64) -> Health {
    if timeline_stalled(h, now) {
        h
    } else {
        Health {
            timeline_stall_since: timeline_since(h, now),
            channels_stall_since: channels_since(h, now),
            ..h
        }
    }
}

/// Whether a look at the streams finds the daemon gone.
pub open spec fn gone(h: Health, now: u64) -> bool {
    timeline_stalled(h, now) || channels_stalled(h, now)
}

/// Whether `secs` seconds have passed since `then`.
pub open spec fn cooled(then: u64, secs: nat, now: u64) -> bool {
    now - then >= secs * 1000
}

/// The connection is built anew from `now` on.
pub open spec fn rebuilding_from(h: Health, now: u64) -> Health {
    Health { rebuilding: true, last_rebuild_at: now, ..h }
}

/// Whether the heartbeat at `now` starts a rebuild: never during one; without a
/// client whenever the reconnect cooldown has passed; with one when the rebuild
/// cooldown has passed and the daemon is found gone.
pub open spec fn rebuild_due(h: Health, now: u64) -> bool {
    if h.rebuilding {
        false
    } else if !h.connected {
        cooled(h.last_auto_reconnect_at, reconnect_cooldown(h.rebuild_failures as nat), now)
    } else {
        cooled(h.last_rebuild_at, rebuild_cooldown(h.rebuild_failures as nat), now) && gone(h, now)
    }
}

/// The state after the heartbeat at `now`.
pub open spec fn after_heartbeat(h: Health, now: u64) -> Health {
    if h.rebuilding {
        h
    } else if !h.connected {
        if rebuild_due(h, now) {
            rebuilding_from(Health { last_auto_reconnect_at: now, ..h }, now)
        } else {
            h
        }
    } else if !cooled(h.last_rebuild_at, rebuild_cooldown(h.rebuild_failures as nat), now) {
        h
    } else if gone(h, now) {
        rebuilding_from(after_look(h, now), now)
    } else {
        after_look(h, now)
    }
}

/// No state known, nothing timed.
pub open spec fn timers_reset(h: Health) -> Health {
    Health {
        timeline_stall_since: None,
        channels_stall_since: None,
        timeline_status: None,
        ..h
    }
}

/// The number of failures after one more.
pub open spec fn one_more(failures: u32) -> u32 {
    if failures == u32::MAX {
        0
    } else {
        (failures + 1) as u32
    }
}

/// The state once a rebuild has ended.
pub open spec fn after_rebuild(h: Health, connected: bool) -> Health {
    timers_reset(
        Health {
            rebuilding: false,
            rebuild_failures: if connected {
                0
            } else {
                one_more(h.rebuild_failures)
            },
            connected,
            ..h
        },
    )
}

/// While the cooldown of a rebuild lasts, no heartbeat of a connected shell
/// starts another one, whatever the streams look like.
pub proof fn cooldown_blocks_rebuild(h: Health, now: u64)
    requires
        h.connected,
        now - h.last_rebuild_at < 1000 * rebuild_cooldown(h.rebuild_failures as nat),
    ensures
        !rebuild_due(h, now),
        after_heartbeat(h, now) == h,
{
}

/// A rebuild that has started is not started again before it has ended.
pub proof fn one_rebuild_at_a_time(h: Health, now: u64, later: u64)
    requires
        rebuild_due(h, now),
    ensures
        after_heartbeat(h, now).rebuilding,
        !rebuild_due(after_heartbeat(h, now), later),
{
}

/// A stream that is first seen down is not yet stalled.
pub proof fn first_sight_is_no_stall(h: Health, now: u64)
    requires
        h.timeline_stall_since is None,
        h.channels_stall_since is None,
    ensures
        !gone(h, now),
{
}

/// A shell that knows nothing of any stream never finds the daemon gone, and no
/// timer starts.
pub proof fn unknown_streams_never_stall(h: Health, now: u64)
    requires
        h.timeline_status is None,
        h.timeline_stall_since is None,
        !any_tracked(h),
    ensures
        !gone(h, now),
        after_look(h, now).timeline_stall_since is None,
        after_look(h, now).channels_stall_since is None,
{
}

/// Each failure doubles a cooldown, from a minute and from five seconds on, until
/// the fourth and the sixth failure; after those it stays.
pub proof fn failures_double_the_cooldowns(failures: nat)
    ensures
        rebuild_cooldown(0) == 60,
        failures < 4 ==> rebuild_cooldown(failures + 1) == 2 * rebuild_cooldown(failures),
        failures >= 4 ==> rebuild_cooldown(failures) == 960,
        reconnect_cooldown(0) == 5,
        failures < 6 ==> reconnect_cooldown(failures + 1) == 2 * reconnect_cooldown(failures),
        failures >= 6 ==> reconnect_cooldown(failures) == 320,
{
    assert(doubled(60, 4) == 960) by {
        reveal_with_fuel(doubled, 5);
    }
    assert(doubled(5, 6) == 320) by {
        reveal_with_fuel(doubled, 7);
    }
}

/// The timeline stream counts as down while it is neither open nor closed, and
/// as stalled once it has been down for fifteen seconds. The channels count as
/// down while at least one of them is known and none is open. The daemon is gone
/// exactly when one of the two has stalled.
pub proof fn silence_of_fifteen_seconds_is_a_stall(h: Health, now: u64)
    ensures
        gone(h, now) <==> {
            ||| ((h.timeline_status matches Some(s) && (s is Connecting || s is Reconnecting))
                && (h.timeline_stall_since matches Some(since) && now >= since + 15_000))
            ||| ((h.control is Some || h.tool is Some || h.conversation is Some)
                && !(h.control matches Some(s) && s is Open) && !(h.tool matches Some(s)
                && s is Open) && !(h.conversation matches Some(s) && s is Open)
                && (h.channels_stall_since matches Some(since) && now >= since + 15_000))
        },
{
}

/// A timeline stream that a heartbeat finds down is timed from then on: fifteen
/// seconds later the daemon counts as gone if the stream has not come back, and
/// one that came back is timed no longer.
pub proof fn stall_is_timed_from_first_sight(
    h: Health,
    status: TimelineStatus,
    seen: u64,
    later: u64,
)
    requires
        h.timeline_status matches Some(s) && (s is Connecting || s is Reconnecting),
        h.timeline_stall_since is None,
    ensures
        after_look(h, seen).timeline_stall_since == Some(seen),
        later >= seen + 15_000 ==> gone(after_look(h, seen), later),
        (status is Open || status is Closed) ==> after_look(
            Health { timeline_status: Some(status), ..after_look(h, seen) },
            later,
        ).timeline_stall_since is None,
{
}

/// Channels of which one is known and none is open are timed from first sight;
/// one that opens stops the clock.
pub proof fn channels_are_timed_from_first_sight(
    h: Health,
    status: ChannelStatus,
    seen: u64,
    later: u64,
)
    requires
        h.timeline_status is None,
        h.channels_stall_since is None,
        h.control is Some || h.tool is Some || h.conversation is Some,
        !(h.control matches Some(s) && s is Open),
        !(h.tool matches Some(s) && s is Open),
        !(h.conversation matches Some(s) && s is Open),
    ensures
        after_look(h, seen).channels_stall_since == Some(seen),
        gone(after_look(h, seen), later) <==> later >= seen + 15_000,
        status is Open ==> {
            let seen_down = after_look(h, seen);
            let control_up = Health { control: Some(status), ..seen_down };
            let tool_up = Health { tool: Some(status), ..seen_down };
            let conversation_up = Health { conversation: Some(status), ..seen_down };
            &&& after_look(control_up, later).channels_stall_since is None
            &&& after_look(tool_up, later).channels_stall_since is None
            &&& after_look(conversation_up, later).channels_stall_since is None
        },
{
}

/// A heartbeat starts a rebuild without a client once the reconnect cooldown is
/// over, and with one once the rebuild cooldown is over and the daemon is gone.
/// It starts none during a rebuild. A rebuild that it starts is noted with its
/// time; where it starts none, those times stay.
pub proof fn heartbeat_starts_rebuilds_in_time(h: Health, now: u64)
    ensures
        ({
            let after = after_heartbeat(h, now);
            let due = rebuild_due(h, now);
            let since_rebuild = now - h.last_rebuild_at;
            let since_reconnect = now - h.last_auto_reconnect_at;
            &&& h.rebuilding ==> !due && after == h
            &&& !h.rebuilding && !h.connected ==> (due <==> since_reconnect >= 1000
                * reconnect_cooldown(h.rebuild_failures as nat))
            &&& !h.rebuilding && h.connected ==> (due <==> since_rebuild >= 1000
                * rebuild_cooldown(h.rebuild_failures as nat) && gone(h, now))
            &&& due ==> after.rebuilding && after.last_rebuild_at == now
            &&& due && !h.connected ==> after.last_auto_reconnect_at == now
            &&& !due || h.connected ==> after.last_auto_reconnect_at == h.last_auto_reconnect_at
            &&& !due ==> after.rebuilding == h.rebuilding && after.last_rebuild_at
                == h.last_rebuild_at
            &&& after.connected == h.connected
            &&& after.connecting == h.connecting
            &&& after.rebuild_failures == h.rebuild_failures
        }),
{
}

/// A rebuild that ends is over, whether it brought a client or not. With a client
/// the failures are forgotten, without one there is one more. The timers start
/// anew, and what the channels were stays known.
pub proof fn ended_rebuild_is_counted(h: Health, connected: bool)
    requires
        h.rebuild_failures < u32::MAX,
    ensures
        ({
            let after = after_rebuild(h, connected);
            &&& !after.rebuilding
            &&& after.connected == connected
            &&& connected ==> after.rebuild_failures == 0
            &&& !connected ==> after.rebuild_failures == h.rebuild_failures + 1
            &&& after.timeline_status is None
            &&& after.timeline_stall_since is None
            &&& after.channels_stall_since is None
            &&& after.control == h.control
            &&& after.tool == h.tool
            &&& after.conversation == h.conversation
            &&& after.last_rebuild_at == h.last_rebuild_at
            &&& after.last_auto_reconnect_at == h.last_auto_reconnect_at
            &&& after.connecting == h.connecting
        }),
{
}

/// What a caller who needs a client does.
#[derive(Debug, Clone, Copy, PartialEq, Eq, Structural)]
pub enum ConnectStep {
    /// Refuse: the connection is being built anew.
    Refuse,
    /// Use the client that is there.
    Reuse,
    /// Wait for the attempt of another caller.
    Wait,
    /// Connect.
    Connect,
}

/// What a caller who waits for another one's attempt finds.
#[derive(Debug, Clone, Copy, PartialEq, Eq, Structural)]
pub enum WaitStep {
    /// The client is there.
    Ready,
    /// The attempt failed.
    Failed,
    /// It took too long.
    TimedOut,
    /// Look again later.
    Again,
}

impl Health {
    /// Nothing is connected and nothing is known, at time `now`.
    pub fn new(now: u64) -> (r: Health)
        ensures
            r == (Health {
                connected: false,
                connecting: false,
                rebuilding: false,
                control: None,
                tool: None,
                conversation: None,
                timeline_status: None,
                timeline_stall_since: None,
                channels_stall_since: None,
                last_rebuild_at: now,
                last_auto_reconnect_at: now,
                rebuild_failures: 0,
            }),
    {
        Health {
            connected: false,
            connecting: false,
            rebuilding: false,
            control: None,
            tool: None,
            conversation: None,
            timeline_status: None,
            timeline_stall_since: None,
            channels_stall_since: None,
            last_rebuild_at: now,
            last_auto_reconnect_at: now,
            rebuild_failures: 0,
        }
    }

    /// Notes the state of a channel.
    pub fn emit_status(&mut self, channel: Channel, status: ChannelStatus)
        ensures
            *final(self) == match channel {
                Channel::Control => (Health { control: Some(status), ..*old(self) }),
                Channel::Tool => (Health { tool: Some(status), ..*old(self) }),
                Channel::Conversation => (Health { conversation: Some(status), ..*old(self) }),
            },
    {
        match channel {
            Channel::Control => {
                self.control = Some(status);
            },
            Channel::Tool => {
                self.tool = Some(status);
            },
            Channel::Conversation => {
                self.conversation = Some(status);
            },
        }
    }

    /// Looks at the streams. Says whether the daemon is gone.
    pub fn compute_stall(&mut self, now: u64) -> (r: bool)
        ensures
            r == gone(*old(self), now),
            *final(self) == after_look(*old(self), now),
    {
        if let Some(status) = self.timeline_status {
            let healthy = match status {
                TimelineStatus::Open { .. } => true,
                TimelineStatus::Closed => true,
                _ => false,
            };
            if healthy {
                self.timeline_stall_since = None;
            } else {
                match self.timeline_stall_since {
                    None => {
                        self.timeline_stall_since = Some(now);
                    },
                    Some(since) => {
                        if now >= since && now - since >= STALL_THRESHOLD_MS {
                            return true;
                        }
                    },
                }
            }
        }
        let open = channel_open(self.control) || channel_open(self.tool) || channel_open(
            self.conversation,
        );
        let known = self.control.is_some() || self.tool.is_some() || self.conversation.is_some();
        if open || !known {
            self.channels_stall_since = None;
        } else {
            match self.channels_stall_since {
                None => {
                    self.channels_stall_since = Some(now);
                },
                Some(since) => {
                    if now >= since && now - since >= STALL_THRESHOLD_MS {
                        return true;
                    }
                },
            }
        }
        false
    }

    /// Starts a rebuild.
    pub fn rebuild_client(&mut self, now: u64)
        ensures
            *final(self) == rebuilding_from(*old(self), now),
    {
        self.rebuilding = true;
        self.last_rebuild_at = now;
    }

    /// The heartbeat. Says whether a rebuild was started.
    pub fn check_daemon_health(&mut self, now: u64) -> (r: bool)
        ensures
            r == rebuild_due(*old(self), now),
            *final(self) == after_heartbeat(*old(self), now),
    {
        proof {
            cooldowns_grow_up_to_a_cap(
                self.rebuild_failures as nat,
                self.rebuild_failures as nat,
            );
        }
        if self.rebuilding {
            return false;
        }
        if !self.connected {
            let wait: u64 = auto_reconnect_cooldown_for(self.rebuild_failures) * 1000;
            if now >= self.last_auto_reconnect_at && now - self.last_auto_reconnect_at >= wait {
                self.last_auto_reconnect_at = now;
                self.rebuild_client(now);
                return true;
            }
            return false;
        }
        let wait: u64 = rebuild_cooldown_for(self.rebuild_failures) * 1000;
        if now < self.last_rebuild_at || now - self.last_rebuild_at < wait {
            return false;
        }
        if self.compute_stall(now) {
            self.rebuild_client(now);
            return true;
        }
        false
    }

    /// Forgets what is known of the streams.
    pub fn reset_stall_timers(&mut self)
        ensures
            *final(self) == timers_reset(*old(self)),
    {
        self.timeline_stall_since = None;
        self.channels_stall_since = None;
        self.timeline_status = None;
    }

    /// Ends a rebuild, with or without a client.
    pub fn finish_rebuild(&mut self, connected: bool)
        ensures
            *final(self) == after_rebuild(*old(self), connected),
    {
        if connected {
            self.rebuild_failures = 0;
        } else if self.rebuild_failures == u32::MAX {
            self.rebuild_failures = 0;
        } else {
            self.rebuild_failures = self.rebuild_failures + 1;
        }
        self.connected = connected;
        self.rebuilding = false;
        self.reset_stall_timers();
    }

    /// What a caller who needs a client does. The first caller who finds none
    /// connects; the others wait for that attempt.
    pub fn connect_client(&mut self) -> (r: ConnectStep)
        ensures
            r == (if old(self).connected {
                ConnectStep::Reuse
            } else if old(self).connecting {
                ConnectStep::Wait
            } else {
                ConnectStep::Connect
            }),
            *final(self) == (if r == ConnectStep::Connect {
                Health { connecting: true, ..*old(self) }
            } else {
                *old(self)
            }),
    {
        if self.connected {
            return ConnectStep::Reuse;
        }
        if self.connecting {
            return ConnectStep::Wait;
        }
        self.connecting = true;
        ConnectStep::Connect
    }

    /// `connect_client`, except that no caller gets through during a rebuild.
    pub fn ensure_client(&mut self) -> (r: ConnectStep)
        ensures
            r == (if old(self).rebuilding {
                ConnectStep::Refuse
            } else if old(self).connected {
                ConnectStep::Reuse
            } else if old(self).connecting {
                ConnectStep::Wait
            } else {
                ConnectStep::Connect
            }),
            *final(self) == (if r == ConnectStep::Connect {
                Health { connecting: true, ..*old(self) }
            } else {
                *old(self)
            }),
    {
        if self.rebuilding {
            return ConnectStep::Refuse;
        }
        self.connect_client()
    }

    /// Ends an attempt to connect.
    pub fn finish_connect(&mut self, connected: bool)
        ensures
            *final(self) == (Health { connecting: false, connected, ..*old(self) }),
    {
        self.connecting = false;
        self.connected = connected;
    }

    /// What a caller finds who has waited since `started` for another one's
    /// attempt.
    pub fn wait_connect_result(&self, started: u64, now: u64) -> (r: WaitStep)
        ensures
            r == (if self.connected {
                WaitStep::Ready
            } else if !self.connecting {
                WaitStep::Failed
            } else if now - started >= CONNECT_WAIT_TIMEOUT_MS {
                WaitStep::TimedOut
            } else {
                WaitStep::Again
            }),
    {
        if self.connected {
            return WaitStep::Ready;
        }
        if !self.connecting {
            return WaitStep::Failed;
        }
        if now >= started && now - started >= CONNECT_WAIT_TIMEOUT_MS {
            return WaitStep::TimedOut;
        }
        WaitStep::Again
    }
}

/// Whether a channel is open.
fn channel_open(status: Option<ChannelStatus>) -> (r: bool)
    ensures
        r == is_open(status),
{
    match status {
        Some(ChannelStatus::Open { .. }) => true,
        _ => false,
    }
}

} // verus!
