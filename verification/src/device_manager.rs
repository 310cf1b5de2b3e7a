//! The connectivity manager: one device's session, kept alive across probe
//! failures and address changes.
//!
//! The manager performs no I/O. Its caller probes the device, searches the
//! network and sleeps; the manager is told what came of it and says what to
//! do next. [`step`] is the whole state machine as a mathematical function,
//! and every method states which step it takes.

use crate::discovery::device_views;
use crate::discovery::DeviceView;
use crate::discovery::DiscoveryError;
use crate::discovery::SonosDevice;
use vstd::prelude::*;

verus! {

/// Seconds after which a probe that got no answer counts as failed.
pub const CONNECTION_TIMEOUT_SECS: u64 = 5;

/// Failed probes in a row that a manager tolerates unless told otherwise.
pub const MAX_RETRIES: u32 = 5;

/// Seconds to wait after a rediscovery that did not find the device.
pub const RETRY_DELAY_SECS: u64 = 5;

/// Milliseconds for which a rediscovery listens for answers: longer than a
/// first discovery does, since a recovering device may be slow to respond.
pub const REDISCOVERY_SEARCH_TIMEOUT: u64 = 30000;

/// Milliseconds for which a rediscovery waits on a single answer.
pub const REDISCOVERY_RESPONSE_TIMEOUT: u64 = 10000;

/// The artist that a track is reported under where none is known.
pub const UNKNOWN_ARTIST: &'static str = "Unknown Artist";

/// Where a session stands.
#[derive(Debug, Clone, Copy, PartialEq, Eq, Structural)]
pub enum ConnectionState {
    Connected,
    Disconnected,
    Reconnecting,
}

/// What the caller does after a health check.
#[derive(Debug, Clone, Copy, PartialEq, Eq, Structural)]
pub enum HealthStep {
    /// The device answered: go on polling.
    Healthy,
    /// The retry budget is spent: the device is lost.
    GiveUp,
    /// Search the network for the device, with these timeouts in
    /// milliseconds, and report the outcome to
    /// [`DeviceManager::handle_rediscovery`].
    Rediscover { search_timeout: u64, response_timeout: u64 },
}

/// What the caller does after a rediscovery.
#[derive(Debug, Clone, Copy, PartialEq, Eq, Structural)]
pub enum RediscoveryStep {
    /// The device is on the network: go on polling.
    Resume,
    /// The device was not found: wait, and count this cycle as unhealthy.
    Backoff { delay_secs: u64 },
}

/// What a control session reports about the track it is playing.
#[derive(Debug, Clone, PartialEq, Eq)]
pub struct CurrentTrack {
    pub title: Option<String>,
    pub artist: Option<String>,
}

/// One device's session.
#[derive(Debug)]
pub struct DeviceManager {
    ip_addr: String,
    room_name: String,
    state: ConnectionState,
    /// The address that the open control session is bound to.
    speaker: Option<String>,
    retry_count: u32,
    max_retries: u32,
}

/// A [`DeviceManager`] as a mathematical value.
pub struct ManagerView {
    pub ip_addr: Seq<char>,
    pub room_name: Seq<char>,
    pub state: ConnectionState,
    pub speaker: Option<Seq<char>>,
    pub retry_count: nat,
    pub max_retries: nat,
}

/// What can happen to a manager.
pub enum ManagerEvent {
    /// The probe of a connection attempt came back.
    Connect { reachable: bool },
    /// A control session was opened at the manager's address.
    SessionOpened,
    /// The probe of a health check came back.
    Probe { reachable: bool },
    /// A rediscovery came back, with the devices it found if it ran at all.
    Rediscovery { found: Option<Seq<DeviceView>> },
}

/// A manager that has not connected yet.
pub open spec fn initial(ip_addr: Seq<char>, room_name: Seq<char>, max_retries: nat) -> ManagerView {
    ManagerView {
        ip_addr,
        room_name,
        state: ConnectionState::Disconnected,
        speaker: None,
        retry_count: 0,
        max_retries,
    }
}

/// The retry budget is spent.
pub open spec fn exhausted(m: ManagerView) -> bool {
    m.retry_count > m.max_retries
}

/// The manager right after a failed probe was counted.
pub open spec fn failure_noted(m: ManagerView) -> ManagerView {
    ManagerView { state: ConnectionState::Reconnecting, retry_count: m.retry_count + 1, ..m }
}

/// The first of `devices` whose room is `room`.
pub open spec fn first_in_room(devices: Seq<DeviceView>, room: Seq<char>) -> Option<DeviceView>
    decreases devices.len(),
{
    if devices.len() == 0 {
        None
    } else if devices[0].room_name == room {
        Some(devices[0])
    } else {
        first_in_room(devices.drop_first(), room)
    }
}

/// The device that a rediscovery found for the manager, if any.
pub open spec fn rediscovered(m: ManagerView, found: Option<Seq<DeviceView>>) -> Option<DeviceView> {
    match found {
        Some(devices) => first_in_room(devices, m.room_name),
        None => None,
    }
}

/// The manager after an event.
pub open spec fn step(m: ManagerView, event: ManagerEvent) -> ManagerView {
    match event {
        ManagerEvent::Connect { reachable } => if reachable {
            ManagerView { state: ConnectionState::Connected, retry_count: 0, ..m }
        } else {
            ManagerView { state: ConnectionState::Disconnected, ..m }
        },
        ManagerEvent::SessionOpened => ManagerView { speaker: Some(m.ip_addr), ..m },
        ManagerEvent::Probe { reachable } => if reachable {
            if m.state is Connected {
                m
            } else {
                ManagerView { state: ConnectionState::Connected, retry_count: 0, ..m }
            }
        } else if exhausted(failure_noted(m)) {
            ManagerView { state: ConnectionState::Disconnected, ..failure_noted(m) }
        } else {
            failure_noted(m)
        },
        ManagerEvent::Rediscovery { found } => match rediscovered(m, found) {
            Some(device) => ManagerView { ip_addr: device.ip_addr, ..m },
            None => m,
        },
    }
}

/// The states that a manager is in while it handles an event, in order: the
/// state it starts in, then each state it is set to.
pub open spec fn path(m: ManagerView, event: ManagerEvent) -> Seq<ConnectionState> {
    match event {
        ManagerEvent::Connect { reachable } => seq![m.state, step(m, event).state],
        ManagerEvent::SessionOpened => seq![m.state],
        ManagerEvent::Probe { reachable } => if reachable {
            seq![m.state, ConnectionState::Connected]
        } else if exhausted(failure_noted(m)) {
            seq![m.state, ConnectionState::Reconnecting, ConnectionState::Disconnected]
        } else {
            seq![m.state, ConnectionState::Reconnecting]
        },
        ManagerEvent::Rediscovery { found } => seq![m.state],
    }
}

/// The manager after a sequence of events.
pub open spec fn run(m: ManagerView, events: Seq<ManagerEvent>) -> ManagerView
    decreases events.len(),
{
    if events.len() == 0 {
        m
    } else {
        step(run(m, events.drop_last()), events.last())
    }
}

/// What a health check tells the caller to do.
pub open spec fn health_step(m: ManagerView, reachable: bool) -> HealthStep {
    if reachable {
        HealthStep::Healthy
    } else if exhausted(failure_noted(m)) {
        HealthStep::GiveUp
    } else {
        HealthStep::Rediscover {
            search_timeout: REDISCOVERY_SEARCH_TIMEOUT,
            response_timeout: REDISCOVERY_RESPONSE_TIMEOUT,
        }
    }
}

/// What a rediscovery tells the caller to do.
pub open spec fn rediscovery_step(m: ManagerView, found: Option<Seq<DeviceView>>) -> RediscoveryStep {
    if rediscovered(m, found) is Some {
        RediscoveryStep::Resume
    } else {
        RediscoveryStep::Backoff { delay_secs: RETRY_DELAY_SECS }
    }
}

/// The device list of a discovery outcome, if the discovery ran.
pub open spec fn found_devices(found: Result<Vec<SonosDevice>, DiscoveryError>) -> Option<
    Seq<DeviceView>,
> {
    match found {
        Ok(devices) => Some(device_views(devices@)),
        Err(_) => None,
    }
}

/// The URL that a probe of the device at `ip_addr` requests.
pub open spec fn probe_url_of(ip_addr: Seq<char>) -> Seq<char> {
    "http://"@ + ip_addr + ":1400/status/info"@
}

/// What is reported as playing: artist, title, and no album.
pub open spec fn now_playing(m: ManagerView, fetched: Result<CurrentTrack, String>) -> Option<
    (Seq<char>, Seq<char>),
> {
    match (m.speaker, fetched) {
        (Some(_), Ok(track)) => match track.title {
            Some(title) => Some(
                (
                    match track.artist {
                        Some(artist) => artist@,
                        None => UNKNOWN_ARTIST@,
                    },
                    title@,
                ),
            ),
            None => None,
        },
        _ => None,
    }
}

/// One of the four moves that a session's state may make.
pub open spec fn is_edge(from: ConnectionState, to: ConnectionState) -> bool {
    ||| from is Disconnected && to is Connected
    ||| from is Connected && to is Reconnecting
    ||| from is Reconnecting && to is Connected
    ||| from is Reconnecting && to is Disconnected
}

/// Each state in `states` is the one before it, or one edge away from it.
pub open spec fn along_edges(states: Seq<ConnectionState>) -> bool {
    forall|i: int|
        #![trigger states[i]]
        0 <= i < states.len() - 1 ==> states[i] == states[i + 1] || is_edge(
            states[i],
            states[i + 1],
        )
}

/// The two events that take a manager off the edges: a connection attempt
/// that fails while it is connected, and a health probe that fails while it
/// is disconnected.
pub open spec fn leaves_edges(m: ManagerView, event: ManagerEvent) -> bool {
    ||| event == (ManagerEvent::Connect { reachable: false }) && m.state is Connected
    ||| event == (ManagerEvent::Probe { reachable: false }) && m.state is Disconnected
}

/// The event is a probe that the device answered.
pub open spec fn resets_budget(event: ManagerEvent) -> bool {
    ||| event == (ManagerEvent::Connect { reachable: true })
    ||| event == (ManagerEvent::Probe { reachable: true })
}

/// How many of `events` are failed health probes.
pub open spec fn failed_probes(events: Seq<ManagerEvent>) -> nat
    decreases events.len(),
{
    if events.len() == 0 {
        0
    } else if events.last() == (ManagerEvent::Probe { reachable: false }) {
        failed_probes(events.drop_last()) + 1
    } else {
        failed_probes(events.drop_last())
    }
}

/// A connected manager has a fresh retry budget.
pub open spec fn fresh_when_connected(m: ManagerView) -> bool {
    m.state is Connected ==> m.retry_count == 0
}

/// `first_in_room` finds a device of the room, the earliest in the list, and
/// finds none only where the list holds none.
pub proof fn lemma_first_in_room(devices: Seq<DeviceView>, room: Seq<char>)
    ensures
        match first_in_room(devices, room) {
            Some(device) => exists|i: int|
                0 <= i < devices.len() && #[trigger] devices[i] == device && device.room_name
                    == room && forall|j: int| 0 <= j < i ==> (#[trigger] devices[j]).room_name
                    != room,
            None => forall|j: int| 0 <= j < devices.len() ==> (#[trigger] devices[j]).room_name
                != room,
        },
    decreases devices.len(),
{
    if devices.len() == 0 {
    } else if devices[0].room_name == room {
        assert(devices[0] == devices[0]);
    } else {
        let rest = devices.drop_first();
        lemma_first_in_room(rest, room);
        assert(forall|j: int| 0 <= j < rest.len() ==> rest[j] == devices[j + 1]);
        match first_in_room(rest, room) {
            Some(device) => {
                let i = choose|i: int|
                    0 <= i < rest.len() && #[trigger] rest[i] == device && device.room_name == room
                        && forall|j: int| 0 <= j < i ==> (#[trigger] rest[j]).room_name != room;
                assert(devices[i + 1] == device);
                assert forall|j: int| 0 <= j < i + 1 implies (#[trigger] devices[j]).room_name
                    != room by {
                    if j > 0 {
                        assert(rest[j - 1] == devices[j]);
                    }
                }
            },
            None => {
                assert forall|j: int| 0 <= j < devices.len() implies (#[trigger] devices[j]).room_name
                    != room by {
                    if j > 0 {
                        assert(rest[j - 1] == devices[j]);
                    }
                }
            },
        }
    }
}

/// The state of a session moves only along the four edges, whatever the
/// probes and rediscoveries bring, and never skips a state on the way: each
/// event's path starts where the manager stands, ends where it stands
/// afterwards, and takes one edge at a time. This holds of every sequence of
/// events none of which takes the manager off the edges.
pub proof fn lemma_states_move_along_edges(start: ManagerView, events: Seq<ManagerEvent>)
    requires
        forall|i: int|
            0 <= i < events.len() ==> !leaves_edges(
                run(start, #[trigger] events.take(i)),
                events[i],
            ),
    ensures
        forall|i: int|
            #![trigger events.take(i)]
            0 <= i < events.len() ==> {
                let before = run(start, events.take(i));
                let after = run(start, events.take(i + 1));
                &&& after == step(before, events[i])
                &&& along_edges(path(before, events[i]))
                &&& path(before, events[i]).first() == before.state
                &&& path(before, events[i]).last() == after.state
            },
{
    assert forall|i: int| #![trigger events.take(i)] 0 <= i < events.len() implies {
        let before = run(start, events.take(i));
        let after = run(start, events.take(i + 1));
        &&& after == step(before, events[i])
        &&& along_edges(path(before, events[i]))
        &&& path(before, events[i]).first() == before.state
        &&& path(before, events[i]).last() == after.state
    } by {
        assert(events.take(i + 1).drop_last() == events.take(i));
        assert(events.take(i + 1).last() == events[i]);
        assert(!leaves_edges(run(start, events.take(i)), events[i]));
    }
}

/// The retry count is zero after every move into `Connected`, and one
/// higher after every failed health probe. A manager that is connected only
/// with a fresh budget stays so.
pub proof fn lemma_retry_count(m: ManagerView, event: ManagerEvent)
    ensures
        step(m, event).state is Connected && !(m.state is Connected) ==> step(
            m,
            event,
        ).retry_count == 0,
        event == (ManagerEvent::Probe { reachable: false }) ==> step(m, event).retry_count
            == m.retry_count + 1,
        fresh_when_connected(m) ==> fresh_when_connected(step(m, event)),
        step(m, event).max_retries == m.max_retries,
{
}

/// A manager that starts out connected only with a fresh budget is, after
/// any sequence of events, connected only with a fresh budget.
pub proof fn lemma_connected_means_fresh_budget(start: ManagerView, events: Seq<ManagerEvent>)
    requires
        fresh_when_connected(start),
    ensures
        fresh_when_connected(run(start, events)),
    decreases events.len(),
{
    if events.len() > 0 {
        lemma_connected_means_fresh_budget(start, events.drop_last());
        lemma_retry_count(run(start, events.drop_last()), events.last());
    }
}

/// While no probe is answered, every failed health probe counts: the retry
/// count grows by their number. Once that takes it over the budget, the
/// manager is disconnected and the budget stays spent.
pub proof fn lemma_failures_exhaust_budget(start: ManagerView, events: Seq<ManagerEvent>)
    requires
        forall|i: int| 0 <= i < events.len() ==> !resets_budget(#[trigger] events[i]),
    ensures
        run(start, events).retry_count == start.retry_count + failed_probes(events),
        run(start, events).max_retries == start.max_retries,
        exhausted(start) ==> exhausted(run(start, events)),
        failed_probes(events) > 0 && start.retry_count + failed_probes(events) > start.max_retries
            ==> run(start, events).state is Disconnected,
    decreases events.len(),
{
    if events.len() > 0 {
        let earlier = events.drop_last();
        assert forall|i: int| 0 <= i < earlier.len() implies !resets_budget(
            #[trigger] earlier[i],
        ) by {
            assert(earlier[i] == events[i]);
        }
        lemma_failures_exhaust_budget(start, earlier);
        assert(!resets_budget(events[events.len() - 1]));
    }
}

/// A failed health probe on a manager whose budget is spent gives up, and
/// leaves the manager disconnected with its budget still spent.
pub proof fn lemma_spent_budget_gives_up(m: ManagerView)
    requires
        exhausted(m),
    ensures
        health_step(m, false) is GiveUp,
        step(m, ManagerEvent::Probe { reachable: false }).state is Disconnected,
        exhausted(step(m, ManagerEvent::Probe { reachable: false })),
{
}

/// A rediscovery that finds the manager's room binds the manager to the
/// address found there and lets the caller go on. Whether it finds the room
/// or not, it changes nothing else: not the state, and not the retry count.
pub proof fn lemma_rediscovery_rebinds_address_only(m: ManagerView, found: Option<Seq<DeviceView>>)
    ensures
        step(m, ManagerEvent::Rediscovery { found }) == (ManagerView {
            ip_addr: step(m, ManagerEvent::Rediscovery { found }).ip_addr,
            ..m
        }),
        match rediscovered(m, found) {
            Some(device) => {
                &&& device.room_name == m.room_name
                &&& step(m, ManagerEvent::Rediscovery { found }).ip_addr == device.ip_addr
                &&& rediscovery_step(m, found) is Resume
            },
            None => {
                &&& step(m, ManagerEvent::Rediscovery { found }) == m
                &&& rediscovery_step(m, found) is Backoff
            },
        },
{
    if let Some(devices) = found {
        lemma_first_in_room(devices, m.room_name);
    }
}


impl HealthStep {
    /// Whether the health check counts as healthy before any rediscovery.
    pub fn is_healthy(&self) -> (healthy: bool)
        ensures
            healthy == (*self is Healthy),
    {
        match self {
            HealthStep::Healthy => true,
            _ => false,
        }
    }
}

impl RediscoveryStep {
    /// Whether the caller may go on polling.
    pub fn may_continue(&self) -> (go_on: bool)
        ensures
            go_on == (*self is Resume),
    {
        match self {
            RediscoveryStep::Resume => true,
            _ => false,
        }
    }
}

impl View for DeviceManager {
    type V = ManagerView;

    closed spec fn view(&self) -> ManagerView {
        ManagerView {
            ip_addr: self.ip_addr@,
            room_name: self.room_name@,
            state: self.state,
            speaker: match self.speaker {
                Some(address) => Some(address@),
                None => None,
            },
            retry_count: self.retry_count as nat,
            max_retries: self.max_retries as nat,
        }
    }
}

impl DeviceManager {
    /// A manager for the device at `ip_addr` in `room_name`, not yet
    /// connected, with the default retry budget.
    pub fn new(ip_addr: String, room_name: String) -> (manager: Self)
        ensures
            manager@ == initial(ip_addr@, room_name@, MAX_RETRIES as nat),
    {
        Self::with_max_retries(ip_addr, room_name, MAX_RETRIES)
    }

    /// A manager that gives up after more than `max_retries` failed probes
    /// in a row.
    pub fn with_max_retries(ip_addr: String, room_name: String, max_retries: u32) -> (manager: Self)
        ensures
            manager@ == initial(ip_addr@, room_name@, max_retries as nat),
            fresh_when_connected(manager@),
    {
        DeviceManager {
            ip_addr,
            room_name,
            state: ConnectionState::Disconnected,
            speaker: None,
            retry_count: 0,
            max_retries,
        }
    }

    /// The address the manager is bound to.
    pub fn ip_addr(&self) -> (address: &String)
        ensures
            address@ == self@.ip_addr,
    {
        &self.ip_addr
    }

    /// The name by which the device is found again.
    pub fn room_name(&self) -> (name: &String)
        ensures
            name@ == self@.room_name,
    {
        &self.room_name
    }

    pub fn state(&self) -> (state: ConnectionState)
        ensures
            state == self@.state,
    {
        self.state
    }

    /// Failed probes since the device last answered.
    pub fn retry_count(&self) -> (count: u32)
        ensures
            count == self@.retry_count,
    {
        self.retry_count
    }

    pub fn max_retries(&self) -> (max: u32)
        ensures
            max == self@.max_retries,
    {
        self.max_retries
    }

    /// Whether a control session is open.
    pub fn has_speaker(&self) -> (open: bool)
        ensures
            open == (self@.speaker is Some),
    {
        self.speaker.is_some()
    }

    /// Whether the retry budget is spent.
    pub fn budget_exhausted(&self) -> (spent: bool)
        ensures
            spent == exhausted(self@),
    {
        self.retry_count > self.max_retries
    }

    /// The URL to request for a probe of the device.
    pub fn probe_url(&self) -> (url: String)
        ensures
            url@ == probe_url_of(self@.ip_addr),
    {
        String::from_str("http://").concat(self.ip_addr.as_str()).concat(":1400/status/info")
    }

    /// Takes in the probe of a connection attempt.
    ///
    /// A device that answered is connected, with a fresh retry budget; the
    /// caller then opens the control session and calls
    /// [`attach_speaker`](Self::attach_speaker). A failed probe leaves the
    /// manager disconnected and is handed back as the error.
    pub fn connect(&mut self, probe: Result<(), String>) -> (result: Result<(), String>)
        ensures
            match (probe, result) {
                (Ok(_), Ok(_)) => true,
                (Err(cause), Err(error)) => error == cause,
                _ => false,
            },
            final(self)@ == step(old(self)@, ManagerEvent::Connect { reachable: probe is Ok }),
            fresh_when_connected(old(self)@) ==> fresh_when_connected(final(self)@),
    {
        match probe {
            Ok(()) => {
                self.state = ConnectionState::Connected;
                self.retry_count = 0;
                Ok(())
            },
            Err(cause) => {
                self.state = ConnectionState::Disconnected;
                Err(cause)
            },
        }
    }

    /// Records that a control session was opened at the manager's address.
    pub fn attach_speaker(&mut self)
        ensures
            final(self)@ == step(old(self)@, ManagerEvent::SessionOpened),
    {
        self.speaker = Some(self.ip_addr.clone());
    }

    /// Takes in the probe of a health check and says what to do next.
    ///
    /// A device that answered is healthy. A failed probe is counted against
    /// the retry budget; see
    /// [`handle_connection_failure`](Self::handle_connection_failure).
    pub fn check_connection(&mut self, probe: Result<(), String>) -> (next: HealthStep)
        requires
            old(self)@.retry_count < u32::MAX,
        ensures
            final(self)@ == step(old(self)@, ManagerEvent::Probe { reachable: probe is Ok }),
            next == health_step(old(self)@, probe is Ok),
            fresh_when_connected(old(self)@) ==> fresh_when_connected(final(self)@),
    {
        match probe {
            Ok(()) => {
                match self.state {
                    ConnectionState::Connected => {},
                    _ => {
                        self.state = ConnectionState::Connected;
                        self.retry_count = 0;
                    },
                }
                HealthStep::Healthy
            },
            Err(_) => self.handle_connection_failure(),
        }
    }

    /// Counts a failed probe and says how to recover.
    ///
    /// The manager is reconnecting and its retry count is one higher. Once
    /// the count is over the budget the manager is disconnected and gives
    /// up; until then it asks for a rediscovery with widened timeouts.
    pub fn handle_connection_failure(&mut self) -> (next: HealthStep)
        requires
            old(self)@.retry_count < u32::MAX,
        ensures
            final(self)@ == step(old(self)@, ManagerEvent::Probe { reachable: false }),
            next == health_step(old(self)@, false),
            fresh_when_connected(final(self)@),
    {
        self.state = ConnectionState::Reconnecting;
        self.retry_count = self.retry_count + 1;
        if self.retry_count > self.max_retries {
            self.state = ConnectionState::Disconnected;
            return HealthStep::GiveUp;
        }
        HealthStep::Rediscover {
            search_timeout: REDISCOVERY_SEARCH_TIMEOUT,
            response_timeout: REDISCOVERY_RESPONSE_TIMEOUT,
        }
    }

    /// Takes in the outcome of a rediscovery.
    ///
    /// The first device found in the manager's room is the manager's device:
    /// the manager is bound to the address it was found at, and nothing else
    /// about the manager changes. Without such a device the caller backs off.
    pub fn handle_rediscovery(&mut self, found: &Result<Vec<SonosDevice>, DiscoveryError>) -> (next:
        RediscoveryStep)
        ensures
            final(self)@ == step(
                old(self)@,
                ManagerEvent::Rediscovery { found: found_devices(*found) },
            ),
            next == rediscovery_step(old(self)@, found_devices(*found)),
            fresh_when_connected(old(self)@) ==> fresh_when_connected(final(self)@),
    {
        match found {
            Ok(devices) => {
                let ghost views = device_views(devices@);
                let mut i: usize = 0;
                assert(views.skip(0) == views);
                while i < devices.len()
                    invariant
                        i <= devices.len(),
                        views == device_views(devices@),
                        found_devices(*found) == Some(views),
                        self@ == old(self)@,
                        first_in_room(views, self@.room_name) == first_in_room(
                            views.skip(i as int),
                            self@.room_name,
                        ),
                    decreases devices.len() - i,
                {
                    let device = &devices[i];
                    assert(views.skip(i as int).len() > 0);
                    assert(views.skip(i as int)[0] == device@);
                    if device.room_name == self.room_name {
                        assert(first_in_room(views.skip(i as int), self@.room_name) == Some(
                            device@,
                        ));
                        if !(device.ip_addr == self.ip_addr) {
                            self.ip_addr = device.ip_addr.clone();
                        }
                        return RediscoveryStep::Resume;
                    }
                    assert(views.skip(i as int).drop_first() == views.skip(i as int + 1));
                    i += 1;
                }
                assert(views.skip(i as int).len() == 0);
                RediscoveryStep::Backoff { delay_secs: RETRY_DELAY_SECS }
            },
            Err(_) => RediscoveryStep::Backoff { delay_secs: RETRY_DELAY_SECS },
        }
    }

    /// What to report as playing, given what the control session answered.
    ///
    /// A track is reported when a session is open and the answer names a
    /// title: the artist, or `Unknown Artist` where none is named, then the
    /// title. The session reports no album. An answer that is an error is
    /// no track, and no error here: this never fails.
    pub fn get_current_track(&self, fetched: Result<CurrentTrack, String>) -> (playing: Result<
        Option<(String, String, Option<String>)>,
        String,
    >)
        ensures
            match playing {
                Ok(Some((artist, title, album))) => now_playing(self@, fetched) == Some(
                    (artist@, title@),
                ) && album is None,
                Ok(None) => now_playing(self@, fetched) is None,
                Err(_) => false,
            },
    {
        if self.speaker.is_none() {
            return Ok(None);
        }
        match fetched {
            Ok(track) => match track.title {
                Some(title) => {
                    let artist = match track.artist {
                        Some(artist) => artist,
                        None => String::from_str(UNKNOWN_ARTIST),
                    };
                    Ok(Some((artist, title, None)))
                },
                None => Ok(None),
            },
            Err(_) => Ok(None),
        }
    }
}

} // verus!
