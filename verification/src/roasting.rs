//! Connection lifecycle of the temperature channels and the supervisor
//! decisions that keep them alive.
//!
//! Each channel is a little state machine ([`State`]) driven purely by
//! the events delivered for it ([`Update`]); replaying the same events
//! always lands in the same state ([`transition`], [`replay`]). A host
//! performs the actual hardware open for every [`ConnectRequest`] the
//! library hands out and feeds the outcome back as events.
use vstd::prelude::*;

use crate::curve::COORD_LIMIT;
use crate::curve::CurveFit;
use crate::curve::CurveSettings;
use crate::curve::settings_wf;
use crate::sensor::Event;
use crate::sensor::SensorError;
use crate::sensor::TempData;

verus! {

broadcast use vstd::string::group_string_axioms;

/// A display color for a channel's curve.
#[derive(Clone, Copy, Debug, PartialEq, Eq, Structural)]
pub struct Rgb {
    pub r: u8,
    pub g: u8,
    pub b: u8,
}

/// One message from a channel's event stream.
#[derive(Clone, Copy, Debug, PartialEq, Eq)]
pub enum Update {
    /// The open hardware channel reported an event.
    EventReceived(Event),
    /// The channel's event stream ended: gracefully (`Ok`), or with a
    /// hardware-level failure such as a refused open (`Err`).
    Disconnected(Result<(), SensorError>),
}

/// The connection lifecycle of one channel.
#[derive(Clone, Copy, Debug, PartialEq, Eq, Structural)]
pub enum State {
    /// A connection attempt is under way and nothing has been heard yet.
    Created,
    /// The channel is live; the payload is the latest reading.
    Connected(TempData),
    /// The hardware detached gracefully; eligible for reconnect.
    Disconnected,
    /// The attempt failed or the connection faulted; eligible for
    /// reconnect.
    Errored(SensorError),
}

impl Default for State {
    fn default() -> (r: Self)
        ensures
            r == State::Created,
    {
        State::Created
    }
}

/// The transition table of the channel state machine.
///
/// While an attempt is under way (`Created`), the first sign of life —
/// the attach report or a first reading — makes the channel `Connected`;
/// a stream end makes it `Disconnected` or `Errored`. While `Connected`,
/// readings update the payload, a detach disconnects and a fault errors
/// the channel. In `Disconnected` and `Errored` every event is ignored:
/// whatever a stale, torn-down connection task still delivers must not
/// resurrect the channel.
pub open spec fn transition(s: State, u: Update) -> State {
    match u {
        Update::EventReceived(event) => match event {
            Event::Change(td) => match s {
                State::Created => State::Connected(td),
                State::Connected(_) => State::Connected(td),
                _ => s,
            },
            Event::Attach => match s {
                State::Created => State::Connected(TempData { temp: 0, time: 0 }),
                _ => s,
            },
            Event::Detach => match s {
                State::Created => State::Disconnected,
                State::Connected(_) => State::Disconnected,
                _ => s,
            },
        },
        Update::Disconnected(result) => match s {
            State::Created | State::Connected(_) => match result {
                Ok(_) => State::Disconnected,
                Err(error) => State::Errored(error),
            },
            _ => s,
        },
    }
}

/// The state after replaying a whole sequence of events from `s`: the
/// left fold of [`transition`] over the sequence.
pub open spec fn replay_spec(s: State, events: Seq<Update>) -> State
    decreases events.len(),
{
    if events.len() == 0 {
        s
    } else {
        replay_spec(transition(s, events[0]), events.drop_first())
    }
}

/// Folding one more event on the right.
pub proof fn lemma_replay_snoc(s: State, events: Seq<Update>, u: Update)
    ensures
        replay_spec(s, events.push(u)) == transition(replay_spec(s, events), u),
    decreases events.len(),
{
    if events.len() == 0 {
        assert(events.push(u)[0] == u);
        assert(events.push(u).drop_first() =~= Seq::<Update>::empty());
        assert(replay_spec(transition(s, u), Seq::<Update>::empty()) == transition(s, u));
        assert(replay_spec(s, events.push(u)) == replay_spec(
            transition(s, u),
            Seq::<Update>::empty(),
        ));
    } else {
        assert(events.push(u)[0] == events[0]);
        assert(events.push(u).drop_first() =~= events.drop_first().push(u));
        assert(replay_spec(s, events.push(u)) == replay_spec(
            transition(s, events[0]),
            events.drop_first().push(u),
        ));
        assert(replay_spec(s, events) == replay_spec(
            transition(s, events[0]),
            events.drop_first(),
        ));
        lemma_replay_snoc(transition(s, events[0]), events.drop_first(), u);
    }
}

/// Replays a sequence of channel events. The result is deterministic:
/// exactly the left fold of the transition table over the events, state
/// by state.
pub fn replay(initial: State, events: &Vec<Update>) -> (r: State)
    ensures
        r == replay_spec(initial, events@),
{
    let mut state = initial;
    let mut i: usize = 0;
    proof {
        assert(events@.skip(0) =~= events@);
    }
    while i < events.len()
        invariant
            0 <= i <= events@.len(),
            replay_spec(initial, events@) == replay_spec(state, events@.skip(i as int)),
        decreases events@.len() - i,
    {
        proof {
            assert(events@.skip(i as int).drop_first() =~= events@.skip(i + 1));
            assert(events@.skip(i as int)[0] == events@[i as int]);
        }
        state = step(state, &events[i]);
        i = i + 1;
    }
    proof {
        assert(events@.skip(events@.len() as int) =~= Seq::<Update>::empty());
    }
    state
}

/// One exact step of the transition table.
fn step(s: State, u: &Update) -> (r: State)
    ensures
        r == transition(s, *u),
{
    match u {
        Update::EventReceived(event) => match event {
            Event::Change(td) => match s {
                State::Created | State::Connected(_) => State::Connected(*td),
                _ => s,
            },
            Event::Attach => match s {
                State::Created => State::Connected(TempData { temp: 0, time: 0 }),
                _ => s,
            },
            Event::Detach => match s {
                State::Created | State::Connected(_) => State::Disconnected,
                _ => s,
            },
        },
        Update::Disconnected(result) => match s {
            State::Created | State::Connected(_) => match result {
                Ok(_) => State::Disconnected,
                Err(error) => State::Errored(*error),
            },
            _ => s,
        },
    }
}

/// The hardware address a host must open for a channel: hub port, serial
/// number, channel index.
#[derive(Clone, Copy, Debug, PartialEq, Eq, Structural)]
pub struct ConnectRequest {
    pub hub_port: i32,
    pub serial_number: i32,
    pub channel: i32,
}

/// One physical temperature channel: identity, hardware address and
/// connection state.
#[derive(Clone, Debug)]
pub struct TempSensor {
    pub id: usize,
    pub name: String,
    pub color: Rgb,
    pub curve_settings: CurveSettings,
    pub hub_port: i32,
    pub serial_number: i32,
    pub channel: i32,
    pub state: State,
}

/// Everything about a channel except its connection state.
pub open spec fn same_identity(a: TempSensor, b: TempSensor) -> bool {
    &&& a.id == b.id
    &&& a.name == b.name
    &&& a.color == b.color
    &&& a.curve_settings == b.curve_settings
    &&& a.hub_port == b.hub_port
    &&& a.serial_number == b.serial_number
    &&& a.channel == b.channel
}

/// Whether the supervisor owes this channel a reconnect attempt: it does
/// for `Disconnected` and `Errored` channels, and leaves `Connected`
/// channels and attempts still under way alone.
pub open spec fn reconnect_eligible(s: TempSensor) -> bool {
    s.state is Disconnected || s.state is Errored
}

impl TempSensor {
    pub fn new(
        id: usize,
        name: &str,
        color: Rgb,
        curve_settings: CurveSettings,
        hub_port: i32,
        serial_number: i32,
        channel: i32,
    ) -> (r: Self)
        ensures
            r.id == id,
            r.name@ == name@,
            r.color == color,
            r.curve_settings == curve_settings,
            r.hub_port == hub_port,
            r.serial_number == serial_number,
            r.channel == channel,
            r.state == State::Created,
    {
        Self {
            id,
            name: name.to_string(),
            color,
            curve_settings,
            hub_port,
            serial_number,
            channel,
            state: State::Created,
        }
    }

    /// The address a host must open to connect this channel.
    pub fn request(&self) -> (r: ConnectRequest)
        ensures
            r == (ConnectRequest {
                hub_port: self.hub_port,
                serial_number: self.serial_number,
                channel: self.channel,
            }),
    {
        ConnectRequest {
            hub_port: self.hub_port,
            serial_number: self.serial_number,
            channel: self.channel,
        }
    }

    /// Starts a connection attempt, unless one is already live.
    ///
    /// On an already-`Connected` channel this is a guaranteed no-op: no
    /// new request is issued and nothing about the channel changes, so a
    /// live connection task is never replaced and no reading is lost. In
    /// every other state the channel enters `Created` (an attempt under
    /// way) and the host is handed the address to open.
    pub fn connect(&mut self) -> (r: Option<ConnectRequest>)
        ensures
            old(self).state is Connected ==> r is None && *final(self) == *old(self),
            !(old(self).state is Connected) ==> {
                &&& final(self).state == State::Created
                &&& same_identity(*old(self), *final(self))
                &&& r == Some(
                    ConnectRequest {
                        hub_port: old(self).hub_port,
                        serial_number: old(self).serial_number,
                        channel: old(self).channel,
                    },
                )
            },
    {
        match self.state {
            State::Connected(_) => None,
            _ => {
                self.state = State::Created;
                Some(self.request())
            },
        }
    }

    /// Applies one delivered event to the channel, exactly as
    /// [`transition`] states.
    pub fn update(&mut self, update: Update)
        ensures
            final(self).state == transition(old(self).state, update),
            same_identity(*old(self), *final(self)),
    {
        self.state = step(self.state, &update);
    }
}

/// An open command the library asks of the host: open the hardware
/// address for channel `id` and feed the resulting events back.
#[derive(Clone, Copy, Debug, PartialEq, Eq, Structural)]
pub struct ConnectAction {
    pub id: usize,
    pub request: ConnectRequest,
}

/// The open command for channel `i` of a channel list.
pub open spec fn action_of(i: int, s: TempSensor) -> ConnectAction {
    ConnectAction {
        id: i as usize,
        request: ConnectRequest {
            hub_port: s.hub_port,
            serial_number: s.serial_number,
            channel: s.channel,
        },
    }
}

/// The open commands one supervisor tick owes a channel list: exactly
/// one per `Disconnected` or `Errored` channel, in channel order.
pub open spec fn reconnect_requests(sensors: Seq<TempSensor>) -> Seq<ConnectAction>
    decreases sensors.len(),
{
    if sensors.len() == 0 {
        Seq::empty()
    } else {
        let rest = reconnect_requests(sensors.drop_last());
        if reconnect_eligible(sensors.last()) {
            rest.push(action_of(sensors.len() - 1, sensors.last()))
        } else {
            rest
        }
    }
}

/// The reading an event hands on to an active roast: the payload of a
/// temperature change delivered to a live channel (one in `Created` or
/// `Connected`); stale events and mere status changes forward nothing.
pub open spec fn forwarded_reading(s: State, u: Update) -> Option<TempData> {
    match u {
        Update::EventReceived(event) => match event {
            Event::Change(td) => match s {
                State::Created => Some(td),
                State::Connected(_) => Some(td),
                _ => None,
            },
            _ => None,
        },
        _ => None,
    }
}

/// Whether an event's payload fits the plot pipeline's machine bounds.
pub open spec fn update_bounded(u: Update) -> bool {
    u matches Update::EventReceived(Event::Change(td)) ==> crate::roast::td_bounded(td)
}

/// The channels and the active recording session, if any.
#[derive(Clone, Debug)]
pub struct Roasting {
    pub sensors: Vec<TempSensor>,
    pub last_id: usize,
    pub roast: Option<crate::roast::Roast>,
}

/// The aggregate invariant: channel `i` carries id `i`, ids continue
/// from `last_id`, settings are well-formed, and an active roast is
/// well-formed with one curve per channel.
pub open spec fn roasting_wf(r: Roasting) -> bool {
    &&& r.last_id == r.sensors@.len()
    &&& forall|i: int| 0 <= i < r.sensors@.len() ==> (#[trigger] r.sensors@[i]).id == i
    &&& forall|i: int|
        0 <= i < r.sensors@.len() ==> settings_wf((#[trigger] r.sensors@[i]).curve_settings)
    &&& r.roast matches Some(ro) ==> crate::roast::roast_wf(ro) && ro.curves@.len()
        == r.sensors@.len()
}

/// One stimulus for [`Roasting::update`]. Instants ride along in the
/// messages because only the host owns a clock.
#[derive(Clone, Debug)]
pub enum Message {
    /// Channel `id` received an event.
    SensorUpdated(usize, Update),
    /// The supervisor timer fired at the given instant.
    TryReconnect(i64),
    /// Begin recording at the given instant.
    StartRoast(i64),
    /// End recording and discard the session.
    StopRoast,
}

impl Roasting {
    /// The channel set at startup: the bean probe and the exhaust probe,
    /// with their display colors and value bounds, plus the open
    /// commands for both.
    pub fn boot() -> (r: (Roasting, Vec<ConnectAction>))
        ensures
            roasting_wf(r.0),
            r.0.sensors@.len() == 2,
            r.0.roast is None,
            r.0.sensors@[0].name@ == "Bean"@,
            r.0.sensors@[1].name@ == "Exhaust"@,
            r.0.sensors@[0].color == (Rgb { r: 0, g: 128, b: 255 }),
            r.0.sensors@[1].color == (Rgb { r: 255, g: 0, b: 0 }),
            forall|i: int|
                0 <= i < 2 ==> (#[trigger] r.0.sensors@[i]).curve_settings == (CurveSettings {
                    min: 0,
                    max: 230_000,
                    fit: CurveFit::Normal,
                }),
            r.0.sensors@[0].channel == 0 && r.0.sensors@[1].channel == 1,
            r.0.sensors@[0].state is Created && r.0.sensors@[1].state is Created,
            r.1@.len() == 2,
            r.1@[0] == action_of(0, r.0.sensors@[0]),
            r.1@[1] == action_of(1, r.0.sensors@[1]),
    {
        let mut roasting = Roasting {
            sensors: Vec::new(),
            last_id: 0,
            roast: None,
        };
        let bean = roasting.new_sensor(
            "Bean",
            0,
            Rgb { r: 0, g: 128, b: 255 },
            CurveSettings { min: 0, max: 230_000, fit: CurveFit::Normal },
        );
        let exhaust = roasting.new_sensor(
            "Exhaust",
            1,
            Rgb { r: 255, g: 0, b: 0 },
            CurveSettings { min: 0, max: 230_000, fit: CurveFit::Normal },
        );
        let mut actions: Vec<ConnectAction> = Vec::new();
        actions.push(bean);
        actions.push(exhaust);
        (roasting, actions)
    }

    /// Adds a channel with the next id and starts its first connection
    /// attempt; returns the open command for the host. Channels are
    /// fixed at startup, before any roast runs.
    pub fn new_sensor(
        &mut self,
        name: &str,
        channel: i32,
        color: Rgb,
        curve_settings: CurveSettings,
    ) -> (r: ConnectAction)
        requires
            roasting_wf(*old(self)),
            old(self).roast is None,
            settings_wf(curve_settings),
            old(self).sensors@.len() < usize::MAX,
        ensures
            roasting_wf(*final(self)),
            final(self).sensors@.len() == old(self).sensors@.len() + 1,
            forall|i: int|
                0 <= i < old(self).sensors@.len() ==> final(self).sensors@[i] == old(
                    self,
                ).sensors@[i],
            ({
                let s = final(self).sensors@.last();
                &&& s.id == old(self).sensors@.len()
                &&& s.name@ == name@
                &&& s.color == color
                &&& s.curve_settings == curve_settings
                &&& s.hub_port == 0
                &&& s.serial_number == 572104
                &&& s.channel == channel
                &&& s.state is Created
            }),
            final(self).roast is None,
            r == action_of(old(self).sensors@.len() as int, final(self).sensors@.last()),
    {
        let id = self.last_id;
        self.last_id = self.last_id + 1;
        self.sensors.push(
            TempSensor::new(id, name, color, curve_settings, 0, 572104, channel),
        );
        let request = self.sensors[id].connect();
        ConnectAction { id, request: request.unwrap() }
    }

    /// Processes one stimulus on the consumer side; all state changes
    /// happen here. Returns the open commands the host must perform.
    ///
    /// - A channel event drives that channel's state machine; a reading
    ///   forwarded by a live channel is offered to the active roast,
    ///   which drops it unless it is strictly after the series' last
    ///   accepted timestamp.
    /// - A supervisor tick issues exactly one reconnect per
    ///   `Disconnected` or `Errored` channel and touches nothing else;
    ///   in particular a `Connected` channel keeps its state and the
    ///   roast keeps every reading.
    /// - Start begins a fresh session over all channels with the
    ///   standard time axis; stop discards the session.
    ///
    /// The host checks the preconditions before delivering: the channel
    /// id must exist, and instants and values must lie within the plot
    /// pipeline's machine bounds ([`COORD_LIMIT`]).
    pub fn update(&mut self, message: Message) -> (actions: Vec<ConnectAction>)
        requires
            roasting_wf(*old(self)),
            message matches Message::SensorUpdated(id, u) ==> id < old(self).sensors@.len()
                && update_bounded(u),
            message matches Message::StartRoast(now) ==> 0 <= now <= COORD_LIMIT,
        ensures
            roasting_wf(*final(self)),
            match message {
                Message::SensorUpdated(id, u) => {
                    &&& actions@.len() == 0
                    &&& final(self).last_id == old(self).last_id
                    &&& final(self).sensors@.len() == old(self).sensors@.len()
                    &&& final(self).sensors@[id as int].state == transition(
                        old(self).sensors@[id as int].state,
                        u,
                    )
                    &&& same_identity(
                        old(self).sensors@[id as int],
                        final(self).sensors@[id as int],
                    )
                    &&& forall|j: int|
                        0 <= j < old(self).sensors@.len() && j != id
                            ==> final(self).sensors@[j] == old(self).sensors@[j]
                    &&& match old(self).roast {
                        None => final(self).roast is None,
                        Some(ro) => match forwarded_reading(
                            old(self).sensors@[id as int].state,
                            u,
                        ) {
                            Some(td) => final(self).roast matches Some(nro)
                                && crate::roast::accept_post(ro, nro, id as int, td),
                            None => final(self).roast == old(self).roast,
                        },
                    }
                },
                Message::TryReconnect(_) => {
                    &&& actions@ == reconnect_requests(old(self).sensors@)
                    &&& final(self).roast == old(self).roast
                    &&& final(self).last_id == old(self).last_id
                    &&& final(self).sensors@.len() == old(self).sensors@.len()
                    &&& forall|i: int|
                        0 <= i < old(self).sensors@.len() ==> if reconnect_eligible(
                            #[trigger] old(self).sensors@[i],
                        ) {
                            final(self).sensors@[i].state == State::Created && same_identity(
                                old(self).sensors@[i],
                                final(self).sensors@[i],
                            )
                        } else {
                            final(self).sensors@[i] == old(self).sensors@[i]
                        }
                },
                Message::StartRoast(now) => {
                    &&& actions@.len() == 0
                    &&& final(self).sensors == old(self).sensors
                    &&& final(self).last_id == old(self).last_id
                    &&& final(self).roast matches Some(ro) && {
                        &&& ro.start_time == now
                        &&& ro.last_time == now
                        &&& ro.settings == (CurveSettings {
                            min: 0,
                            max: 1_020_000,
                            fit: CurveFit::Padding(0, 10_000),
                        })
                        &&& ro.curves@.len() == old(self).sensors@.len()
                        &&& forall|i: int|
                            0 <= i < old(self).sensors@.len() ==> {
                                let c = #[trigger] ro.curves@[i];
                                &&& c.source_id == old(self).sensors@[i].id
                                &&& c.color == old(self).sensors@[i].color
                                &&& c.settings == old(self).sensors@[i].curve_settings
                                &&& c.points@.len() == 0
                            }
                    }
                },
                Message::StopRoast => {
                    &&& actions@.len() == 0
                    &&& final(self).sensors == old(self).sensors
                    &&& final(self).last_id == old(self).last_id
                    &&& final(self).roast is None
                },
            },
    {
        match message {
            Message::SensorUpdated(id, update) => {
                self.sensors[id].update(update);
                let forwarded = match &update {
                    Update::EventReceived(Event::Change(_)) => match &self.sensors[id].state {
                        State::Connected(td) => Some(*td),
                        _ => None,
                    },
                    _ => None,
                };
                if let Some(td) = forwarded {
                    if let Some(roast) = &mut self.roast {
                        roast.accept(id, td);
                    }
                }
                proof {
                    assert forall|j: int| 0 <= j < self.sensors@.len() implies (
                    #[trigger] self.sensors@[j]).id == j && settings_wf(
                        self.sensors@[j].curve_settings,
                    ) by {
                        if j != id as int {
                            assert(self.sensors@[j] == old(self).sensors@[j]);
                        }
                    }
                }
                Vec::new()
            },
            Message::TryReconnect(_) => {
                let ghost initial = *self;
                let mut actions: Vec<ConnectAction> = Vec::new();
                let mut i: usize = 0;
                proof {
                    assert(initial.sensors@.take(0) =~= Seq::<TempSensor>::empty());
                }
                while i < self.sensors.len()
                    invariant
                        0 <= i <= self.sensors@.len(),
                        self.sensors@.len() == initial.sensors@.len(),
                        self.roast == initial.roast,
                        self.last_id == initial.last_id,
                        roasting_wf(initial),
                        actions@ == reconnect_requests(initial.sensors@.take(i as int)),
                        forall|j: int|
                            0 <= j < i ==> if reconnect_eligible(
                                #[trigger] initial.sensors@[j],
                            ) {
                                self.sensors@[j].state == State::Created && same_identity(
                                    initial.sensors@[j],
                                    self.sensors@[j],
                                )
                            } else {
                                self.sensors@[j] == initial.sensors@[j]
                            },
                        forall|j: int|
                            i <= j < initial.sensors@.len() ==> #[trigger] self.sensors@[j]
                                == initial.sensors@[j],
                    decreases self.sensors@.len() - i,
                {
                    proof {
                        assert(initial.sensors@.take(i + 1).drop_last() =~= initial.sensors@.take(
                            i as int,
                        ));
                        assert(initial.sensors@.take(i + 1).last() == initial.sensors@[i as int]);
                    }
                    let eligible = match self.sensors[i].state {
                        State::Disconnected | State::Errored(_) => true,
                        _ => false,
                    };
                    if eligible {
                        let request = self.sensors[i].connect();
                        actions.push(ConnectAction { id: i, request: request.unwrap() });
                    }
                    i = i + 1;
                }
                proof {
                    assert(initial.sensors@.take(initial.sensors@.len() as int)
                        =~= initial.sensors@);
                    assert forall|j: int| 0 <= j < self.sensors@.len() implies (
                    #[trigger] self.sensors@[j]).id == j && settings_wf(
                        self.sensors@[j].curve_settings,
                    ) by {
                        assert(initial.sensors@[j].id == j);
                        assert(settings_wf(initial.sensors@[j].curve_settings));
                        if reconnect_eligible(initial.sensors@[j]) {
                            assert(same_identity(initial.sensors@[j], self.sensors@[j]));
                        } else {
                            assert(self.sensors@[j] == initial.sensors@[j]);
                        }
                    }
                }
                actions
            },
            Message::StartRoast(now) => {
                self.roast = Some(
                    crate::roast::Roast::new(
                        &self.sensors,
                        CurveSettings { min: 0, max: 1_020_000, fit: CurveFit::Padding(0, 10_000) },
                        now,
                    ),
                );
                Vec::new()
            },
            Message::StopRoast => {
                self.roast = None;
                Vec::new()
            },
        }
    }

    /// Whether the supervisor timer needs to run at all: true exactly
    /// when some channel is owed a reconnect attempt.
    pub fn needs_reconnect_tick(&self) -> (r: bool)
        ensures
            r == exists|i: int|
                0 <= i < self.sensors@.len() && reconnect_eligible(#[trigger] self.sensors@[i]),
    {
        let mut i: usize = 0;
        while i < self.sensors.len()
            invariant
                0 <= i <= self.sensors@.len(),
                forall|j: int|
                    0 <= j < i ==> !reconnect_eligible(#[trigger] self.sensors@[j]),
            decreases self.sensors@.len() - i,
        {
            match self.sensors[i].state {
                State::Disconnected | State::Errored(_) => {
                    return true;
                },
                _ => {},
            }
            i = i + 1;
        }
        false
    }
}

} // verus!
