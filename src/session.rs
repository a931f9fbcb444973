//! The realtime session: one connection's lifecycle, its subscriptions and
//! its keepalive, as a state machine. The task that owns the connection
//! feeds it events (negotiation result, transport open, inbound frames,
//! timer ticks, caller requests) and carries out what it returns.
use vstd::prelude::*;
use crate::keepalive::{Beat, Keepalive};
use crate::negotiate::{connect_url, connect_url_of, NegotiateError};
use crate::router::{decode, route_of, topic_name_of, Decoded};
use crate::text::{decimal, decimal_string, lemma_decimal_injective, same_text};
use crate::websocket::{DefaultMsg, InstanceServer, InstanceServers, Subscribe, WSTopic};

verus! {

/// How long the welcome frame may take after the transport opened, in
/// milliseconds.
pub const WELCOME_WAIT_MS: u64 = 10000;

/// Lifecycle of a session.
#[derive(Copy, Clone, Debug, PartialEq, Eq, Structural)]
pub enum Phase {
    Idle,
    Negotiating,
    Connecting,
    AwaitingWelcome,
    Active,
    Closed,
    Failed,
}

/// Why a session failed.
#[derive(Copy, Clone, Debug, PartialEq, Eq, Structural)]
pub enum SessionError {
    /// The bootstrap call could not be authenticated.
    CouldNotAuthenticate,
    /// The venue offered no endpoint.
    NoEndpoint,
    /// No offered endpoint could be reached.
    Unreachable,
    /// The transport failed or closed while the session was not active.
    ConnectionLost,
    /// No welcome frame in time.
    WelcomeTimeout,
    /// No pong in time.
    KeepaliveTimeout,
    /// A frame other than the welcome frame came first.
    UnexpectedFrame,
    /// The correlation ids ran out.
    IdsExhausted,
}

/// Why a subscribe or unsubscribe request was refused.
#[derive(Copy, Clone, Debug, PartialEq, Eq, Structural)]
pub enum RequestError {
    NotActive,
    IdsExhausted,
}

/// A subscribe or unsubscribe request that waits for its acknowledgement.
#[derive(Clone, Debug, PartialEq, Eq)]
pub struct PendingRequest {
    pub id: u64,
    /// The topic text the request carried.
    pub topic: String,
    /// Subscribe, or unsubscribe.
    pub subscribe: bool,
}

/// One frame from the server, as the transport's framing layer read it.
#[derive(Clone, Debug, PartialEq, Eq)]
pub enum InboundFrame {
    Welcome { id: String },
    Ack { id: String },
    Ping { id: String },
    Pong { id: String },
    Message { topic: String, subject: String, data: String },
    Binary(Vec<u8>),
    Other { msg_type: String },
}

/// The frame that a discriminant `msg_type` and the frame's fields make:
/// control frames keep their id, a `message` frame its topic, subject and
/// payload; any other discriminant is kept as it came.
pub open spec fn frame_of_spec(
    msg_type: Seq<char>,
    id: String,
    topic: String,
    subject: String,
    data: String,
    msg_type_text: String,
) -> InboundFrame {
    if msg_type == "welcome"@ {
        InboundFrame::Welcome { id }
    } else if msg_type == "ack"@ {
        InboundFrame::Ack { id }
    } else if msg_type == "ping"@ {
        InboundFrame::Ping { id }
    } else if msg_type == "pong"@ {
        InboundFrame::Pong { id }
    } else if msg_type == "message"@ {
        InboundFrame::Message { topic, subject, data }
    } else {
        InboundFrame::Other { msg_type: msg_type_text }
    }
}

/// Classifies a text frame by its `type` field.
pub fn frame_of(msg_type: String, id: String, topic: String, subject: String, data: String) -> (r: InboundFrame)
    ensures
        r == frame_of_spec(msg_type@, id, topic, subject, data, msg_type),
{
    if same_text(msg_type.as_str(), "welcome") {
        InboundFrame::Welcome { id }
    } else if same_text(msg_type.as_str(), "ack") {
        InboundFrame::Ack { id }
    } else if same_text(msg_type.as_str(), "ping") {
        InboundFrame::Ping { id }
    } else if same_text(msg_type.as_str(), "pong") {
        InboundFrame::Pong { id }
    } else if same_text(msg_type.as_str(), "message") {
        InboundFrame::Message { topic, subject, data }
    } else {
        InboundFrame::Other { msg_type }
    }
}

/// What the owner of the connection must do after an event.
#[derive(Clone, Debug, PartialEq, Eq)]
pub enum Action {
    Nothing,
    SendPing(DefaultMsg),
    SendPong(DefaultMsg),
    Emit(Decoded),
    Fail(SessionError),
}

/// The views of a list of texts, as a set.
pub open spec fn text_set(v: Seq<String>) -> Set<Seq<char>> {
    Set::new(|t: Seq<char>| exists|i: int| 0 <= i < v.len() && (#[trigger] v[i])@ == t)
}

/// Whether some text of the list has the view `t`.
fn contains_text(v: &Vec<String>, t: &str) -> (r: bool)
    ensures
        r == text_set(v@).contains(t@),
{
    let mut i: usize = 0;
    while i < v.len()
        invariant
            i <= v.len(),
            forall|j: int| 0 <= j < i ==> (#[trigger] v@[j])@ != t@,
        decreases v.len() - i,
    {
        if same_text(v[i].as_str(), t) {
            return true;
        }
        i = i + 1;
    }
    false
}

/// Adds a text to a list used as a set.
fn add_text(v: &mut Vec<String>, t: &str)
    ensures
        text_set(final(v)@) == text_set(old(v)@).insert(t@),
{
    if !contains_text(v, t) {
        let ghost before = v@;
        v.push(String::from_str(t));
        assert(text_set(v@) =~= text_set(before).insert(t@)) by {
            assert(v@[before.len() as int]@ == t@);
            assert forall|x: Seq<char>| text_set(before).contains(x) implies text_set(v@).contains(x) by {
                let i = choose|i: int| 0 <= i < before.len() && (#[trigger] before[i])@ == x;
                assert(v@[i] == before[i]);
            }
            assert forall|x: Seq<char>| text_set(v@).contains(x) && x != t@ implies text_set(before).contains(x) by {
                let i = choose|i: int| 0 <= i < v@.len() && (#[trigger] v@[i])@ == x;
                assert(before[i] == v@[i]);
            }
        }
    } else {
        assert(text_set(v@) =~= text_set(v@).insert(t@));
    }
}

/// Removes every text with the view `t` from a list used as a set.
fn remove_text(v: &mut Vec<String>, t: &str)
    ensures
        text_set(final(v)@) == text_set(old(v)@).remove(t@),
{
    let mut out: Vec<String> = Vec::new();
    let mut i: usize = 0;
    while i < v.len()
        invariant
            i <= v.len(),
            forall|k: int| 0 <= k < out@.len() ==> (#[trigger] out@[k])@ != t@,
            forall|k: int| 0 <= k < out@.len() ==> text_set(v@).contains((#[trigger] out@[k])@),
            forall|j: int| 0 <= j < i && (#[trigger] v@[j])@ != t@ ==> text_set(out@).contains(v@[j]@),
        decreases v.len() - i,
    {
        if !same_text(v[i].as_str(), t) {
            let ghost before = out@;
            let s = v[i].clone();
            out.push(s);
            proof {
                assert(out@[before.len() as int] == v@[i as int]);
                assert forall|j: int| 0 <= j < i + 1 && (#[trigger] v@[j])@ != t@ implies text_set(out@).contains(v@[j]@) by {
                    if j < i {
                        let k = choose|k: int| 0 <= k < before.len() && (#[trigger] before[k])@ == v@[j]@;
                        assert(out@[k] == before[k]);
                    } else {
                        assert(out@[before.len() as int]@ == v@[j]@);
                    }
                }
                assert forall|k: int| 0 <= k < out@.len() implies text_set(v@).contains((#[trigger] out@[k])@) by {
                    if k < before.len() {
                        assert(out@[k] == before[k]);
                    } else {
                        assert(v@[i as int]@ == out@[k]@);
                    }
                }
            }
        }
        i = i + 1;
    }
    proof {
        assert forall|x: Seq<char>| text_set(out@).contains(x) implies text_set(v@).remove(t@).contains(x) by {
            let k = choose|k: int| 0 <= k < out@.len() && (#[trigger] out@[k])@ == x;
        }
        assert forall|x: Seq<char>| text_set(v@).remove(t@).contains(x) implies text_set(out@).contains(x) by {
            let j = choose|j: int| 0 <= j < v@.len() && (#[trigger] v@[j])@ == x;
        }
        assert(text_set(out@) =~= text_set(v@).remove(t@));
    }
    *v = out;
}

/// A duration in milliseconds from the venue's signed field; a negative one
/// counts as zero.
pub open spec fn millis(x: i32) -> u64 {
    if x < 0 {
        0
    } else {
        x as u64
    }
}

fn millis_of(x: i32) -> (r: u64)
    ensures
        r == millis(x),
{
    if x < 0 {
        0
    } else {
        x as u64
    }
}

/// The state of one realtime session.
#[derive(Clone, Debug)]
pub struct Session {
    pub phase: Phase,
    /// Whether private access was asked for.
    pub private: bool,
    /// The one-time token of the negotiation.
    pub token: String,
    /// The endpoints offered, in the venue's order of preference.
    pub servers: Vec<InstanceServer>,
    /// The endpoint in use.
    pub server_index: usize,
    /// The id sent when connecting, echoed by the welcome frame.
    pub connect_id: u64,
    pub welcome_deadline: u64,
    pub keepalive: Keepalive,
    /// The next correlation id to hand out.
    pub next_id: u64,
    pub pending: Vec<PendingRequest>,
    /// Topic texts reported active.
    pub active: Vec<String>,
    /// Why the session failed, once it has.
    pub failure: Option<SessionError>,
}

impl Session {
    /// Correlation ids of pending requests are fresh and distinct, and an
    /// endpoint is chosen from the connection attempt on.
    pub open spec fn wf(self) -> bool {
        &&& forall|i: int| 0 <= i < self.pending@.len() ==> (#[trigger] self.pending@[i]).id < self.next_id
        &&& forall|i: int, j: int|
            0 <= i < j < self.pending@.len() ==> (#[trigger] self.pending@[i]).id != (#[trigger] self.pending@[j]).id
        &&& (self.phase == Phase::Connecting || self.phase == Phase::AwaitingWelcome || self.phase == Phase::Active)
            ==> self.server_index < self.servers@.len()
        &&& (self.phase == Phase::Failed <==> self.failure.is_some())
    }

    /// Topics reported active.
    pub open spec fn active_topics(self) -> Set<Seq<char>> {
        text_set(self.active@)
    }

    /// Whether a session has ended, for good.
    pub open spec fn ended(self) -> bool {
        self.phase == Phase::Closed || self.phase == Phase::Failed
    }

    /// The keepalive armed when the welcome frame comes at `now`.
    pub open spec fn keepalive_from(self, now: u64) -> Keepalive {
        let server = self.servers@[self.server_index as int];
        Keepalive::armed_at(millis(server.ping_interval), millis(server.ping_timeout), now)
    }

    /// The address of the endpoint in use.
    pub open spec fn url_of(self) -> Seq<char> {
        connect_url_of(self.servers@[self.server_index as int].endpoint@, self.token@, decimal(self.connect_id as nat))
    }

    pub fn new() -> (r: Session)
        ensures
            r.wf(),
            r.phase == Phase::Idle,
            r.next_id == 1,
            r.failure.is_none(),
            r.pending@.len() == 0,
            r.active_topics() == Set::<Seq<char>>::empty(),
    {
        let r = Session {
            phase: Phase::Idle,
            private: false,
            token: String::new(),
            servers: Vec::new(),
            server_index: 0,
            connect_id: 0,
            welcome_deadline: 0,
            keepalive: Keepalive::armed(0, 0, 0),
            next_id: 1,
            pending: Vec::new(),
            active: Vec::new(),
            failure: None,
        };
        assert(r.active_topics() =~= Set::<Seq<char>>::empty());
        r
    }

    fn fail(&mut self, e: SessionError)
        ensures
            *final(self) == (Session { phase: Phase::Failed, failure: Some(e), ..*old(self) }),
    {
        self.phase = Phase::Failed;
        self.failure = Some(e);
    }

    /// The caller asks for a connection: `Idle` becomes `Negotiating`. In any
    /// other phase nothing changes and the request is refused.
    pub fn start(&mut self, private: bool) -> (r: bool)
        requires
            old(self).wf(),
        ensures
            final(self).wf(),
            r == (old(self).phase == Phase::Idle),
            r ==> *final(self) == (Session { phase: Phase::Negotiating, private, ..*old(self) }),
            !r ==> *final(self) == *old(self),
    {
        if self.phase == Phase::Idle {
            self.phase = Phase::Negotiating;
            self.private = private;
            true
        } else {
            false
        }
    }

    /// Negotiation succeeded: the session keeps the token and the endpoints
    /// and returns the address to open, that of the first endpoint. An empty
    /// list fails the session. Outside `Negotiating` nothing changes.
    pub fn on_negotiated(&mut self, answer: InstanceServers) -> (r: Option<String>)
        requires
            old(self).wf(),
        ensures
            final(self).wf(),
            old(self).phase != Phase::Negotiating ==> r.is_none() && *final(self) == *old(self),
            old(self).phase == Phase::Negotiating && answer.instance_servers@.len() == 0 ==> r.is_none()
                && final(self).phase == Phase::Failed && final(self).failure == Some(SessionError::NoEndpoint),
            old(self).phase == Phase::Negotiating && answer.instance_servers@.len() > 0 && old(self).next_id < u64::MAX ==> (
                r matches Some(url) && url@ == final(self).url_of() && *final(self) == (Session {
                    phase: Phase::Connecting,
                    servers: answer.instance_servers,
                    token: answer.token,
                    server_index: 0,
                    connect_id: old(self).next_id,
                    next_id: (old(self).next_id + 1) as u64,
                    ..*old(self)
                })),
            old(self).phase == Phase::Negotiating && answer.instance_servers@.len() > 0 && old(self).next_id == u64::MAX
                ==> r.is_none() && final(self).failure == Some(SessionError::IdsExhausted),
    {
        if self.phase != Phase::Negotiating {
            return None;
        }
        if answer.instance_servers.len() == 0 {
            self.fail(SessionError::NoEndpoint);
            return None;
        }
        if self.next_id == u64::MAX {
            self.fail(SessionError::IdsExhausted);
            return None;
        }
        self.connect_id = self.next_id;
        self.next_id = self.next_id + 1;
        self.servers = answer.instance_servers;
        self.token = answer.token;
        self.server_index = 0;
        self.phase = Phase::Connecting;
        let id = decimal_string(self.connect_id);
        Some(connect_url(&self.servers[0], self.token.as_str(), id.as_str()))
    }

    /// Negotiation failed: the session fails with the matching reason.
    pub fn on_negotiation_failed(&mut self, e: NegotiateError)
        requires
            old(self).wf(),
        ensures
            final(self).wf(),
            old(self).phase != Phase::Negotiating ==> *final(self) == *old(self),
            old(self).phase == Phase::Negotiating ==> final(self).phase == Phase::Failed && final(self).failure == Some(
                match e {
                    NegotiateError::NoEndpoint => SessionError::NoEndpoint,
                    _ => SessionError::CouldNotAuthenticate,
                },
            ),
    {
        if self.phase == Phase::Negotiating {
            match e {
                NegotiateError::NoEndpoint => self.fail(SessionError::NoEndpoint),
                _ => self.fail(SessionError::CouldNotAuthenticate),
            }
        }
    }

    /// The endpoint in use could not be reached: the session falls through
    /// to the next one and returns its address, or fails when none is left.
    pub fn on_connect_failed(&mut self) -> (r: Option<String>)
        requires
            old(self).wf(),
        ensures
            final(self).wf(),
            old(self).phase != Phase::Connecting ==> r.is_none() && *final(self) == *old(self),
            old(self).phase == Phase::Connecting && old(self).server_index + 1 < old(self).servers@.len() ==> (r matches Some(
                url,
            ) && *final(self) == (Session { server_index: (old(self).server_index + 1) as usize, ..*old(self) })
                && url@ == final(self).url_of()),
            old(self).phase == Phase::Connecting && old(self).server_index + 1 >= old(self).servers@.len() ==> r.is_none()
                && final(self).phase == Phase::Failed && final(self).failure == Some(SessionError::Unreachable),
    {
        if self.phase != Phase::Connecting {
            return None;
        }
        if self.server_index < self.servers.len() - 1 {
            self.server_index = self.server_index + 1;
            let id = decimal_string(self.connect_id);
            Some(connect_url(&self.servers[self.server_index], self.token.as_str(), id.as_str()))
        } else {
            self.fail(SessionError::Unreachable);
            None
        }
    }

    /// The transport is open at `now`: the session waits for the welcome
    /// frame until `now` plus the welcome wait.
    pub fn on_open(&mut self, now: u64)
        requires
            old(self).wf(),
        ensures
            final(self).wf(),
            old(self).phase != Phase::Connecting ==> *final(self) == *old(self),
            old(self).phase == Phase::Connecting ==> *final(self) == (Session {
                phase: Phase::AwaitingWelcome,
                welcome_deadline: crate::keepalive::sat_add(now, WELCOME_WAIT_MS),
                ..*old(self)
            }),
    {
        if self.phase == Phase::Connecting {
            self.phase = Phase::AwaitingWelcome;
            self.welcome_deadline = crate::keepalive::saturating_sum(now, WELCOME_WAIT_MS);
        }
    }

    /// When the owner must call `tick` next, if at all.
    pub fn wake_at(&self) -> (r: Option<u64>)
        ensures
            self.phase == Phase::AwaitingWelcome ==> r == Some(self.welcome_deadline),
            self.phase == Phase::Active ==> r == Some(self.keepalive.wake_time()),
            self.phase != Phase::AwaitingWelcome && self.phase != Phase::Active ==> r.is_none(),
    {
        match self.phase {
            Phase::AwaitingWelcome => Some(self.welcome_deadline),
            Phase::Active => Some(self.keepalive.wake_at()),
            _ => None,
        }
    }

    /// The timer fired at `now`. Waiting for the welcome frame past its
    /// deadline fails the session; while active, the keepalive decides:
    /// a ping is sent with a fresh correlation id, or the session fails when
    /// the outstanding ping has expired.
    pub fn tick(&mut self, now: u64) -> (r: Action)
        requires
            old(self).wf(),
        ensures
            final(self).wf(),
            old(self).phase == Phase::AwaitingWelcome && now >= old(self).welcome_deadline ==> final(self).phase == Phase::Failed
                && final(self).failure == Some(SessionError::WelcomeTimeout) && r == Action::Fail(SessionError::WelcomeTimeout),
            old(self).phase == Phase::AwaitingWelcome && now < old(self).welcome_deadline ==> *final(self) == *old(self)
                && r == Action::Nothing,
            old(self).phase == Phase::Active && old(self).next_id < u64::MAX ==> ({
                let (k, beat) = old(self).keepalive.after_tick(now, old(self).next_id);
                &&& beat == Beat::Wait ==> *final(self) == (Session { keepalive: k, ..*old(self) }) && r == Action::Nothing
                &&& beat == Beat::Ping ==> *final(self) == (Session {
                    keepalive: k,
                    next_id: (old(self).next_id + 1) as u64,
                    ..*old(self)
                }) && (r matches Action::SendPing(m) && m.id@ == decimal(old(self).next_id as nat) && m.msg_type@
                    == "ping"@)
                &&& beat == Beat::Expired ==> *final(self) == (Session {
                    phase: Phase::Failed,
                    failure: Some(SessionError::KeepaliveTimeout),
                    ..*old(self)
                }) && r == Action::Fail(SessionError::KeepaliveTimeout)
            }),
            old(self).phase != Phase::AwaitingWelcome && old(self).phase != Phase::Active ==> *final(self) == *old(self)
                && r == Action::Nothing,
    {
        match self.phase {
            Phase::AwaitingWelcome => {
                if now >= self.welcome_deadline {
                    self.fail(SessionError::WelcomeTimeout);
                    Action::Fail(SessionError::WelcomeTimeout)
                } else {
                    Action::Nothing
                }
            },
            Phase::Active => {
                if self.next_id == u64::MAX {
                    self.fail(SessionError::IdsExhausted);
                    return Action::Fail(SessionError::IdsExhausted);
                }
                let id = self.next_id;
                match self.keepalive.tick(now, id) {
                    Beat::Wait => Action::Nothing,
                    Beat::Ping => {
                        self.next_id = id + 1;
                        Action::SendPing(DefaultMsg { id: decimal_string(id), msg_type: String::from_str("ping") })
                    },
                    Beat::Expired => {
                        self.fail(SessionError::KeepaliveTimeout);
                        Action::Fail(SessionError::KeepaliveTimeout)
                    },
                }
            },
            _ => Action::Nothing,
        }
    }
}

/// The effect of a subscribe (`subscribe`) or unsubscribe request for the
/// topic text `wire`, returning `r`. While active, the request takes the next
/// correlation id and yields its frame. With `response` it waits for its
/// acknowledgement and the active topics stay as they were; without, it takes
/// effect when its frame is sent. Outside `Active`, or with the ids spent,
/// it is refused and nothing changes.
pub open spec fn request_effect(
    before: Session,
    after: Session,
    wire: Seq<char>,
    private: bool,
    response: bool,
    subscribe: bool,
    r: Result<Subscribe, RequestError>,
) -> bool {
    if before.phase != Phase::Active {
        r == Err::<Subscribe, RequestError>(RequestError::NotActive) && after == before
    } else if before.next_id == u64::MAX {
        r == Err::<Subscribe, RequestError>(RequestError::IdsExhausted) && after == before
    } else {
        &&& r matches Ok(f) && f.id@ == decimal(before.next_id as nat) && f.topic@ == wire
            && f.msg_type@ == (if subscribe { "subscribe"@ } else { "unsubscribe"@ }) && f.private_channel == private
            && f.response == response
        &&& after == (Session {
            next_id: (before.next_id + 1) as u64,
            pending: after.pending,
            active: after.active,
            ..before
        })
        &&& if response {
            &&& after.pending@.len() == before.pending@.len() + 1
            &&& after.pending@.drop_last() == before.pending@
            &&& after.pending@.last().id == before.next_id
            &&& after.pending@.last().topic@ == wire
            &&& after.pending@.last().subscribe == subscribe
            &&& after.active_topics() == before.active_topics()
        } else {
            &&& after.pending == before.pending
            &&& after.active_topics() == if subscribe {
                before.active_topics().insert(wire)
            } else {
                before.active_topics().remove(wire)
            }
        }
    }
}

/// Whether a pending request carries the correlation id text `id`.
pub open spec fn acknowledges(before: Session, id: Seq<char>) -> bool {
    exists|i: int| 0 <= i < before.pending@.len() && decimal((#[trigger] before.pending@[i]).id as nat) == id
}

/// The effect of an acknowledgement with id text `id`: the matching pending
/// request is resolved, which makes its topic active (subscribe) or no
/// longer active (unsubscribe). An id that matches nothing outstanding
/// changes nothing.
pub open spec fn ack_effect(before: Session, after: Session, id: Seq<char>) -> bool {
    if acknowledges(before, id) {
        let i = choose|i: int| 0 <= i < before.pending@.len() && decimal((#[trigger] before.pending@[i]).id as nat) == id;
        let p = before.pending@[i];
        &&& after.pending@ == before.pending@.remove(i)
        &&& after.active_topics() == if p.subscribe {
            before.active_topics().insert(p.topic@)
        } else {
            before.active_topics().remove(p.topic@)
        }
        &&& after == (Session { pending: after.pending, active: after.active, ..before })
    } else {
        after == before
    }
}

/// The keepalive after a pong with id text `id` at `now`: only the pong of
/// the outstanding ping counts.
pub open spec fn keepalive_after_pong(k: Keepalive, id: Seq<char>, now: u64) -> Keepalive {
    if k.awaiting && decimal(k.ping_id as nat) == id {
        k.after_pong(k.ping_id, now)
    } else {
        k
    }
}

impl Session {
    fn request(&mut self, topic: &WSTopic, private: bool, response: bool, subscribe: bool) -> (r: Result<
        Subscribe,
        RequestError,
    >)
        requires
            old(self).wf(),
        ensures
            final(self).wf(),
            request_effect(*old(self), *final(self), topic.wire(), private, response, subscribe, r),
    {
        if self.phase != Phase::Active {
            return Err(RequestError::NotActive);
        }
        if self.next_id == u64::MAX {
            return Err(RequestError::IdsExhausted);
        }
        let id = self.next_id;
        self.next_id = id + 1;
        let wire = topic.wire_string();
        if response {
            let ghost before = self.pending@;
            self.pending.push(PendingRequest { id, topic: wire.clone(), subscribe });
            proof {
                assert(self.pending@.drop_last() =~= before);
            }
        } else if subscribe {
            add_text(&mut self.active, wire.as_str());
        } else {
            remove_text(&mut self.active, wire.as_str());
        }
        let kind = if subscribe {
            String::from_str("subscribe")
        } else {
            String::from_str("unsubscribe")
        };
        Ok(Subscribe { id: decimal_string(id), msg_type: kind, topic: wire, private_channel: private, response })
    }

    /// Subscribes to a topic; see `request_effect`.
    pub fn subscribe(&mut self, topic: &WSTopic, private: bool, response: bool) -> (r: Result<Subscribe, RequestError>)
        requires
            old(self).wf(),
        ensures
            final(self).wf(),
            request_effect(*old(self), *final(self), topic.wire(), private, response, true, r),
    {
        self.request(topic, private, response, true)
    }

    /// Unsubscribes from a topic; see `request_effect`.
    pub fn unsubscribe(&mut self, topic: &WSTopic, private: bool, response: bool) -> (r: Result<
        Subscribe,
        RequestError,
    >)
        requires
            old(self).wf(),
        ensures
            final(self).wf(),
            request_effect(*old(self), *final(self), topic.wire(), private, response, false, r),
    {
        self.request(topic, private, response, false)
    }

    fn find_pending(&self, id: &str) -> (r: Option<usize>)
        ensures
            r matches Some(i) ==> i < self.pending@.len() && decimal(self.pending@[i as int].id as nat) == id@,
            r.is_none() ==> !acknowledges(*self, id@),
    {
        let mut i: usize = 0;
        while i < self.pending.len()
            invariant
                i <= self.pending@.len(),
                forall|j: int| 0 <= j < i ==> decimal((#[trigger] self.pending@[j]).id as nat) != id@,
            decreases self.pending.len() - i,
        {
            let t = decimal_string(self.pending[i].id);
            if same_text(t.as_str(), id) {
                return Some(i);
            }
            i = i + 1;
        }
        None
    }

    /// Handles an acknowledgement; see `ack_effect`.
    pub fn on_ack(&mut self, id: &str)
        requires
            old(self).wf(),
        ensures
            final(self).wf(),
            ack_effect(*old(self), *final(self), id@),
    {
        match self.find_pending(id) {
            None => {},
            Some(i) => {
                let ghost before = *self;
                proof {
                    let j = choose|j: int| 0 <= j < before.pending@.len() && decimal((#[trigger] before.pending@[j]).id as nat) == id@;
                    lemma_decimal_injective(before.pending@[j].id as nat, before.pending@[i as int].id as nat);
                    assert(j == i);
                }
                let p = self.pending.remove(i);
                if p.subscribe {
                    add_text(&mut self.active, p.topic.as_str());
                } else {
                    remove_text(&mut self.active, p.topic.as_str());
                }
                proof {
                    assert forall|a: int, b: int| 0 <= a < b < self.pending@.len() implies (#[trigger] self.pending@[a]).id
                        != (#[trigger] self.pending@[b]).id by {
                        let a0 = if a < i { a } else { a + 1 };
                        let b0 = if b < i { b } else { b + 1 };
                        assert(self.pending@[a] == before.pending@[a0]);
                        assert(self.pending@[b] == before.pending@[b0]);
                    }
                    assert forall|a: int| 0 <= a < self.pending@.len() implies (#[trigger] self.pending@[a]).id < self.next_id by {
                        let a0 = if a < i { a } else { a + 1 };
                        assert(self.pending@[a] == before.pending@[a0]);
                    }
                }
            },
        }
    }

    /// Handles a pong with id text `id` at `now`; see `keepalive_after_pong`.
    pub fn on_pong(&mut self, id: &str, now: u64)
        requires
            old(self).wf(),
        ensures
            final(self).wf(),
            *final(self) == (Session { keepalive: keepalive_after_pong(old(self).keepalive, id@, now), ..*old(self) }),
    {
        if self.keepalive.awaiting {
            let t = decimal_string(self.keepalive.ping_id);
            if same_text(t.as_str(), id) {
                let pid = self.keepalive.ping_id;
                self.keepalive.pong(pid, now);
            }
        }
    }

    /// Whether a topic text is reported active.
    pub fn is_active(&self, topic: &str) -> (r: bool)
        ensures
            r == self.active_topics().contains(topic@),
    {
        contains_text(&self.active, topic)
    }

    /// Ends the session and hands back the requests still pending, which are
    /// thereby cancelled; nothing stays active. A session that has already
    /// ended stays as it is.
    fn finish(&mut self, phase: Phase, failure: Option<SessionError>) -> (r: Vec<PendingRequest>)
        requires
            old(self).wf(),
            phase == Phase::Closed ==> failure.is_none(),
            phase == Phase::Failed ==> failure.is_some(),
            phase == Phase::Closed || phase == Phase::Failed,
        ensures
            final(self).wf(),
            old(self).ended() ==> *final(self) == *old(self) && r@.len() == 0,
            !old(self).ended() ==> final(self).phase == phase && final(self).failure == failure && r@ == old(self).pending@
                && final(self).pending@.len() == 0 && final(self).active_topics() == Set::<Seq<char>>::empty(),
    {
        if self.phase == Phase::Closed || self.phase == Phase::Failed {
            return Vec::new();
        }
        self.phase = phase;
        self.failure = failure;
        self.active = Vec::new();
        assert(self.active_topics() =~= Set::<Seq<char>>::empty());
        let mut cancelled: Vec<PendingRequest> = Vec::new();
        std::mem::swap(&mut cancelled, &mut self.pending);
        cancelled
    }

    /// The caller closes the session; see `finish`.
    pub fn close(&mut self) -> (r: Vec<PendingRequest>)
        requires
            old(self).wf(),
        ensures
            final(self).wf(),
            old(self).ended() ==> *final(self) == *old(self) && r@.len() == 0,
            !old(self).ended() ==> final(self).phase == Phase::Closed && r@ == old(self).pending@ && final(self).pending@.len()
                == 0 && final(self).active_topics() == Set::<Seq<char>>::empty(),
    {
        self.finish(Phase::Closed, None)
    }

    /// The transport reported a clean close: an active session closes, one
    /// that was still being set up has lost its connection.
    pub fn on_transport_closed(&mut self) -> (r: Vec<PendingRequest>)
        requires
            old(self).wf(),
        ensures
            final(self).wf(),
            old(self).ended() ==> *final(self) == *old(self) && r@.len() == 0,
            old(self).phase == Phase::Active ==> final(self).phase == Phase::Closed && r@ == old(self).pending@,
            !old(self).ended() && old(self).phase != Phase::Active ==> final(self).phase == Phase::Failed && final(self).failure
                == Some(SessionError::ConnectionLost),
    {
        if self.phase == Phase::Active {
            self.finish(Phase::Closed, None)
        } else {
            self.finish(Phase::Failed, Some(SessionError::ConnectionLost))
        }
    }

    /// The transport failed: the session fails unless it has already ended.
    pub fn on_transport_error(&mut self) -> (r: Vec<PendingRequest>)
        requires
            old(self).wf(),
        ensures
            final(self).wf(),
            old(self).ended() ==> *final(self) == *old(self) && r@.len() == 0,
            !old(self).ended() ==> final(self).phase == Phase::Failed && final(self).failure == Some(SessionError::ConnectionLost)
                && r@ == old(self).pending@,
    {
        self.finish(Phase::Failed, Some(SessionError::ConnectionLost))
    }
}

/// The effect of one inbound frame at `now`, returning `r`. Waiting for the
/// welcome frame, the welcome makes the session active and arms the
/// keepalive; any other frame fails it. While active, acknowledgements and
/// pongs are resolved, a ping is answered with a pong of the same id, and a
/// data frame is routed and handed on as exactly one event without changing
/// the session. In other phases frames are ignored.
pub open spec fn frame_effect(before: Session, after: Session, frame: InboundFrame, now: u64, r: Action) -> bool {
    match before.phase {
        Phase::AwaitingWelcome => match frame {
            InboundFrame::Welcome { .. } => after == (Session {
                phase: Phase::Active,
                keepalive: before.keepalive_from(now),
                ..before
            }) && r == Action::Nothing,
            _ => after == (Session {
                phase: Phase::Failed,
                failure: Some(SessionError::UnexpectedFrame),
                ..before
            }) && r == Action::Fail(SessionError::UnexpectedFrame),
        },
        Phase::Active => match frame {
            InboundFrame::Ack { id } => ack_effect(before, after, id@) && r == Action::Nothing,
            InboundFrame::Ping { id } => after == before && (r matches Action::SendPong(m) && m.id@ == id@ && m.msg_type@
                == "pong"@),
            InboundFrame::Pong { id } => after == (Session {
                keepalive: keepalive_after_pong(before.keepalive, id@, now),
                ..before
            }) && r == Action::Nothing,
            InboundFrame::Message { topic, subject, data } => after == before && (r matches Action::Emit(d) && d.parts() == (
                topic@,
                subject@,
                data@,
            ) && d.kind() == route_of(topic_name_of(topic@), subject@)),
            _ => after == before && r == Action::Nothing,
        },
        _ => after == before && r == Action::Nothing,
    }
}

impl Session {
    /// Handles one inbound frame; see `frame_effect`.
    pub fn on_frame(&mut self, frame: InboundFrame, now: u64) -> (r: Action)
        requires
            old(self).wf(),
        ensures
            final(self).wf(),
            frame_effect(*old(self), *final(self), frame, now, r),
    {
        match self.phase {
            Phase::AwaitingWelcome => match frame {
                InboundFrame::Welcome { .. } => {
                    let server = &self.servers[self.server_index];
                    let k = Keepalive::armed(millis_of(server.ping_interval), millis_of(server.ping_timeout), now);
                    self.keepalive = k;
                    self.phase = Phase::Active;
                    Action::Nothing
                },
                _ => {
                    self.fail(SessionError::UnexpectedFrame);
                    Action::Fail(SessionError::UnexpectedFrame)
                },
            },
            Phase::Active => match frame {
                InboundFrame::Ack { id } => {
                    self.on_ack(id.as_str());
                    Action::Nothing
                },
                InboundFrame::Ping { id } => Action::SendPong(DefaultMsg { id, msg_type: String::from_str("pong") }),
                InboundFrame::Pong { id } => {
                    self.on_pong(id.as_str(), now);
                    Action::Nothing
                },
                InboundFrame::Message { topic, subject, data } => Action::Emit(decode(topic, subject, data)),
                _ => Action::Nothing,
            },
            _ => Action::Nothing,
        }
    }
}

/// A data frame whose (topic, subject) pair the table does not know never
/// ends the session: it leaves the session as it was and yields exactly one
/// catch-all event that carries the frame's topic, subject and payload.
pub proof fn lemma_unknown_frame_not_fatal(
    before: Session,
    after: Session,
    topic: String,
    subject: String,
    data: String,
    now: u64,
    r: Action,
)
    requires
        before.phase == Phase::Active,
        route_of(topic_name_of(topic@), subject@).is_none(),
        frame_effect(before, after, InboundFrame::Message { topic, subject, data }, now, r),
    ensures
        after == before,
        after.phase == Phase::Active,
        r matches Action::Emit(d) && d.kind().is_none() && d.parts() == (topic@, subject@, data@),
{
}

/// A subscribe that asks for an acknowledgement does not make its topic
/// active by itself. An acknowledgement whose id matches nothing pending
/// changes nothing; the one carrying the subscribe's id makes the topic
/// active.
pub proof fn lemma_subscribe_waits_for_ack(
    s0: Session,
    s1: Session,
    s2: Session,
    wire: Seq<char>,
    private: bool,
    r: Result<Subscribe, RequestError>,
    id: Seq<char>,
)
    requires
        s0.wf(),
        s1.wf(),
        r.is_ok(),
        !s0.active_topics().contains(wire),
        request_effect(s0, s1, wire, private, true, true, r),
        ack_effect(s1, s2, id),
    ensures
        !s1.active_topics().contains(wire),
        !acknowledges(s1, id) ==> s2 == s1,
        id == decimal(s0.next_id as nat) ==> s2.active_topics().contains(wire),
{
    if id == decimal(s0.next_id as nat) {
        let last = s1.pending@.len() - 1;
        assert(s1.pending@[last] == s1.pending@.last());
        assert(acknowledges(s1, id));
        let j = choose|j: int| 0 <= j < s1.pending@.len() && decimal((#[trigger] s1.pending@[j]).id as nat) == id;
        lemma_decimal_injective(s1.pending@[j].id as nat, s1.pending@[last].id as nat);
        assert(j == last);
    }
}

} // verus!
