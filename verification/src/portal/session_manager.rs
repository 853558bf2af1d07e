//! Session manager: owns the portal's sessions, enforces the session limit
//! and unique ids, and forwards sent events to the compositor channel.

use vstd::prelude::*;
use crate::text::concat2;
use crate::time::MonotonicClock;
use crate::types::device::DeviceType;
use crate::types::error::{Error, SessionError};
use crate::types::event::InputEvent;
use crate::types::session::{EventQueue, SessionHandle, SessionId, SessionState, event_authorized, send_event_refusal};
use vstd::string::StringExecFns;

verus! {

/// Configuration of the session manager.
#[derive(Clone, Copy, Debug, PartialEq, Eq, Structural)]
pub struct SessionManagerConfig {
    /// Maximum number of concurrent sessions.
    pub max_sessions: usize,
    /// Capacity of each event channel.
    pub event_buffer_size: usize,
}

impl Default for SessionManagerConfig {
    fn default() -> (r: SessionManagerConfig)
        ensures
            r.max_sessions == 10,
            r.event_buffer_size == 256,
    {
        SessionManagerConfig { max_sessions: 10, event_buffer_size: 256 }
    }
}

/// Whether some session in `s` has id `id`.
pub open spec fn holds_id(s: Seq<SessionHandle>, id: Seq<char>) -> bool {
    exists|i: int| 0 <= i < s.len() && #[trigger] s[i].spec_id() == id
}

/// Whether the sessions in `s` have pairwise distinct ids.
pub open spec fn ids_distinct(s: Seq<SessionHandle>) -> bool {
    forall|i: int, j: int|
        0 <= i < s.len() && 0 <= j < s.len() && i != j ==> #[trigger] s[i].spec_id()
            != #[trigger] s[j].spec_id()
}

/// Whether `b` is `a` with only its event count and channel possibly changed.
pub open spec fn same_session_but_events(a: SessionHandle, b: SessionHandle) -> bool {
    &&& b.spec_id() == a.spec_id()
    &&& b.spec_app_id() == a.spec_app_id()
    &&& b.spec_state() == a.spec_state()
    &&& b.spec_devices() == a.spec_devices()
    &&& b.spec_created_at() == a.spec_created_at()
}

/// Whether `b` is `a` with only its lifecycle state and grants possibly changed.
pub open spec fn same_session_but_lifecycle(a: SessionHandle, b: SessionHandle) -> bool {
    &&& b.spec_id() == a.spec_id()
    &&& b.spec_app_id() == a.spec_app_id()
    &&& b.spec_created_at() == a.spec_created_at()
    &&& b.spec_event_count() == a.spec_event_count()
    &&& b.spec_outbox() == a.spec_outbox()
    &&& b.spec_channel_open() == a.spec_channel_open()
}

/// Whether `a` and `b` agree on everything the contracts speak of.
pub open spec fn same_session(a: SessionHandle, b: SessionHandle) -> bool {
    &&& same_session_but_events(a, b)
    &&& b.spec_event_count() == a.spec_event_count()
    &&& b.spec_outbox() == a.spec_outbox()
    &&& b.spec_channel_open() == a.spec_channel_open()
}

/// Whether `s` is a freshly created session with id `id` and app `app`.
pub open spec fn is_fresh_session(s: SessionHandle, id: Seq<char>, app: Seq<char>) -> bool {
    &&& s.spec_id() == id
    &&& s.spec_app_id() == app
    &&& s.spec_state() == SessionState::Created
    &&& s.spec_devices() == (DeviceType { keyboard: false, pointer: false, touchscreen: false })
    &&& s.spec_event_count() == 0
    &&& s.spec_outbox() == Seq::<InputEvent>::empty()
    &&& s.spec_channel_open()
}

/// Tracks the portal's sessions.
#[derive(Debug)]
pub struct SessionManager {
    config: SessionManagerConfig,
    sessions: Vec<SessionHandle>,
    compositor: EventQueue<(SessionId, InputEvent)>,
    clock: MonotonicClock,
}

impl SessionManager {
    /// The sessions, in creation order.
    pub closed spec fn sessions(&self) -> Seq<SessionHandle> {
        self.sessions@
    }

    /// The configuration.
    pub closed spec fn spec_config(&self) -> SessionManagerConfig {
        self.config
    }

    /// Events forwarded to the compositor and not yet received, oldest first.
    pub closed spec fn compositor_pending(&self) -> Seq<(SessionId, InputEvent)> {
        self.compositor.pending()
    }

    /// Whether the compositor channel is open.
    pub closed spec fn compositor_open(&self) -> bool {
        self.compositor.spec_is_open()
    }

    /// The manager's invariant: ids are unique and every sent event has
    /// been forwarded (no session holds queued events).
    pub closed spec fn wf(&self) -> bool {
        &&& ids_distinct(self.sessions@)
        &&& forall|i: int|
            0 <= i < self.sessions@.len() ==> #[trigger] self.sessions@[i].spec_outbox()
                == Seq::<InputEvent>::empty()
    }

    /// The index of the session with id `id`; meaningful when it exists.
    pub open spec fn index_of(&self, id: Seq<char>) -> int {
        choose|i: int| 0 <= i < self.sessions().len() && #[trigger] self.sessions()[i].spec_id() == id
    }

    /// A manager with no session and an open compositor channel.
    pub fn new(config: SessionManagerConfig) -> (r: SessionManager)
        ensures
            r.wf(),
            r.sessions() == Seq::<SessionHandle>::empty(),
            r.spec_config() == config,
            r.compositor_pending() == Seq::<(SessionId, InputEvent)>::empty(),
            r.compositor_open(),
    {
        SessionManager {
            config,
            sessions: Vec::new(),
            compositor: EventQueue::new(),
            clock: MonotonicClock::start(),
        }
    }

    /// The clock the manager stamps sessions with.
    pub closed spec fn spec_clock(&self) -> MonotonicClock {
        self.clock
    }

    /// A copy of the clock the manager stamps sessions with: readings from
    /// it compare with the sessions' creation times.
    pub fn clock(&self) -> (r: MonotonicClock)
        ensures
            r == self.spec_clock(),
    {
        self.clock
    }

    /// The position of the session with id `id`, if any.
    pub fn find(&self, id: &str) -> (r: Option<usize>)
        requires
            self.wf(),
        ensures
            r matches Some(i) ==> i < self.sessions().len() && self.sessions()[i as int].spec_id()
                == id@ && i == self.index_of(id@),
            r is None <==> !holds_id(self.sessions(), id@),
    {
        let mut i: usize = 0;
        while i < self.sessions.len()
            invariant
                i <= self.sessions@.len(),
                ids_distinct(self.sessions@),
                forall|k: int| 0 <= k < i ==> #[trigger] self.sessions@[k].spec_id() != id@,
            decreases self.sessions@.len() - i,
        {
            if crate::text::str_eq(self.sessions[i].id().as_str(), id) {
                proof {
                    let j = self.index_of(id@);
                    assert(0 <= j < self.sessions@.len() && self.sessions@[j].spec_id() == id@);
                }
                return Some(i);
            }
            i = i + 1;
        }
        None
    }

    /// Creates a session in state `Created`.
    ///
    /// Fails, changing nothing, when the limit of sessions is reached
    /// (`Internal("maximum sessions reached")`), or else when a session with
    /// this id exists (`AlreadyExists` naming the id). On success returns
    /// the new session.
    pub fn create_session(&mut self, id: SessionId, app_id: String) -> (r: Result<
        &SessionHandle,
        Error,
    >)
        requires
            old(self).wf(),
        ensures
            final(self).wf(),
            final(self).spec_config() == old(self).spec_config(),
            final(self).compositor_pending() == old(self).compositor_pending(),
            final(self).compositor_open() == old(self).compositor_open(),
            old(self).sessions().len() >= old(self).spec_config().max_sessions ==> (r matches Err(
                Error::Internal(m),
            ) && m@ == "maximum sessions reached"@),
            old(self).sessions().len() < old(self).spec_config().max_sessions && holds_id(
                old(self).sessions(),
                id@,
            ) ==> (r matches Err(Error::Session(SessionError::AlreadyExists(m))) && m@ == id@),
            r is Ok <==> (old(self).sessions().len() < old(self).spec_config().max_sessions
                && !holds_id(old(self).sessions(), id@)),
            r is Err ==> final(self).sessions() == old(self).sessions(),
            r matches Ok(h) ==> *h == final(self).sessions().last(),
            r is Ok ==> final(self).sessions().len() == old(self).sessions().len() + 1
                && final(self).sessions().drop_last() == old(self).sessions() && is_fresh_session(
                final(self).sessions().last(),
                id@,
                app_id@,
            ),
    {
        if self.sessions.len() >= self.config.max_sessions {
            return Err(Error::Internal(String::from_str("maximum sessions reached")));
        }
        if self.find(id.as_str()).is_some() {
            return Err(Error::Session(SessionError::AlreadyExists(id.to_text())));
        }
        let session = SessionHandle::new(id, app_id, EventQueue::new(), &mut self.clock);
        let ghost before = self.sessions@;
        self.sessions.push(session);
        proof {
            assert(self.sessions@.drop_last() =~= before);
            assert forall|i: int, j: int|
                0 <= i < self.sessions@.len() && 0 <= j < self.sessions@.len() && i != j implies #[trigger] self.sessions@[i].spec_id()
                    != #[trigger] self.sessions@[j].spec_id() by {
                if i == before.len() as int {
                    assert(before[j].spec_id() == self.sessions@[j].spec_id());
                } else if j == before.len() as int {
                    assert(before[i].spec_id() == self.sessions@[i].spec_id());
                }
            }
        }
        let last = self.sessions.len() - 1;
        Ok(&self.sessions[last])
    }

    /// The session with id `id`, if any.
    pub fn get_session(&self, id: &SessionId) -> (r: Option<&SessionHandle>)
        requires
            self.wf(),
        ensures
            r is None <==> !holds_id(self.sessions(), id@),
            r matches Some(s) ==> *s == self.sessions()[self.index_of(id@)],
    {
        match self.find(id.as_str()) {
            Some(i) => Some(&self.sessions[i]),
            None => None,
        }
    }

    /// The session whose id is the object path `path`, if any.
    pub fn get_session_by_path(&self, path: &str) -> (r: Option<&SessionHandle>)
        requires
            self.wf(),
        ensures
            r is None <==> !holds_id(self.sessions(), path@),
            r matches Some(s) ==> *s == self.sessions()[self.index_of(path@)],
    {
        let id = SessionId::new(path);
        self.get_session(&id)
    }

    /// Closes and removes the session with id `id`; returns whether it existed.
    pub fn close_session(&mut self, id: &SessionId) -> (r: bool)
        requires
            old(self).wf(),
        ensures
            final(self).wf(),
            r == holds_id(old(self).sessions(), id@),
            r ==> final(self).sessions() == old(self).sessions().remove(old(self).index_of(id@)),
            !r ==> final(self).sessions() == old(self).sessions(),
            !holds_id(final(self).sessions(), id@),
            final(self).spec_config() == old(self).spec_config(),
            final(self).compositor_pending() == old(self).compositor_pending(),
            final(self).compositor_open() == old(self).compositor_open(),
    {
        match self.find(id.as_str()) {
            Some(i) => {
                let ghost before = self.sessions@;
                let mut session = self.sessions.remove(i);
                session.close();
                proof {
                    assert(self.sessions@ =~= before.remove(i as int));
                    assert forall|k: int| 0 <= k < self.sessions@.len() implies #[trigger] self.sessions@[k].spec_id() != id@ by {
                        if k < i {
                            assert(self.sessions@[k] == before[k]);
                        } else {
                            assert(self.sessions@[k] == before[k + 1]);
                        }
                    }
                }
                true
            },
            None => false,
        }
    }

    /// The number of sessions.
    pub fn session_count(&self) -> (r: usize)
        ensures
            r == self.sessions().len(),
    {
        self.sessions.len()
    }

    /// The ids of all sessions, in creation order.
    pub fn session_ids(&self) -> (r: Vec<SessionId>)
        ensures
            r@.len() == self.sessions().len(),
            forall|i: int| 0 <= i < r@.len() ==> #[trigger] r@[i]@ == self.sessions()[i].spec_id(),
    {
        let mut out: Vec<SessionId> = Vec::new();
        let mut i: usize = 0;
        while i < self.sessions.len()
            invariant
                i <= self.sessions@.len(),
                out@.len() == i,
                forall|k: int| 0 <= k < i ==> #[trigger] out@[k]@ == self.sessions@[k].spec_id(),
            decreases self.sessions@.len() - i,
        {
            out.push(self.sessions[i].id().clone());
            i = i + 1;
        }
        out
    }

    /// Closes and removes every session.
    pub fn close_all(&mut self)
        requires
            old(self).wf(),
        ensures
            final(self).wf(),
            final(self).sessions() == Seq::<SessionHandle>::empty(),
            final(self).spec_config() == old(self).spec_config(),
            final(self).compositor_pending() == old(self).compositor_pending(),
            final(self).compositor_open() == old(self).compositor_open(),
    {
        self.sessions.clear();
    }

    /// Applies `devices` to the session with id `id` (see
    /// [`SessionHandle::select_devices`]); fails with
    /// `Internal("Session not found: <id>")` when there is none.
    pub fn select_devices(&mut self, id: &str, devices: DeviceType) -> (r: Result<(), Error>)
        requires
            old(self).wf(),
        ensures
            final(self).wf(),
            final(self).spec_config() == old(self).spec_config(),
            final(self).compositor_pending() == old(self).compositor_pending(),
            final(self).compositor_open() == old(self).compositor_open(),
            final(self).sessions().len() == old(self).sessions().len(),
            !holds_id(old(self).sessions(), id@) ==> is_not_found(r, id@) && final(self).sessions()
                == old(self).sessions(),
            holds_id(old(self).sessions(), id@) ==> ({
                let i = old(self).index_of(id@);
                let before = old(self).sessions()[i];
                let after = final(self).sessions()[i];
                &&& final(self).sessions() == old(self).sessions().update(i, after)
                &&& same_session_but_lifecycle(before, after)
                &&& (r is Ok <==> before.spec_state() == SessionState::Created)
                &&& r is Ok ==> after.spec_state() == SessionState::DevicesSelected
                    && after.spec_devices() == devices
                &&& r is Err ==> same_session(before, after)
                &&& crate::types::session::fails_invalid_state(r, SessionState::Created, before.spec_state()) || r is Ok
            }),
    {
        match self.find(id) {
            None => Err(Error::Internal(concat2("Session not found: ", id))),
            Some(i) => {
                let ghost before = self.sessions@;
                let mut session = self.sessions.remove(i);
                let r = session.select_devices(devices);
                self.sessions.insert(i, session);
                proof {
                    assert(self.sessions@ =~= before.update(i as int, self.sessions@[i as int]));
                    self.lemma_update_keeps_wf(before, i as int);
                }
                r
            },
        }
    }

    /// Starts the session with id `id` (see [`SessionHandle::start`]); fails
    /// with `Internal("Session not found: <id>")` when there is none.
    pub fn start_session(&mut self, id: &str) -> (r: Result<DeviceType, Error>)
        requires
            old(self).wf(),
        ensures
            final(self).wf(),
            final(self).spec_config() == old(self).spec_config(),
            final(self).compositor_pending() == old(self).compositor_pending(),
            final(self).compositor_open() == old(self).compositor_open(),
            final(self).sessions().len() == old(self).sessions().len(),
            !holds_id(old(self).sessions(), id@) ==> is_not_found(r, id@) && final(self).sessions()
                == old(self).sessions(),
            holds_id(old(self).sessions(), id@) ==> ({
                let i = old(self).index_of(id@);
                let before = old(self).sessions()[i];
                let after = final(self).sessions()[i];
                &&& final(self).sessions() == old(self).sessions().update(i, after)
                &&& same_session_but_lifecycle(before, after)
                &&& after.spec_devices() == before.spec_devices()
                &&& (r is Ok <==> before.spec_state() == SessionState::DevicesSelected)
                &&& r matches Ok(d) ==> after.spec_state() == SessionState::Active && d
                    == before.spec_devices()
                &&& r is Err ==> same_session(before, after)
                &&& crate::types::session::fails_invalid_state(r, SessionState::DevicesSelected, before.spec_state()) || r is Ok
            }),
    {
        match self.find(id) {
            None => Err(Error::Internal(concat2("Session not found: ", id))),
            Some(i) => {
                let ghost before = self.sessions@;
                let mut session = self.sessions.remove(i);
                let r = session.start();
                let devices = session.authorized_devices();
                self.sessions.insert(i, session);
                proof {
                    assert(self.sessions@ =~= before.update(i as int, self.sessions@[i as int]));
                    self.lemma_update_keeps_wf(before, i as int);
                }
                match r {
                    Ok(()) => Ok(devices),
                    Err(e) => Err(e),
                }
            },
        }
    }

    /// Sends `event` through the session with id `id` and forwards it to the
    /// compositor channel, tagged with the id.
    ///
    /// Fails with `Internal("Session not found: <id>")` when there is no such
    /// session; otherwise succeeds exactly when the session accepts the event
    /// (see [`SessionHandle::send_event`]). When the compositor channel is
    /// closed, an accepted event is dropped and the session's channel closes,
    /// so that later events fail with `ChannelClosed`.
    pub fn send_event(&mut self, id: &str, event: InputEvent) -> (r: Result<(), Error>)
        requires
            old(self).wf(),
            holds_id(old(self).sessions(), id@) ==> old(self).sessions()[old(self).index_of(
                id@,
            )].spec_event_count() < u64::MAX,
        ensures
            final(self).wf(),
            final(self).spec_config() == old(self).spec_config(),
            final(self).compositor_open() == old(self).compositor_open(),
            final(self).sessions().len() == old(self).sessions().len(),
            !holds_id(old(self).sessions(), id@) ==> is_not_found(r, id@) && final(self).sessions()
                == old(self).sessions() && final(self).compositor_pending() == old(self).compositor_pending(),
            holds_id(old(self).sessions(), id@) ==> ({
                let i = old(self).index_of(id@);
                let before = old(self).sessions()[i];
                let after = final(self).sessions()[i];
                &&& final(self).sessions() == old(self).sessions().update(i, after)
                &&& same_session_but_events(before, after)
                &&& (r is Ok <==> (before.spec_state() == SessionState::Active && event_authorized(
                    before.spec_devices(),
                    event,
                ) && before.spec_channel_open()))
                &&& send_event_refusal(
                    before.spec_state(),
                    before.spec_devices(),
                    event,
                    before.spec_channel_open(),
                    r,
                )
                &&& r is Err ==> same_session(before, after) && final(self).compositor_pending() == old(self).compositor_pending()
                &&& r is Ok ==> after.spec_event_count() == before.spec_event_count() + 1
                &&& r is Ok && old(self).compositor_open() ==> after.spec_channel_open()
                    && final(self).compositor_pending().len() == old(self).compositor_pending().len()
                    + 1 && final(self).compositor_pending().drop_last() == old(self).compositor_pending() && final(self).compositor_pending().last().0@ == id@
                    && final(self).compositor_pending().last().1 == event
                &&& r is Ok && !old(self).compositor_open() ==> !after.spec_channel_open()
                    && final(self).compositor_pending() == old(self).compositor_pending()
            }),
    {
        match self.find(id) {
            None => Err(Error::Internal(concat2("Session not found: ", id))),
            Some(i) => {
                let ghost before = self.sessions@;
                let mut session = self.sessions.remove(i);
                assert(before[i as int].spec_outbox() == Seq::<InputEvent>::empty());
                let r = session.send_event(event);
                if r.is_ok() {
                    assert(session.spec_outbox() =~= seq![event]);
                    match session.recv_event() {
                        Some(ev) => {
                            assert(session.spec_outbox() =~= Seq::<InputEvent>::empty());
                            let tagged = (session.id().clone(), ev);
                            if !self.compositor.send(tagged) {
                                session.close_channel();
                            }
                        },
                        None => {},
                    }
                }
                self.sessions.insert(i, session);
                proof {
                    assert(self.sessions@ =~= before.update(i as int, self.sessions@[i as int]));
                    self.lemma_update_keeps_wf(before, i as int);
                }
                r
            },
        }
    }

    /// Takes the oldest forwarded event off the compositor channel.
    pub fn recv_compositor_event(&mut self) -> (r: Option<(SessionId, InputEvent)>)
        requires
            old(self).wf(),
        ensures
            final(self).wf(),
            final(self).sessions() == old(self).sessions(),
            final(self).spec_config() == old(self).spec_config(),
            final(self).compositor_open() == old(self).compositor_open(),
            old(self).compositor_pending().len() == 0 ==> r is None && final(self).compositor_pending() == old(self).compositor_pending(),
            old(self).compositor_pending().len() > 0 ==> r == Some(old(self).compositor_pending()[0])
                && final(self).compositor_pending() == old(self).compositor_pending().drop_first(),
    {
        self.compositor.recv()
    }

    /// Closes the compositor channel (the compositor stopped listening).
    pub fn close_compositor_channel(&mut self)
        requires
            old(self).wf(),
        ensures
            final(self).wf(),
            final(self).sessions() == old(self).sessions(),
            final(self).spec_config() == old(self).spec_config(),
            !final(self).compositor_open(),
            final(self).compositor_pending() == old(self).compositor_pending(),
    {
        self.compositor.close();
    }

    proof fn lemma_update_keeps_wf(&self, before: Seq<SessionHandle>, i: int)
        requires
            ids_distinct(before),
            forall|k: int|
                0 <= k < before.len() ==> #[trigger] before[k].spec_outbox() == Seq::<
                    InputEvent,
                >::empty(),
            0 <= i < before.len(),
            self.sessions@ == before.update(i, self.sessions@[i]),
            self.sessions@[i].spec_id() == before[i].spec_id(),
            self.sessions@[i].spec_outbox() == Seq::<InputEvent>::empty(),
        ensures
            self.wf(),
    {
        assert forall|a: int, b: int|
            0 <= a < self.sessions@.len() && 0 <= b < self.sessions@.len() && a != b implies #[trigger] self.sessions@[a].spec_id()
                != #[trigger] self.sessions@[b].spec_id() by {
            assert(self.sessions@[a].spec_id() == before[a].spec_id());
            assert(self.sessions@[b].spec_id() == before[b].spec_id());
        }
    }
}

/// Whether `r` failed because no session has id `id`.
pub open spec fn is_not_found<T>(r: Result<T, Error>, id: Seq<char>) -> bool {
    r matches Err(Error::Internal(m)) && m@ == "Session not found: "@ + id
}

} // verus!
