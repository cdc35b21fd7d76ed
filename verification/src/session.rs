//! The state that routing works on: one session for each connection, the
//! hub that all sessions share, and the step that routing hands back.

use crate::events::ServerEvent;
use crate::events::ServerEventView;
use crate::gateway::StoreRequest;
use crate::gateway::StoreRequestView;
use crate::records::text_opt;
use crate::records::DbMessage;
use crate::records::DbMessageView;
use crate::records::UserView;
use crate::registry::PresenceRegistry;
use crate::registry::SocketDirectory;
use vstd::prelude::*;

verus! {

/// One connection: the channel that its events go out on, named by a
/// number, and the identity that it has authenticated as, if any. A session
/// that has authenticated keeps its identity for good.
#[derive(Debug)]
pub struct Session {
    conn: u64,
    user_id: Option<String>,
}

/// The value of a [`Session`].
pub struct SessionView {
    pub conn: u64,
    pub user_id: Option<Seq<char>>,
}

impl View for Session {
    type V = SessionView;

    closed spec fn view(&self) -> SessionView {
        SessionView { conn: self.conn, user_id: text_opt(self.user_id) }
    }
}

impl Session {
    /// The session of a connection that has just been opened.
    pub fn new(conn: u64) -> (session: Session)
        ensures
            session@ == (SessionView { conn, user_id: None }),
    {
        Session { conn, user_id: None }
    }

    /// The number of the connection's outbound channel.
    pub fn conn(&self) -> (conn: u64)
        ensures
            conn == self@.conn,
    {
        self.conn
    }

    /// The identity that the session has authenticated as, if any.
    pub fn user_id(&self) -> (user_id: &Option<String>)
        ensures
            text_opt(*user_id) == self@.user_id,
    {
        &self.user_id
    }

    /// Whether the session has authenticated.
    pub fn is_authenticated(&self) -> (authenticated: bool)
        ensures
            authenticated == self@.user_id is Some,
    {
        self.user_id.is_some()
    }

    /// Binds the session to `user_id`.
    pub(crate) fn authenticate(&mut self, user_id: String)
        requires
            old(self)@.user_id is None,
        ensures
            final(self)@ == (SessionView { conn: old(self)@.conn, user_id: Some(user_id@) }),
    {
        self.user_id = Some(user_id);
    }
}

/// What all sessions share: the presence registry and the socket directory.
pub struct Hub {
    pub presence: PresenceRegistry,
    pub sockets: SocketDirectory,
}

/// The value of a [`Hub`].
pub struct HubView {
    pub presence: Map<Seq<char>, UserView>,
    pub sockets: Map<Seq<char>, u64>,
}

impl View for Hub {
    type V = HubView;

    open spec fn view(&self) -> HubView {
        HubView { presence: self.presence@, sockets: self.sockets@ }
    }
}

impl Hub {
    /// A hub without records and without sockets.
    pub fn new() -> (hub: Hub)
        ensures
            hub@ == (HubView { presence: Map::empty(), sockets: Map::empty() }),
    {
        Hub { presence: PresenceRegistry::new(), sockets: SocketDirectory::new() }
    }
}

/// One event and the connections it is to be sent to, in order. A
/// connection that occurs twice is sent the event twice.
#[derive(Debug, PartialEq)]
pub struct Outbound {
    pub to: Vec<u64>,
    pub event: ServerEvent,
}

/// The value of an [`Outbound`].
pub struct OutboundView {
    pub to: Seq<u64>,
    pub event: ServerEventView,
}

impl View for Outbound {
    type V = OutboundView;

    open spec fn view(&self) -> OutboundView {
        OutboundView { to: self.to@, event: self.event@ }
    }
}

impl DeepView for Outbound {
    type V = OutboundView;

    open spec fn deep_view(&self) -> OutboundView {
        self@
    }
}

/// What a session is waiting to go on with, once the gateway has answered.
#[derive(Debug, PartialEq, Eq)]
#[allow(inconsistent_fields)]
pub enum Pending {
    /// A registration, once the username has been looked up.
    RegisterLookup { username: String, password: String },
    /// A registration, once the account has been created.
    RegisterCreate { user_id: String, username: String },
    /// A login, once the username has been looked up.
    LoginLookup { username: String, password: Option<String> },
    /// A login without password under a new username, once the account has
    /// been created.
    LoginCreate { user_id: String, username: String },
    /// A history request, once the page has been fetched.
    HistoryMessages { user_id: String, other_user_id: String, limit: i32, offset: i32 },
    /// A history request, once the messages have been counted.
    HistoryCount { limit: i32, offset: i32, rows: Vec<DbMessage> },
    /// A history request, once the reactions have been fetched.
    HistoryReactions { limit: i32, offset: i32, rows: Vec<DbMessage>, total_count: i32 },
}

/// The value of a [`Pending`].
#[allow(inconsistent_fields)]
pub enum PendingView {
    RegisterLookup { username: Seq<char>, password: Seq<char> },
    RegisterCreate { user_id: Seq<char>, username: Seq<char> },
    LoginLookup { username: Seq<char>, password: Option<Seq<char>> },
    LoginCreate { user_id: Seq<char>, username: Seq<char> },
    HistoryMessages { user_id: Seq<char>, other_user_id: Seq<char>, limit: i32, offset: i32 },
    HistoryCount { limit: i32, offset: i32, rows: Seq<DbMessageView> },
    HistoryReactions { limit: i32, offset: i32, rows: Seq<DbMessageView>, total_count: i32 },
}

impl View for Pending {
    type V = PendingView;

    open spec fn view(&self) -> PendingView {
        match *self {
            Pending::RegisterLookup { username, password } => PendingView::RegisterLookup {
                username: username@,
                password: password@,
            },
            Pending::RegisterCreate { user_id, username } => PendingView::RegisterCreate {
                user_id: user_id@,
                username: username@,
            },
            Pending::LoginLookup { username, password } => PendingView::LoginLookup {
                username: username@,
                password: text_opt(password),
            },
            Pending::LoginCreate { user_id, username } => PendingView::LoginCreate {
                user_id: user_id@,
                username: username@,
            },
            Pending::HistoryMessages {
                user_id,
                other_user_id,
                limit,
                offset,
            } => PendingView::HistoryMessages {
                user_id: user_id@,
                other_user_id: other_user_id@,
                limit,
                offset,
            },
            Pending::HistoryCount { limit, offset, rows } => PendingView::HistoryCount {
                limit,
                offset,
                rows: rows.deep_view(),
            },
            Pending::HistoryReactions {
                limit,
                offset,
                rows,
                total_count,
            } => PendingView::HistoryReactions { limit, offset, rows: rows.deep_view(), total_count },
        }
    }
}

/// A call on the gateway whose reply routing needs, and what the session
/// goes on with when the reply is there.
#[derive(Debug, PartialEq, Eq)]
pub struct Query {
    pub request: StoreRequest,
    pub pending: Pending,
}

/// The value of a [`Query`].
pub struct QueryView {
    pub request: StoreRequestView,
    pub pending: PendingView,
}

impl View for Query {
    type V = QueryView;

    open spec fn view(&self) -> QueryView {
        QueryView { request: self.request@, pending: self.pending@ }
    }
}

/// What routing hands back for one event: the gateway calls to make whose
/// replies nobody waits for, the events to send out, in order, and the
/// gateway call, if any, whose reply the session is to be resumed with.
#[derive(Debug, PartialEq)]
pub struct Step {
    pub outbound: Vec<Outbound>,
    pub writes: Vec<StoreRequest>,
    pub query: Option<Query>,
}

/// The value of a [`Step`].
pub struct StepView {
    pub outbound: Seq<OutboundView>,
    pub writes: Seq<StoreRequestView>,
    pub query: Option<QueryView>,
}

impl View for Step {
    type V = StepView;

    open spec fn view(&self) -> StepView {
        StepView {
            outbound: self.outbound.deep_view(),
            writes: self.writes.deep_view(),
            query: match self.query {
                Some(q) => Some(q@),
                None => None,
            },
        }
    }
}

/// The step that does nothing.
pub open spec fn idle() -> StepView {
    StepView { outbound: Seq::empty(), writes: Seq::empty(), query: None }
}

/// The step that sends one event to one connection.
pub open spec fn tells(conn: u64, event: ServerEventView) -> StepView {
    StepView {
        outbound: seq![OutboundView { to: seq![conn], event }],
        writes: Seq::empty(),
        query: None,
    }
}

/// The step that asks the gateway and waits for the reply.
pub open spec fn asks(request: StoreRequestView, pending: PendingView) -> StepView {
    StepView {
        outbound: Seq::empty(),
        writes: Seq::empty(),
        query: Some(QueryView { request, pending }),
    }
}

impl Step {
    /// The step that does nothing.
    pub fn idle() -> (step: Step)
        ensures
            step@ == idle(),
    {
        let step = Step { outbound: Vec::new(), writes: Vec::new(), query: None };
        assert(step.outbound.deep_view() =~= Seq::empty());
        assert(step.writes.deep_view() =~= Seq::empty());
        step
    }

    /// The step that sends `event` to `conn`.
    pub fn tell(conn: u64, event: ServerEvent) -> (step: Step)
        ensures
            step@ == tells(conn, event@),
    {
        let mut to: Vec<u64> = Vec::new();
        to.push(conn);
        let mut outbound: Vec<Outbound> = Vec::new();
        outbound.push(Outbound { to, event });
        let step = Step { outbound, writes: Vec::new(), query: None };
        assert(step.outbound.deep_view() =~= seq![OutboundView { to: seq![conn], event: event@ }]);
        assert(step.writes.deep_view() =~= Seq::empty());
        step
    }

    /// The step that asks the gateway for `request` and goes on with `pending`.
    pub fn ask(request: StoreRequest, pending: Pending) -> (step: Step)
        ensures
            step@ == asks(request@, pending@),
    {
        let step = Step {
            outbound: Vec::new(),
            writes: Vec::new(),
            query: Some(Query { request, pending }),
        };
        assert(step.outbound.deep_view() =~= Seq::empty());
        assert(step.writes.deep_view() =~= Seq::empty());
        step
    }
}

} // verus!
