//! A connection that is made on first use and shared from then on.
//!
//! The handshake is outside work. `conn` says whether a client is there or
//! a handshake is due; `connected` takes what came of the handshake. The
//! caller runs both under exclusive access, so that callers who arrive
//! together see one another's result.

use vstd::prelude::*;

verus! {

/// A handshake that failed, with its cause.
#[derive(Debug, Clone, PartialEq, Eq)]
pub enum ConnectError {
    ConnectionFailed(String),
}

pub enum ConnectErrorView {
    ConnectionFailed(Seq<char>),
}

impl View for ConnectError {
    type V = ConnectErrorView;

    open spec fn view(&self) -> ConnectErrorView {
        match self {
            ConnectError::ConnectionFailed(cause) => ConnectErrorView::ConnectionFailed(cause@),
        }
    }
}

/// Either the endpoint to connect to, or the client that the one
/// handshake gave.
#[derive(Debug, Clone)]
pub enum LazyClientImpl<Client> {
    NotConnected(String),
    Connected(Client),
}

/// What a caller who asks for the connection has to do.
#[derive(Debug)]
pub enum Connection<'a, Client> {
    /// The client is there.
    Ready(&'a Client),
    /// No client yet: connect to this endpoint and hand in the result.
    Handshake(&'a String),
}

/// The shared state of one logical connection.
#[derive(Debug, Clone)]
pub struct LazyClient<Client> {
    state: LazyClientImpl<Client>,
}

/// The model of a `LazyClient`.
pub enum LazyState<Client> {
    NotConnected(Seq<char>),
    Connected(Client),
}

/// What a handshake gave: a client, or the cause of its failure.
pub enum Handshake<Client> {
    Established(Client),
    Refused(Seq<char>),
}

impl<Client> LazyState<Client> {
    /// The state after a handshake ended with `outcome`. Only the first
    /// client is kept; a failure leaves the state as it was.
    pub open spec fn after(self, outcome: Handshake<Client>) -> LazyState<Client> {
        match (self, outcome) {
            (LazyState::NotConnected(_), Handshake::Established(client)) => LazyState::Connected(
                client,
            ),
            _ => self,
        }
    }

    /// What the caller who handed in `outcome` gets.
    pub open spec fn answer(self, outcome: Handshake<Client>) -> Result<Client, ConnectErrorView> {
        match (self, outcome) {
            (LazyState::Connected(client), _) => Ok(client),
            (LazyState::NotConnected(_), Handshake::Established(client)) => Ok(client),
            (LazyState::NotConnected(_), Handshake::Refused(cause)) => Err(
                ConnectErrorView::ConnectionFailed(cause),
            ),
        }
    }

    /// One whole request for the connection, by a caller whose handshake,
    /// if it makes one, ends with `outcome`: the state afterwards, what the
    /// caller gets, and whether a handshake was made.
    pub open spec fn request(self, outcome: Handshake<Client>) -> (
        LazyState<Client>,
        Result<Client, ConnectErrorView>,
        bool,
    ) {
        match self {
            LazyState::Connected(client) => (self, Ok(client), false),
            LazyState::NotConnected(_) => (self.after(outcome), self.answer(outcome), true),
        }
    }

    /// The state after the requests of callers whose handshakes would end
    /// with `outcomes`, one caller after the other.
    pub open spec fn after_all(self, outcomes: Seq<Handshake<Client>>) -> LazyState<Client>
        decreases outcomes.len(),
    {
        if outcomes.len() == 0 {
            self
        } else {
            self.after_all(outcomes.drop_last()).request(outcomes.last()).0
        }
    }

    /// What the last of these callers gets.
    pub open spec fn last_answer(self, outcomes: Seq<Handshake<Client>>) -> Result<
        Client,
        ConnectErrorView,
    >
        recommends
            outcomes.len() > 0,
    {
        self.after_all(outcomes.drop_last()).request(outcomes.last()).1
    }

    /// How many of these callers make a handshake that gives a client.
    pub open spec fn handshakes(self, outcomes: Seq<Handshake<Client>>) -> nat
        decreases outcomes.len(),
    {
        if outcomes.len() == 0 {
            0
        } else {
            let before = self.after_all(outcomes.drop_last());
            let made = before.request(outcomes.last()).2 && outcomes.last() is Established;
            self.handshakes(outcomes.drop_last()) + if made {
                1nat
            } else {
                0nat
            }
        }
    }
}

impl<Client> View for LazyClient<Client> {
    type V = LazyState<Client>;

    closed spec fn view(&self) -> LazyState<Client> {
        match self.state {
            LazyClientImpl::NotConnected(endpoint) => LazyState::NotConnected(endpoint@),
            LazyClientImpl::Connected(client) => LazyState::Connected(client),
        }
    }
}

impl<Client> LazyClient<Client> {
    /// A connection to `dest` that is not made yet.
    pub fn create(dest: String) -> (r: Self)
        ensures
            r@ == LazyState::<Client>::NotConnected(dest@),
    {
        LazyClient { state: LazyClientImpl::NotConnected(dest) }
    }

    /// The client where the connection is made, else the endpoint to
    /// connect to.
    pub fn conn(&self) -> (r: Connection<'_, Client>)
        ensures
            match r {
                Connection::Ready(client) => self@ == LazyState::Connected(*client),
                Connection::Handshake(endpoint) => self@ == LazyState::<Client>::NotConnected(
                    endpoint@,
                ),
            },
    {
        match &self.state {
            LazyClientImpl::Connected(client) => Connection::Ready(client),
            LazyClientImpl::NotConnected(endpoint) => Connection::Handshake(endpoint),
        }
    }

    /// Takes what came of a handshake. The first client handed in is kept
    /// and returned; where one is kept already, that one is returned and
    /// the new one dropped. A failure leaves the state as it was, so that a
    /// later caller may try again.
    pub fn connected(&mut self, outcome: Result<Client, String>) -> (r: Result<&Client, ConnectError>)
        ensures
            final(self)@ == old(self)@.after(handshake_of(outcome)),
            match r {
                Ok(client) => old(self)@.answer(handshake_of(outcome)) == Ok::<
                    Client,
                    ConnectErrorView,
                >(*client),
                Err(e) => old(self)@.answer(handshake_of(outcome)) == Err::<
                    Client,
                    ConnectErrorView,
                >(e@),
            },
    {
        if let LazyClientImpl::NotConnected(_) = &self.state {
            match outcome {
                Ok(client) => {
                    self.state = LazyClientImpl::Connected(client);
                },
                Err(cause) => {
                    return Err(ConnectError::ConnectionFailed(cause));
                },
            }
        }
        match &self.state {
            LazyClientImpl::Connected(client) => Ok(client),
            LazyClientImpl::NotConnected(_) => vstd::pervasive::unreached(),
        }
    }
}

/// The model of what a handshake gave.
pub open spec fn handshake_of<Client>(outcome: Result<Client, String>) -> Handshake<Client> {
    match outcome {
        Ok(client) => Handshake::Established(client),
        Err(cause) => Handshake::Refused(cause@),
    }
}

/// A caller who gets a client leaves the connection made, with that
/// client; a caller who gets none leaves it as it was.
pub proof fn lemma_request<Client>(state: LazyState<Client>, outcome: Handshake<Client>)
    ensures
        state.request(outcome).1 matches Ok(client) ==> state.request(outcome).0
            == LazyState::Connected(client),
        state.request(outcome).1 is Err ==> state.request(outcome).0 == state,
        state matches LazyState::Connected(client) ==> state.request(outcome) == (
            state,
            Ok::<Client, ConnectErrorView>(client),
            false,
        ),
{
}

/// Once the connection is made with a client, it stays made with that
/// client, and every later caller gets that client without a handshake.
pub proof fn lemma_connection_stays<Client>(
    state: LazyState<Client>,
    outcomes: Seq<Handshake<Client>>,
    made: int,
    later: int,
)
    requires
        0 <= made <= later <= outcomes.len(),
        state.after_all(outcomes.take(made)) is Connected,
    ensures
        state.after_all(outcomes.take(later)) == state.after_all(outcomes.take(made)),
        state.handshakes(outcomes.take(later)) == state.handshakes(outcomes.take(made)),
        made < later ==> state.last_answer(outcomes.take(later)) == Ok::<Client, ConnectErrorView>(
            state.after_all(outcomes.take(made))->Connected_0,
        ),
    decreases later - made,
{
    if made < later {
        lemma_connection_stays(state, outcomes, made, later - 1);
        assert(outcomes.take(later).drop_last() =~= outcomes.take(later - 1));
    }
}

/// At most one handshake that gives a client is ever made for one
/// connection, however many callers ask and whatever their handshakes
/// would give.
pub proof fn lemma_at_most_one_handshake<Client>(
    state: LazyState<Client>,
    outcomes: Seq<Handshake<Client>>,
)
    ensures
        state.handshakes(outcomes) <= 1,
        state.handshakes(outcomes) == 1 ==> state.after_all(outcomes) is Connected,
        state is Connected ==> state.handshakes(outcomes) == 0 && state.after_all(outcomes) == state,
    decreases outcomes.len(),
{
    if outcomes.len() > 0 {
        lemma_at_most_one_handshake(state, outcomes.drop_last());
    }
}

/// All callers who get a client get the same one.
pub proof fn lemma_same_client<Client>(
    state: LazyState<Client>,
    outcomes: Seq<Handshake<Client>>,
    i: int,
    j: int,
)
    requires
        0 <= i <= j < outcomes.len(),
        state.last_answer(outcomes.take(i + 1)) is Ok,
    ensures
        state.last_answer(outcomes.take(j + 1)) == state.last_answer(outcomes.take(i + 1)),
{
    let first = outcomes.take(i + 1);
    lemma_request(state.after_all(first.drop_last()), first.last());
    if i < j {
        lemma_connection_stays(state, outcomes, i + 1, j + 1);
    }
}

/// Where every handshake would succeed, any number of callers of a
/// connection that is not made yet cause exactly one handshake, the first
/// caller's, and each of them gets the client that it gave.
pub proof fn lemma_one_handshake_serves_all<Client>(
    endpoint: Seq<char>,
    outcomes: Seq<Handshake<Client>>,
    caller: int,
)
    requires
        0 <= caller < outcomes.len(),
        forall|k: int| 0 <= k < outcomes.len() ==> (#[trigger] outcomes[k]) is Established,
    ensures
        LazyState::<Client>::NotConnected(endpoint).handshakes(outcomes) == 1,
        LazyState::<Client>::NotConnected(endpoint).last_answer(outcomes.take(caller + 1)) == Ok::<
            Client,
            ConnectErrorView,
        >(outcomes[0]->Established_0),
{
    let state = LazyState::<Client>::NotConnected(endpoint);
    let first = outcomes.take(1);
    assert(first.drop_last() =~= Seq::<Handshake<Client>>::empty());
    assert(first.last() == outcomes[0]);
    assert(state.after_all(first.drop_last()) == state);
    assert(state.handshakes(first.drop_last()) == 0);
    assert(state.handshakes(first) == 1);
    assert(state.last_answer(first) == Ok::<Client, ConnectErrorView>(outcomes[0]->Established_0));
    lemma_same_client(state, outcomes, 0, caller);
    lemma_connection_stays(state, outcomes, 1, outcomes.len() as int);
    assert(outcomes.take(outcomes.len() as int) =~= outcomes);
}

} // verus!
