//! The session manager: at most one live network session, started and shut
//! down through a single guarded slot.
//!
//! The engine, its client handle `C`, the pairing sub-manager `P` and the
//! event source `R` belong to the host. The manager never looks inside them;
//! it owns them, hands them on, and gives back what has to be released.

use vstd::prelude::*;

verus! {

/// Why a start did not go through.
#[derive(Debug)]
pub enum StartError<E> {
    /// The engine could not bring up a client; its own error is attached.
    EngineConstructionFailed(E),
}

/// Why an operation on the current session did not go through.
#[derive(Clone, Copy, Debug, PartialEq, Eq, Structural)]
pub enum SessionError {
    /// There is no session to operate on.
    NoActiveSession,
}

/// One live session: the client handle of the running engine and the pairing
/// sub-manager built over it.
pub struct NetManager<C, P> {
    /// Kept for ownership: the engine stops once the last handle is released.
    client: C,
    pairing_manager: P,
}

impl<C, P> NetManager<C, P> {
    /// The client handle the session owns.
    pub closed spec fn client(self) -> C {
        self.client
    }

    /// The pairing sub-manager the session owns.
    pub closed spec fn pairing_manager(self) -> P {
        self.pairing_manager
    }

    /// Whether `self` is a session over `client` whose pairing sub-manager
    /// is what `build_pairing` makes of a clone of `client` and `peer_id`.
    pub open spec fn built_over<I, F: FnOnce(C, I) -> P>(
        self,
        client: C,
        peer_id: I,
        build_pairing: F,
    ) -> bool where C: Clone {
        &&& self.client() == client
        &&& exists|handle: C|
            cloned(client, handle) && call_ensures(
                build_pairing,
                (handle, peer_id),
                self.pairing_manager(),
            )
    }

    /// Builds a session over `client`: the pairing sub-manager is constructed
    /// by `build_pairing` from a clone of the handle and the local peer
    /// identifier, and the handle itself is kept.
    pub fn new<I, F: FnOnce(C, I) -> P>(client: C, peer_id: I, build_pairing: F) -> (manager: Self)
        where C: Clone
        requires
            forall|handle: C| cloned(client, handle) ==> call_requires(build_pairing, (handle, peer_id)),
        ensures
            manager.built_over(client, peer_id, build_pairing),
    {
        let handle = client.clone();
        assert(cloned(client, handle));
        let pairing_manager = build_pairing(handle, peer_id);
        assert(call_ensures(build_pairing, (handle, peer_id), pairing_manager));
        NetManager { client, pairing_manager }
    }

    /// The pairing sub-manager of this session.
    pub fn pairing(&self) -> (pairing: &P)
        ensures
            *pairing == self.pairing_manager(),
    {
        &self.pairing_manager
    }
}

/// The guarded slot that holds the current session, if there is one.
///
/// The host keeps it behind its lock and takes the lock only for the call
/// that installs or removes a session, never while the engine is being
/// constructed.
pub struct NetManagerState<C, P> {
    session: Option<NetManager<C, P>>,
}

/// What a successful start hands back to the host.
pub struct Started<C, P, R> {
    /// The event source of the new session, for the event bridge to drain.
    pub events: R,
    /// The session that was active until now. Releasing it tells its engine
    /// to stop, which in time closes its event source.
    pub released: Option<NetManager<C, P>>,
}

impl<C, P> NetManagerState<C, P> {
    /// The session in the slot.
    pub closed spec fn session(self) -> Option<NetManager<C, P>> {
        self.session
    }

    /// Whether a session is active.
    pub open spec fn active(self) -> bool {
        self.session().is_some()
    }

    /// How many sessions the slot holds.
    pub open spec fn held(self) -> nat {
        match self.session() {
            Some(_) => 1,
            None => 0,
        }
    }

    /// The state a start on `self` leads to, and what it returns, when the
    /// engine answered with `engine`.
    pub open spec fn started<R, E, I, F: FnOnce(C, I) -> P>(
        self,
        next: Self,
        peer_id: I,
        engine: Result<(C, R), E>,
        build_pairing: F,
        outcome: Result<Started<C, P, R>, StartError<E>>,
    ) -> bool where C: Clone {
        match engine {
            Err(error) => {
                &&& outcome == Err::<Started<C, P, R>, StartError<E>>(
                    StartError::EngineConstructionFailed(error),
                )
                &&& next == self
            },
            Ok(up) => {
                &&& outcome matches Ok(started)
                &&& started.events == up.1
                &&& started.released == self.session()
                &&& next.session() matches Some(manager)
                &&& manager.built_over(up.0, peer_id, build_pairing)
            },
        }
    }

    /// The state a shutdown on `self` leads to, and what it returns.
    pub open spec fn shut_down(
        self,
        next: Self,
        outcome: Result<Option<NetManager<C, P>>, SessionError>,
    ) -> bool {
        &&& outcome == Ok::<Option<NetManager<C, P>>, SessionError>(self.session())
        &&& next.session().is_none()
    }

    /// A slot with no session in it.
    pub fn new() -> (state: Self)
        ensures
            !state.active(),
    {
        NetManagerState { session: None }
    }

    /// Whether a session is active.
    pub fn is_active(&self) -> (active: bool)
        ensures
            active == self.active(),
    {
        self.session.is_some()
    }

    /// The pairing sub-manager of the active session, for as long as the
    /// caller holds the slot.
    pub fn pairing(&self) -> (pairing: Result<&P, SessionError>)
        ensures
            match self.session() {
                Some(manager) => pairing == Ok::<&P, SessionError>(&manager.pairing_manager()),
                None => pairing == Err::<&P, SessionError>(SessionError::NoActiveSession),
            },
    {
        match &self.session {
            Some(manager) => Ok(manager.pairing()),
            None => Err(SessionError::NoActiveSession),
        }
    }
}

/// Completes a start once the engine has answered.
///
/// If the engine failed, its error is returned and the slot is left as it
/// was. If it came up, a session is built over the new client handle, with
/// its pairing sub-manager constructed from a clone of the handle and
/// `peer_id`, and installed in the slot in place of whatever was there. The
/// caller gets the new event source, to spawn the event bridge over, and the
/// session that was replaced, to release.
pub fn start<C: Clone, P, R, E, I, F: FnOnce(C, I) -> P>(
    state: &mut NetManagerState<C, P>,
    peer_id: I,
    engine: Result<(C, R), E>,
    build_pairing: F,
) -> (outcome: Result<Started<C, P, R>, StartError<E>>)
    requires
        engine matches Ok(up) ==> forall|handle: C|
            cloned(up.0, handle) ==> call_requires(build_pairing, (handle, peer_id)),
    ensures
        old(state).started(*final(state), peer_id, engine, build_pairing, outcome),
{
    match engine {
        Err(error) => Err(StartError::EngineConstructionFailed(error)),
        Ok((client, events)) => {
            let manager = NetManager::new(client, peer_id, build_pairing);
            let released = state.session.take();
            state.session = Some(manager);
            Ok(Started { events, released })
        },
    }
}

/// Removes the current session from the slot and hands it to the caller to
/// release, which tells its engine to stop. With no session in the slot this
/// succeeds all the same and changes nothing.
pub fn shutdown<C, P>(state: &mut NetManagerState<C, P>) -> (outcome: Result<
    Option<NetManager<C, P>>,
    SessionError,
>)
    ensures
        old(state).shut_down(*final(state), outcome),
        !old(state).active() ==> *final(state) == *old(state),
{
    let released = state.session.take();
    Ok(released)
}

/// When two starts in a row both find the engine up, the slot holds the
/// second session and no other, and the first session, built over the first
/// client handle, is what the second start hands back for release.
pub proof fn lemma_second_start_supersedes<
    C: Clone,
    P,
    R,
    E,
    I,
    F: FnOnce(C, I) -> P,
    G: FnOnce(C, I) -> P,
>(
    before: NetManagerState<C, P>,
    between: NetManagerState<C, P>,
    after: NetManagerState<C, P>,
    first_peer: I,
    first_up: (C, R),
    first_build: F,
    first_outcome: Result<Started<C, P, R>, StartError<E>>,
    second_peer: I,
    second_up: (C, R),
    second_build: G,
    second_outcome: Result<Started<C, P, R>, StartError<E>>,
)
    requires
        before.started(between, first_peer, Ok::<(C, R), E>(first_up), first_build, first_outcome),
        between.started(after, second_peer, Ok::<(C, R), E>(second_up), second_build, second_outcome),
    ensures
        after.session() matches Some(current) && current.built_over(
            second_up.0,
            second_peer,
            second_build,
        ),
        second_outcome matches Ok(started) && started.events == second_up.1 && started.released
            == between.session() && (started.released matches Some(previous)
            && previous.built_over(first_up.0, first_peer, first_build)),
{
}

/// Whatever was done to it, the slot holds at most one session.
pub proof fn lemma_at_most_one_session<C, P>(state: NetManagerState<C, P>)
    ensures
        state.held() <= 1,
        state.held() == 1 <==> state.active(),
{
}

/// A start never loses the session the slot held: if the engine came up,
/// the caller gets it back and the slot holds the new one; if not, it is
/// still in the slot.
pub proof fn lemma_start_accounts_for_previous<C: Clone, P, R, E, I, F: FnOnce(C, I) -> P>(
    before: NetManagerState<C, P>,
    after: NetManagerState<C, P>,
    peer_id: I,
    engine: Result<(C, R), E>,
    build_pairing: F,
    outcome: Result<Started<C, P, R>, StartError<E>>,
)
    requires
        before.started(after, peer_id, engine, build_pairing, outcome),
    ensures
        outcome.is_ok() == engine.is_ok(),
        match outcome {
            Ok(started) => started.released == before.session() && after.held() == 1,
            Err(_) => after == before,
        },
{
}

/// A shutdown never loses the session the slot held: the caller gets it,
/// and the slot is empty.
pub proof fn lemma_shutdown_accounts_for_previous<C, P>(
    before: NetManagerState<C, P>,
    after: NetManagerState<C, P>,
    outcome: Result<Option<NetManager<C, P>>, SessionError>,
)
    requires
        before.shut_down(after, outcome),
    ensures
        outcome == Ok::<Option<NetManager<C, P>>, SessionError>(before.session()),
        after.held() == 0,
{
}

/// With no session in the slot a shutdown succeeds, hands back nothing and
/// leaves the slot as it was; so a shutdown right after a shutdown changes
/// nothing.
pub proof fn lemma_shutdown_is_idempotent<C, P>(
    before: NetManagerState<C, P>,
    between: NetManagerState<C, P>,
    after: NetManagerState<C, P>,
    first_outcome: Result<Option<NetManager<C, P>>, SessionError>,
    second_outcome: Result<Option<NetManager<C, P>>, SessionError>,
)
    requires
        before.shut_down(between, first_outcome),
        between.shut_down(after, second_outcome),
    ensures
        !before.active() ==> between == before && first_outcome == Ok::<
            Option<NetManager<C, P>>,
            SessionError,
        >(None),
        after == between,
        second_outcome == Ok::<Option<NetManager<C, P>>, SessionError>(None),
{
}

/// When the engine cannot be constructed, the caller gets the engine's
/// error, the slot is exactly as before, and a session that was active is
/// still active with its pairing sub-manager.
pub proof fn lemma_failed_start_keeps_session<C: Clone, P, R, E, I, F: FnOnce(C, I) -> P>(
    before: NetManagerState<C, P>,
    after: NetManagerState<C, P>,
    peer_id: I,
    error: E,
    build_pairing: F,
    outcome: Result<Started<C, P, R>, StartError<E>>,
)
    requires
        before.started(after, peer_id, Err::<(C, R), E>(error), build_pairing, outcome),
    ensures
        after == before,
        after.active() == before.active(),
        after.session() == before.session(),
        outcome == Err::<Started<C, P, R>, StartError<E>>(StartError::EngineConstructionFailed(error)),
{
}

} // verus!
