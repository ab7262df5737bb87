//! The presence session: at most one connection to the desktop client, and
//! the instant at which the current listening session began.
//!
//! The session decides; it performs no transport operation itself. Each
//! operation says what is to be done on the connection, if anything, and the
//! matching `*_done`, `*_sent`, `*_cleared` or `*_closed` function takes what
//! came of it. The caller holds the session behind one lock for the whole of
//! an operation.

use vstd::prelude::*;

use crate::activity::{lemma_start_timestamp_is_stable, listening_activity};
use crate::activity::{session_start_timestamp, tags_text};
use crate::activity::{ActivityPayload, ActivityPayloadView};
use crate::clock::{elapsed_secs, wall_clock_secs};
use crate::error::{ConnectionError, PublishError};
use core::convert::Infallible;
use discord_rich_presence::DiscordIpcClient;
use tokio::time::Instant;

verus! {

/// The application under which the desktop client shows the activity.
pub const APPLICATION_ID: &'static str = "1376904142412316812";

/// `discord_rich_presence::DiscordIpcClient`: the handle of a connection.
#[verifier::external_type_specification]
#[verifier::external_body]
pub struct ExDiscordIpcClient(DiscordIpcClient);

/// What `DiscordIpcClient::new` gives for an application's identifier: a
/// client for that application, not yet connected.
pub uninterp spec fn new_client(application_id: Seq<char>) -> Result<DiscordIpcClient, String>;

/// `DiscordIpcClient::new` makes a client from the identifier alone, without
/// touching the socket: the outcome is [`new_client`] of the identifier. It
/// returns a `Result`, and a client in every case; an error would come back
/// as its text.
#[verifier::external_body]
fn create_client(application_id: &str) -> (created: Result<DiscordIpcClient, String>)
    ensures
        created == new_client(application_id@),
        created is Ok,
{
    DiscordIpcClient::new(application_id).map_err(|e| e.to_string())
}

/// A live connection and the instant at which it was made.
pub struct Session {
    pub client: DiscordIpcClient,
    pub started: Instant,
}

/// What `connect` leaves to be done.
#[derive(Debug)]
pub enum ConnectStep {
    /// A connection exists. Nothing was constructed and nothing is to be done.
    Connected,
    /// A client was constructed. Its handshake is to be performed, and the
    /// outcome handed to `handshake_done`.
    Handshake(DiscordIpcClient),
}

/// The connection of a session, if it has one.
pub open spec fn connection_of(state: Option<Session>) -> Option<DiscordIpcClient> {
    match state {
        Some(session) => Some(session.client),
        None => None,
    }
}

/// The instant at which a session's connection was made, if it has one.
pub open spec fn session_start_of(state: Option<Session>) -> Option<Instant> {
    match state {
        Some(session) => Some(session.started),
        None => None,
    }
}

/// What `connect` returns in `state` where constructing a client gives
/// `created`. With a connection, nothing is asked for, whatever `created` is.
pub open spec fn connect_step(
    state: Option<Session>,
    created: Result<DiscordIpcClient, String>,
) -> Result<ConnectStep, ConnectionError> {
    if state is Some {
        Ok(ConnectStep::Connected)
    } else {
        match created {
            Ok(client) => Ok(ConnectStep::Handshake(client)),
            Err(cause) => Err(ConnectionError::Create(cause)),
        }
    }
}

/// The session after the handshake of `client` came to `handshake` at the
/// instant `now`. An existing connection stays; a failed handshake leaves
/// the session without one.
pub open spec fn handshake_state(
    state: Option<Session>,
    client: DiscordIpcClient,
    handshake: Result<(), String>,
    now: Instant,
) -> Option<Session> {
    if state is None && handshake is Ok {
        Some(Session { client, started: now })
    } else {
        state
    }
}

/// What `connect` comes to once the handshake came to `handshake`.
pub open spec fn handshake_result(state: Option<Session>, handshake: Result<(), String>) -> Result<
    (),
    ConnectionError,
> {
    if state is Some {
        Ok(())
    } else {
        match handshake {
            Ok(_) => Ok(()),
            Err(cause) => Err(ConnectionError::Handshake(cause)),
        }
    }
}

/// What `update_activity` asks to be published in `state`, for a wall clock
/// that reads `wall_clock` and a session that has lasted `elapsed_secs`.
/// Without a connection that is nothing, whatever the clocks read.
pub open spec fn update_step(
    state: Option<Session>,
    station_name: Seq<char>,
    tags: Option<Seq<char>>,
    wall_clock: Result<u64, String>,
    elapsed_secs: u64,
) -> Result<Option<ActivityPayloadView>, PublishError> {
    if state is None {
        Ok(None)
    } else {
        match wall_clock {
            Ok(now_secs) => Ok(
                Some(
                    listening_activity(
                        station_name,
                        tags,
                        session_start_timestamp(now_secs, elapsed_secs),
                    ),
                ),
            ),
            Err(cause) => Err(PublishError::Clock(cause)),
        }
    }
}

/// The session once a connection that it lent out is back as `client`: it
/// began when it began. Without a connection nothing was lent.
pub open spec fn lent_back(state: Option<Session>, client: DiscordIpcClient) -> Option<Session> {
    match state {
        Some(session) => Some(Session { client, started: session.started }),
        None => None,
    }
}

/// What `update_activity` comes to once publishing came to `sent`.
pub open spec fn sent_result(sent: Result<(), String>) -> Result<(), PublishError> {
    match sent {
        Ok(_) => Ok(()),
        Err(cause) => Err(PublishError::SetActivity(cause)),
    }
}

/// What `clear_activity` comes to once the request came to `cleared`.
pub open spec fn cleared_result(cleared: Result<(), String>) -> Result<(), PublishError> {
    match cleared {
        Ok(_) => Ok(()),
        Err(cause) => Err(PublishError::ClearActivity(cause)),
    }
}

/// The presence session. It has a connection exactly while it has the
/// instant at which that connection was made: the two are held as one value.
pub struct DiscordRPCManager {
    session: Option<Session>,
}

impl View for DiscordRPCManager {
    type V = Option<Session>;

    closed spec fn view(&self) -> Option<Session> {
        self.session
    }
}

impl DiscordRPCManager {
    /// A session without a connection.
    pub fn new() -> (manager: DiscordRPCManager)
        ensures
            manager@ is None,
    {
        DiscordRPCManager { session: None }
    }

    /// Whether the session has a connection.
    pub fn is_connected(&self) -> (connected: bool)
        ensures
            connected == (self@ is Some),
    {
        self.session.is_some()
    }

    /// The instant at which the connection was made.
    pub fn session_start(&self) -> (start: Option<Instant>)
        ensures
            start == session_start_of(self@),
    {
        match &self.session {
            Some(session) => Some(session.started),
            None => None,
        }
    }

    /// First half of connecting. With a connection this is
    /// [`ConnectStep::Connected`] and no client is constructed. Without one,
    /// a client is constructed for [`APPLICATION_ID`], and the step is its
    /// handshake.
    pub fn connect(&self) -> (step: Result<ConnectStep, ConnectionError>)
        ensures
            step == connect_step(self@, new_client(APPLICATION_ID@)),
            self@ is Some ==> step == Ok::<ConnectStep, ConnectionError>(ConnectStep::Connected),
            self@ is None ==> step matches Ok(ConnectStep::Handshake(_)),
    {
        if self.session.is_some() {
            Ok(ConnectStep::Connected)
        } else {
            self.client_created(create_client(APPLICATION_ID))
        }
    }

    /// What `connect` returns where constructing a client gave `created`.
    pub fn client_created(&self, created: Result<DiscordIpcClient, String>) -> (step: Result<
        ConnectStep,
        ConnectionError,
    >)
        ensures
            step == connect_step(self@, created),
    {
        if self.session.is_some() {
            Ok(ConnectStep::Connected)
        } else {
            match created {
                Ok(client) => Ok(ConnectStep::Handshake(client)),
                Err(cause) => Err(ConnectionError::Create(cause)),
            }
        }
    }

    /// Second half of connecting: the handshake of `client` came to
    /// `handshake`. On success the session holds `client` from this instant
    /// on. On failure it stays without a connection and the error holds what
    /// the transport said. A session that has a connection keeps it.
    pub fn handshake_done(&mut self, client: DiscordIpcClient, handshake: Result<(), String>) -> (result:
        Result<(), ConnectionError>)
        ensures
            result == handshake_result(old(self)@, handshake),
            old(self)@ is Some || handshake is Err ==> final(self)@ == old(self)@,
            old(self)@ is None && handshake is Ok ==> connection_of(final(self)@) == Some(client),
    {
        let now = Instant::now();
        self.handshake_done_at(client, handshake, now)
    }

    /// As `handshake_done`, with `now` as the instant at which the connection
    /// is made.
    pub fn handshake_done_at(
        &mut self,
        client: DiscordIpcClient,
        handshake: Result<(), String>,
        now: Instant,
    ) -> (result: Result<(), ConnectionError>)
        ensures
            result == handshake_result(old(self)@, handshake),
            final(self)@ == handshake_state(old(self)@, client, handshake, now),
    {
        if self.session.is_some() {
            Ok(())
        } else {
            match handshake {
                Ok(_) => {
                    self.session = Some(Session { client, started: now });
                    Ok(())
                },
                Err(cause) => Err(ConnectionError::Handshake(cause)),
            }
        }
    }

    /// First half of an update. Without a connection there is nothing to
    /// publish. With one, the clocks are read: the step is the connection
    /// and the activity to publish on it, or the error says that the wall
    /// clock is set before the Unix epoch. The session keeps its connection
    /// and its start whatever is done with the connection lent.
    pub fn update_activity(&mut self, station_name: &str, tags: Option<&str>) -> (step: Result<
        Option<(&mut DiscordIpcClient, ActivityPayload)>,
        PublishError,
    >)
        ensures
            old(self)@ is None ==> step matches Ok(None),
            match step {
                Ok(Some((client, payload))) => {
                    &&& connection_of(old(self)@) == Some(*client)
                    &&& final(self)@ == lent_back(old(self)@, *final(client))
                    &&& payload@ == listening_activity(
                        station_name@,
                        tags_text(tags),
                        payload.start_timestamp as int,
                    )
                },
                Ok(None) => old(self)@ is None && final(self)@ is None,
                Err(error) => {
                    &&& old(self)@ is Some
                    &&& final(self)@ == old(self)@
                    &&& error is Clock
                },
            },
    {
        match &self.session {
            None => Ok(None),
            Some(session) => {
                let wall_clock = wall_clock_secs();
                let elapsed: u64 = elapsed_secs(&session.started);
                self.update_activity_at(station_name, tags, wall_clock, elapsed)
            },
        }
    }

    /// As `update_activity`, with the clocks' readings: the wall clock in
    /// seconds since the Unix epoch, or what its error said, and the seconds
    /// that the session has lasted.
    pub fn update_activity_at(
        &mut self,
        station_name: &str,
        tags: Option<&str>,
        wall_clock: Result<u64, String>,
        elapsed_secs: u64,
    ) -> (step: Result<Option<(&mut DiscordIpcClient, ActivityPayload)>, PublishError>)
        ensures
            match step {
                Ok(Some((client, payload))) => {
                    &&& connection_of(old(self)@) == Some(*client)
                    &&& final(self)@ == lent_back(old(self)@, *final(client))
                    &&& update_step(
                        old(self)@,
                        station_name@,
                        tags_text(tags),
                        wall_clock,
                        elapsed_secs,
                    ) == Ok::<Option<ActivityPayloadView>, PublishError>(Some(payload@))
                },
                Ok(None) => {
                    &&& final(self)@ == old(self)@
                    &&& update_step(
                        old(self)@,
                        station_name@,
                        tags_text(tags),
                        wall_clock,
                        elapsed_secs,
                    ) == Ok::<Option<ActivityPayloadView>, PublishError>(None)
                },
                Err(error) => {
                    &&& final(self)@ == old(self)@
                    &&& update_step(
                        old(self)@,
                        station_name@,
                        tags_text(tags),
                        wall_clock,
                        elapsed_secs,
                    ) == Err::<Option<ActivityPayloadView>, PublishError>(error)
                },
            },
    {
        match &mut self.session {
            None => Ok(None),
            Some(session) => {
                match wall_clock {
                    Ok(now_secs) => {
                        let payload = ActivityPayload::at(
                            station_name,
                            tags,
                            now_secs,
                            elapsed_secs,
                        );
                        Ok(Some((&mut session.client, payload)))
                    },
                    Err(cause) => Err(PublishError::Clock(cause)),
                }
            },
        }
    }

    /// Second half of an update: publishing came to `sent`. A failure is
    /// reported with what the transport said. The session is not touched:
    /// it keeps the connection, and the caller may try again.
    pub fn activity_sent(sent: Result<(), String>) -> (result: Result<(), PublishError>)
        ensures
            result == sent_result(sent),
    {
        match sent {
            Ok(_) => Ok(()),
            Err(cause) => Err(PublishError::SetActivity(cause)),
        }
    }

    /// First half of clearing: the connection on which the desktop client is
    /// to be told to remove the activity, or nothing without a connection.
    /// The session keeps its connection and its start whatever is done with
    /// the connection lent.
    pub fn clear_activity(&mut self) -> (step: Option<&mut DiscordIpcClient>)
        ensures
            old(self)@ is None ==> step is None,
            match step {
                Some(client) => {
                    &&& connection_of(old(self)@) == Some(*client)
                    &&& final(self)@ == lent_back(old(self)@, *final(client))
                },
                None => old(self)@ is None && final(self)@ is None,
            },
    {
        match &mut self.session {
            None => None,
            Some(session) => Some(&mut session.client),
        }
    }

    /// Second half of clearing: the request came to `cleared`. A failure is
    /// reported with what the transport said. The session is not touched.
    pub fn activity_cleared(cleared: Result<(), String>) -> (result: Result<(), PublishError>)
        ensures
            result == cleared_result(cleared),
    {
        match cleared {
            Ok(_) => Ok(()),
            Err(cause) => Err(PublishError::ClearActivity(cause)),
        }
    }

    /// First half of disconnecting: the session gives up its connection and
    /// its start. What it returns is the connection to close, if it had one.
    pub fn disconnect(&mut self) -> (connection: Option<DiscordIpcClient>)
        ensures
            connection == connection_of(old(self)@),
            final(self)@ is None,
    {
        match self.session.take() {
            Some(session) => Some(session.client),
            None => None,
        }
    }

    /// Second half of disconnecting: closing came to `closed`. Disconnecting
    /// succeeds whether or not closing did.
    pub fn connection_closed(closed: Result<(), String>) -> (result: Result<(), Infallible>)
        ensures
            result is Ok,
    {
        Ok(())
    }
}

/// Connecting is idempotent. Once a handshake has succeeded the session has
/// a connection; connecting again then asks for nothing, whatever
/// constructing a client would give, and the outcome of any further
/// handshake leaves the session as it is and is a success.
pub proof fn lemma_connect_is_idempotent(
    state: Option<Session>,
    client: DiscordIpcClient,
    now: Instant,
    created: Result<DiscordIpcClient, String>,
    other: DiscordIpcClient,
    handshake: Result<(), String>,
    later: Instant,
)
    ensures
        ({
            let connected = handshake_state(state, client, Ok(()), now);
            &&& connected is Some
            &&& state is None ==> connected == Some(Session { client, started: now })
            &&& connect_step(connected, created) == Ok::<ConnectStep, ConnectionError>(
                ConnectStep::Connected,
            )
            &&& handshake_state(connected, other, handshake, later) == connected
            &&& handshake_result(connected, handshake) == Ok::<(), ConnectionError>(())
        }),
{
}

/// Without a connection there is nothing to do. An update asks for nothing
/// to be published, whatever the station, the tags and the clocks; there is
/// no connection to lend or to close; and with nothing sent, each operation
/// succeeds.
pub proof fn lemma_no_connection_no_work(
    station_name: Seq<char>,
    tags: Option<Seq<char>>,
    wall_clock: Result<u64, String>,
    elapsed_secs: u64,
    returned: DiscordIpcClient,
)
    ensures
        update_step(None, station_name, tags, wall_clock, elapsed_secs) == Ok::<
            Option<ActivityPayloadView>,
            PublishError,
        >(None),
        connection_of(None) is None,
        lent_back(None, returned) is None,
        sent_result(Ok(())) == Ok::<(), PublishError>(()),
        cleared_result(Ok(())) == Ok::<(), PublishError>(()),
{
}

/// Two updates of one session carry the same start timestamp. Lending the
/// connection for the first does not move the session's start; and where
/// the wall clock and the session clock have advanced by the same number of
/// seconds between the two, the later update asks for the activity that the
/// earlier one would ask for now.
pub proof fn lemma_updates_share_start_timestamp(
    state: Option<Session>,
    returned: DiscordIpcClient,
    station_name: Seq<char>,
    tags: Option<Seq<char>>,
    now_secs: u64,
    elapsed_secs: u64,
    later_now_secs: u64,
    later_elapsed_secs: u64,
)
    requires
        later_now_secs - now_secs == later_elapsed_secs - elapsed_secs,
    ensures
        session_start_of(lent_back(state, returned)) == session_start_of(state),
        session_start_timestamp(later_now_secs, later_elapsed_secs) == session_start_timestamp(
            now_secs,
            elapsed_secs,
        ),
        update_step(
            lent_back(state, returned),
            station_name,
            tags,
            Ok(later_now_secs),
            later_elapsed_secs,
        ) == update_step(state, station_name, tags, Ok(now_secs), elapsed_secs),
{
    lemma_start_timestamp_is_stable(now_secs, elapsed_secs, later_now_secs, later_elapsed_secs);
}

/// A session has a connection exactly when it has the instant at which the
/// connection was made.
pub proof fn lemma_connection_iff_session_start(manager: DiscordRPCManager)
    ensures
        connection_of(manager@) is Some <==> session_start_of(manager@) is Some,
{
}

/// A failed publish costs the session nothing. The failure is reported with
/// what the transport said. The session, whatever became of the connection
/// that it lent, still has a connection and began when it began; connecting
/// again asks for nothing; and the next update, with a wall clock that can
/// be read, asks for an activity to be published, which succeeds where
/// publishing does.
pub proof fn lemma_failed_publish_keeps_connection(
    state: Option<Session>,
    returned: DiscordIpcClient,
    cause: String,
    created: Result<DiscordIpcClient, String>,
    station_name: Seq<char>,
    tags: Option<Seq<char>>,
    now_secs: u64,
    elapsed_secs: u64,
)
    requires
        state is Some,
    ensures
        sent_result(Err(cause)) == Err::<(), PublishError>(PublishError::SetActivity(cause)),
        ({
            let after = lent_back(state, returned);
            &&& connection_of(after) == Some(returned)
            &&& session_start_of(after) == session_start_of(state)
            &&& connect_step(after, created) == Ok::<ConnectStep, ConnectionError>(
                ConnectStep::Connected,
            )
            &&& update_step(after, station_name, tags, Ok(now_secs), elapsed_secs) == Ok::<
                Option<ActivityPayloadView>,
                PublishError,
            >(
                Some(
                    listening_activity(
                        station_name,
                        tags,
                        session_start_timestamp(now_secs, elapsed_secs),
                    ),
                ),
            )
        }),
        sent_result(Ok(())) == Ok::<(), PublishError>(()),
{
}

} // verus!
