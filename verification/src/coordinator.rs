//! The decisions taken on each event of a connection: what becomes of the
//! connection and of the registry, and what is to be sent to whom.

use crate::catalog::Anime;
use crate::catalog::MALResponse;
use crate::clock::epoch_seconds;
use crate::clock::timestamp;
use crate::connection::BindingView;
use crate::connection::Connection;
use crate::lobby::admission;
use crate::lobby::seated;
use crate::lobby::vacated;
use crate::lobby::Admission;
use crate::lobby::Lobby;
use crate::lobby::LobbyResult;
use crate::lobby::Sessions;
use crate::model::viewed;
use crate::signal::Broadcast;
use crate::signal::BroadcastView;
use crate::signal::Signal;
use crate::signal::SignalView;
use std::time::SystemTime;
use vstd::prelude::*;

verus! {

/// The payload of a request to join a session.
#[derive(Debug, Clone, PartialEq, Eq)]
pub struct EventData {
    pub game_id: String,
    pub player_id: String,
}

/// An `EventData` as a mathematical value.
pub struct EventDataView {
    pub game_id: Seq<char>,
    pub player_id: Seq<char>,
}

impl View for EventData {
    type V = EventDataView;

    open spec fn view(&self) -> EventDataView {
        EventDataView { game_id: self.game_id@, player_id: self.player_id@ }
    }
}

/// What follows a request to join that was not ignored.
#[derive(Debug, Clone, PartialEq, Eq)]
pub struct JoinReply {
    /// The acknowledgement for the connection that asked.
    pub ack: LobbyResult,
    /// The room that the connection enters, if it was seated.
    pub room: Option<String>,
    /// The announcement for the members that were in the room before.
    pub announce: Option<Broadcast>,
}

/// A `JoinReply` as a mathematical value.
pub struct JoinReplyView {
    pub ack: Admission,
    pub room: Option<Seq<char>>,
    pub announce: Option<BroadcastView>,
}

impl View for JoinReply {
    type V = JoinReplyView;

    open spec fn view(&self) -> JoinReplyView {
        JoinReplyView {
            ack: self.ack@,
            room: viewed(self.room),
            announce: viewed(self.announce),
        }
    }
}

/// The text that acknowledges each answer of the registry.
pub open spec fn ack_text(ack: Admission) -> Seq<char> {
    match ack {
        Admission::New => "ok_new"@,
        Admission::Paired(_) => "ok_paired"@,
        Admission::Full => "room is full"@,
    }
}

/// The text that acknowledges `ack`. With `Paired` the host's identity
/// travels beside it.
pub fn ack_label(ack: &LobbyResult) -> (label: &'static str)
    ensures
        label@ == ack_text(ack@),
{
    match ack {
        LobbyResult::New => "ok_new",
        LobbyResult::Paired(_) => "ok_paired",
        LobbyResult::Full => "room is full",
    }
}

/// The reply to a request to join: none on a bound connection, which
/// ignores the request; else the registry's answer, with the room to enter
/// and the announcement of a seated guest.
pub open spec fn join_reply(
    conn: Option<BindingView>,
    sessions: Sessions,
    data: EventDataView,
) -> Option<JoinReplyView> {
    if conn is Some {
        None
    } else {
        Some(
            match admission(sessions, data.game_id, data.player_id) {
                Admission::New => JoinReplyView {
                    ack: Admission::New,
                    room: Some(data.game_id),
                    announce: None,
                },
                Admission::Paired(host) => JoinReplyView {
                    ack: Admission::Paired(host),
                    room: Some(data.game_id),
                    announce: Some(
                        BroadcastView {
                            room: data.game_id,
                            signal: SignalView::PlayerJoined(data.player_id),
                        },
                    ),
                },
                Admission::Full => JoinReplyView {
                    ack: Admission::Full,
                    room: None,
                    announce: None,
                },
            },
        )
    }
}

/// The connection after a request to join: a bound one stays as it is, an
/// unbound one is bound unless the session was full.
pub open spec fn join_binding(
    conn: Option<BindingView>,
    sessions: Sessions,
    data: EventDataView,
) -> Option<BindingView> {
    if conn is Some {
        conn
    } else if admission(sessions, data.game_id, data.player_id) is Full {
        None
    } else {
        Some(BindingView { game_id: data.game_id, player_id: data.player_id })
    }
}

/// The registry after a request to join: untouched by a bound connection.
pub open spec fn join_sessions(
    conn: Option<BindingView>,
    sessions: Sessions,
    data: EventDataView,
) -> Sessions {
    if conn is Some {
        sessions
    } else {
        seated(sessions, data.game_id, data.player_id)
    }
}

/// The state of a connection that was just accepted.
pub fn on_connect() -> (conn: Connection)
    ensures
        conn@ is None,
{
    Connection::new()
}

/// A connection asks to join a session. A bound connection is ignored:
/// `None`, and nothing changes. An unbound one is seated by the registry;
/// unless the session was full it is bound from now on, enters the room,
/// and, where it took the guest seat, is announced to the room.
pub fn join_game(conn: &mut Connection, lobby: &mut Lobby, data: EventData) -> (reply: Option<
    JoinReply,
>)
    ensures
        final(conn)@ == join_binding(old(conn)@, old(lobby)@, data@),
        final(lobby)@ == join_sessions(old(conn)@, old(lobby)@, data@),
        viewed(reply) == join_reply(old(conn)@, old(lobby)@, data@),
{
    if conn.is_bound() {
        return None;
    }
    let EventData { game_id, player_id } = data;
    match lobby.insert(game_id.clone(), player_id.clone()) {
        LobbyResult::New => {
            conn.bind(game_id.clone(), player_id);
            Some(JoinReply { ack: LobbyResult::New, room: Some(game_id), announce: None })
        },
        LobbyResult::Paired(host) => {
            conn.bind(game_id.clone(), player_id.clone());
            let announce = Broadcast {
                room: game_id.clone(),
                signal: Signal::PlayerJoined(player_id),
            };
            Some(
                JoinReply {
                    ack: LobbyResult::Paired(host),
                    room: Some(game_id),
                    announce: Some(announce),
                },
            )
        },
        LobbyResult::Full => Some(JoinReply { ack: LobbyResult::Full, room: None, announce: None }),
    }
}

/// The broadcast of `signal` to the room of a bound connection; none for an
/// unbound one.
pub open spec fn to_room(conn: Option<BindingView>, signal: SignalView) -> Option<BroadcastView> {
    match conn {
        Some(binding) => Some(BroadcastView { room: binding.game_id, signal }),
        None => None,
    }
}

/// Addresses `signal` to the room of `conn`, if it is bound.
pub fn room_broadcast(conn: &Connection, signal: Signal) -> (out: Option<Broadcast>)
    ensures
        viewed(out) == to_room(conn@, signal@),
{
    match conn.game_id() {
        Some(game_id) => Some(Broadcast { room: game_id.clone(), signal }),
        None => None,
    }
}

/// The start of a round with the item `chosen` at the time `now`: a
/// broadcast to the room of a bound connection when an item was chosen.
pub fn start_round(conn: &Connection, chosen: Option<Anime>, now: u64) -> (out: Option<Broadcast>)
    ensures
        viewed(out) == match chosen {
            Some(anime) => to_room(conn@, SignalView::StartGame(anime.mal_id, now)),
            None => None,
        },
{
    match chosen {
        Some(anime) => room_broadcast(conn, Signal::StartGame(anime.mal_id, now)),
        None => None,
    }
}

/// A connection asks for a round to start, and `response` is what the
/// content provider gave: `None` when it failed. No round starts on an
/// unbound connection, without a response, or without a candidate in it.
/// Else one of the candidates, picked at random, goes to the room with the
/// timestamp of a reading of the server's clock.
pub fn start_game(conn: &Connection, response: Option<MALResponse>) -> (out: Option<Broadcast>)
    ensures
        conn@ is None || response is None || response->0.data@.len() == 0 ==> out is None,
        conn@ is Some && response is Some && response->0.data@.len() > 0 ==> exists|
            i: int,
            reading: SystemTime,
        |
            0 <= i < response->0.data@.len() && viewed(out) == #[trigger] to_room(
                conn@,
                SignalView::StartGame(response->0.data@[i].mal_id, epoch_seconds(reading)),
            ),
{
    if !conn.is_bound() {
        return None;
    }
    match response {
        Some(candidates) => {
            let chosen = candidates.pick();
            match chosen {
                Some(anime) => {
                    let now = timestamp();
                    let out = start_round(conn, chosen, now);
                    proof {
                        let i = candidates.data@.index_of(anime);
                        let reading = choose|reading: SystemTime| now == epoch_seconds(reading);
                        assert(viewed(out) == to_room(
                            conn@,
                            SignalView::StartGame(
                                candidates.data@[i].mal_id,
                                epoch_seconds(reading),
                            ),
                        ));
                    }
                    out
                },
                None => None,
            }
        },
        None => None,
    }
}

/// A connection passes its turn: a bound one has the room told so, with the
/// timestamp of a reading of the server's clock.
pub fn on_pass(conn: &Connection) -> (out: Option<Broadcast>)
    ensures
        exists|reading: SystemTime|
            viewed(out) == #[trigger] to_room(conn@, SignalView::Pass(epoch_seconds(reading))),
{
    if conn.is_bound() {
        let now = timestamp();
        let out = room_broadcast(conn, Signal::Pass(now));
        proof {
            let reading = choose|reading: SystemTime| now == epoch_seconds(reading);
            assert(viewed(out) == to_room(conn@, SignalView::Pass(epoch_seconds(reading))));
        }
        out
    } else {
        proof {
            let reading: SystemTime = arbitrary();
            assert(viewed(None::<Broadcast>) == to_room(
                conn@,
                SignalView::Pass(epoch_seconds(reading)),
            ));
        }
        None
    }
}

/// A connection asks for more time: a bound one has the room told so.
pub fn on_extend(conn: &Connection) -> (out: Option<Broadcast>)
    ensures
        viewed(out) == to_room(conn@, SignalView::Extend),
{
    room_broadcast(conn, Signal::Extend)
}

/// A connection sends the next item: a bound one has it relayed to the
/// room, with the timestamp of a reading of the server's clock.
pub fn on_send_anime(conn: &Connection, item: i64) -> (out: Option<Broadcast>)
    ensures
        exists|reading: SystemTime|
            viewed(out) == #[trigger] to_room(
                conn@,
                SignalView::NextAnime(item, epoch_seconds(reading)),
            ),
{
    if conn.is_bound() {
        let now = timestamp();
        let out = room_broadcast(conn, Signal::NextAnime(item, now));
        proof {
            let reading = choose|reading: SystemTime| now == epoch_seconds(reading);
            assert(viewed(out) == to_room(
                conn@,
                SignalView::NextAnime(item, epoch_seconds(reading)),
            ));
        }
        out
    } else {
        proof {
            let reading: SystemTime = arbitrary();
            assert(viewed(None::<Broadcast>) == to_room(
                conn@,
                SignalView::NextAnime(item, epoch_seconds(reading)),
            ));
        }
        None
    }
}

/// The registry after the connection `conn` has gone: its player has left
/// its session, if it was bound.
pub open spec fn disconnected(conn: Option<BindingView>, sessions: Sessions) -> Sessions {
    match conn {
        Some(binding) => vacated(sessions, binding.game_id, binding.player_id),
        None => sessions,
    }
}

/// A connection has gone: the player of a bound one leaves its session.
/// Nothing is sent to anyone.
pub fn on_disconnect(conn: &Connection, lobby: &mut Lobby)
    ensures
        final(lobby)@ == disconnected(conn@, old(lobby)@),
{
    match conn.binding() {
        Some(binding) => lobby.remove(binding.game_id.clone(), binding.player_id.clone()),
        None => {},
    }
}

} // verus!
