//! The session registry: who sits in which session.

use crate::model::viewed;
use vstd::hash_map::StringHashMap;
use vstd::prelude::*;

verus! {

/// The record of one session: the host that opened it and the guest, if one
/// has been seated.
#[derive(Debug, Clone, PartialEq, Eq)]
pub struct Session {
    pub host: String,
    pub guest: Option<String>,
}

/// A session record as a mathematical value.
pub struct SessionView {
    pub host: Seq<char>,
    pub guest: Option<Seq<char>>,
}

impl View for Session {
    type V = SessionView;

    open spec fn view(&self) -> SessionView {
        SessionView { host: self.host@, guest: viewed(self.guest) }
    }
}

/// What became of a request to be seated in a session.
#[derive(Debug, Clone, PartialEq, Eq)]
pub enum LobbyResult {
    /// The session did not exist; the player opened it and is its host.
    New,
    /// The player took the guest seat; the value is the host's identity.
    Paired(String),
    /// Both seats were taken; nothing changed.
    Full,
}

/// A `LobbyResult` as a mathematical value.
pub enum Admission {
    New,
    Paired(Seq<char>),
    Full,
}

impl View for LobbyResult {
    type V = Admission;

    open spec fn view(&self) -> Admission {
        match self {
            LobbyResult::New => Admission::New,
            LobbyResult::Paired(host) => Admission::Paired(host@),
            LobbyResult::Full => Admission::Full,
        }
    }
}

/// One of the two seats of a session.
#[derive(Debug, Clone, Copy, PartialEq, Eq)]
pub enum Seat {
    Host,
    Guest,
}

/// The seat that `player` has in `session`, if any. A player whose identity
/// is in both seats counts as the host.
pub open spec fn seat_of(session: SessionView, player: Seq<char>) -> Option<Seat> {
    if session.host == player {
        Some(Seat::Host)
    } else if session.guest == Some(player) {
        Some(Seat::Guest)
    } else {
        None
    }
}

impl Session {
    /// The seat that `player_id` has in this session, if any.
    pub fn seat_of(&self, player_id: &String) -> (seat: Option<Seat>)
        ensures
            seat == seat_of(self@, player_id@),
    {
        if self.host == *player_id {
            return Some(Seat::Host);
        }
        match &self.guest {
            Some(guest) => {
                if *guest == *player_id {
                    Some(Seat::Guest)
                } else {
                    None
                }
            },
            None => None,
        }
    }
}

/// The registry as a mathematical value: session identifier to record.
pub type Sessions = Map<Seq<char>, SessionView>;

/// The answer to `player` asking for a seat in session `game`.
pub open spec fn admission(sessions: Sessions, game: Seq<char>, player: Seq<char>) -> Admission {
    if !sessions.contains_key(game) {
        Admission::New
    } else if sessions[game].guest is None {
        Admission::Paired(sessions[game].host)
    } else {
        Admission::Full
    }
}

/// The registry after `player` has asked for a seat in session `game`.
pub open spec fn seated(sessions: Sessions, game: Seq<char>, player: Seq<char>) -> Sessions {
    if !sessions.contains_key(game) {
        sessions.insert(game, SessionView { host: player, guest: None })
    } else if sessions[game].guest is None {
        sessions.insert(game, SessionView { host: sessions[game].host, guest: Some(player) })
    } else {
        sessions
    }
}

/// The registry after `player` has left session `game`. The host leaving
/// ends the session; the guest leaving frees the guest seat; anyone else
/// leaving changes nothing.
pub open spec fn vacated(sessions: Sessions, game: Seq<char>, player: Seq<char>) -> Sessions {
    if !sessions.contains_key(game) {
        sessions
    } else {
        match seat_of(sessions[game], player) {
            Some(Seat::Host) => sessions.remove(game),
            Some(Seat::Guest) => sessions.insert(
                game,
                SessionView { host: sessions[game].host, guest: None },
            ),
            None => sessions,
        }
    }
}

/// The players seated in a session.
pub open spec fn members(session: SessionView) -> Set<Seq<char>> {
    match session.guest {
        Some(guest) => set![session.host, guest],
        None => set![session.host],
    }
}

/// The registry of sessions, keyed by session identifier.
///
/// What changes the registry takes `&mut self`, so each call has the
/// registry to itself from start to end. Connections that share one
/// registry keep it behind a lock and call with the lock held.
pub struct Lobby {
    sessions: StringHashMap<Session>,
}

impl View for Lobby {
    type V = Sessions;

    closed spec fn view(&self) -> Sessions {
        self.sessions@.map_values(|session: Session| session@)
    }
}

impl Lobby {
    /// An empty registry.
    pub fn new() -> (lobby: Lobby)
        ensures
            lobby@ == Sessions::empty(),
    {
        let lobby = Lobby { sessions: StringHashMap::new() };
        assert(lobby@ =~= Sessions::empty());
        lobby
    }

    /// The record of session `game_id`, if the session exists.
    pub fn session(&self, game_id: &str) -> (found: Option<Session>)
        ensures
            viewed(found) == self@.get(game_id@),
    {
        match self.sessions.get(game_id) {
            Some(session) => {
                let guest = match &session.guest {
                    Some(guest) => Some(guest.clone()),
                    None => None,
                };
                Some(Session { host: session.host.clone(), guest })
            },
            None => None,
        }
    }

    /// Whether session `game_id` exists.
    pub fn contains(&self, game_id: &str) -> (found: bool)
        ensures
            found == self@.contains_key(game_id@),
    {
        self.sessions.contains_key(game_id)
    }

    /// The number of sessions.
    pub fn len(&self) -> (count: usize)
        ensures
            count == self@.len(),
    {
        broadcast use vstd::hash_map::axiom_string_hash_map_spec_len;

        assert(self@.dom() =~= self.sessions@.dom());
        self.sessions.len()
    }

    /// Whether there is no session at all.
    pub fn is_empty(&self) -> (empty: bool)
        ensures
            empty == (self@ == Sessions::empty()),
    {
        assert(self.sessions@.is_empty() <==> self@ =~= Sessions::empty()) by {
            assert(self@.dom() =~= self.sessions@.dom());
        }
        self.sessions.is_empty()
    }

    /// Seats `player_id` in session `game_id`: as host of a session that did
    /// not exist, as guest of one whose guest seat is free, or not at all
    /// when both seats are taken.
    pub fn insert(&mut self, game_id: String, player_id: String) -> (result: LobbyResult)
        ensures
            final(self)@ == seated(old(self)@, game_id@, player_id@),
            result@ == admission(old(self)@, game_id@, player_id@),
    {
        let host_of_open = match self.sessions.get(game_id.as_str()) {
            Some(session) => {
                if session.guest.is_some() {
                    return LobbyResult::Full;
                }
                Some(session.host.clone())
            },
            None => None,
        };
        match host_of_open {
            Some(host) => {
                let paired = Session { host: host.clone(), guest: Some(player_id) };
                self.sessions.insert(game_id, paired);
                assert(self@ =~= seated(old(self)@, game_id@, player_id@));
                LobbyResult::Paired(host)
            },
            None => {
                let opened = Session { host: player_id, guest: None };
                self.sessions.insert(game_id, opened);
                assert(self@ =~= seated(old(self)@, game_id@, player_id@));
                LobbyResult::New
            },
        }
    }

    /// Takes `player_id` out of session `game_id`. The host leaving removes
    /// the session; the guest leaving frees the guest seat; a player who is
    /// in neither seat, or a session that does not exist, changes nothing.
    pub fn remove(&mut self, game_id: String, player_id: String)
        ensures
            final(self)@ == vacated(old(self)@, game_id@, player_id@),
    {
        let freed = match self.sessions.get(game_id.as_str()) {
            Some(session) => match session.seat_of(&player_id) {
                Some(Seat::Host) => None,
                Some(Seat::Guest) => Some(Session { host: session.host.clone(), guest: None }),
                None => {
                    return ;
                },
            },
            None => {
                return ;
            },
        };
        match freed {
            Some(session) => {
                self.sessions.insert(game_id, session);
            },
            None => {
                self.sessions.remove(game_id.as_str());
            },
        }
        assert(self@ =~= vacated(old(self)@, game_id@, player_id@));
    }
}

impl Default for Lobby {
    /// An empty registry.
    fn default() -> (lobby: Lobby)
        ensures
            lobby@ == Sessions::empty(),
    {
        Lobby::new()
    }
}

} // verus!
