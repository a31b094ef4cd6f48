use game_lobby::connection::Connection;
use game_lobby::coordinator::{
    ack_label, join_game, on_connect, on_disconnect, on_extend, EventData,
};
use game_lobby::lobby::{Lobby, LobbyResult, Session};
use game_lobby::signal::{Broadcast, Signal};

/// A transport in memory: connections, the rooms they entered, and what
/// each of them received.
struct Hub {
    lobby: Lobby,
    connections: Vec<Connection>,
    rooms: Vec<(String, Vec<usize>)>,
    received: Vec<Vec<(String, Signal)>>,
}

impl Hub {
    fn new() -> Hub {
        Hub { lobby: Lobby::new(), connections: vec![], rooms: vec![], received: vec![] }
    }

    fn connect(&mut self) -> usize {
        self.connections.push(on_connect());
        self.received.push(vec![]);
        self.connections.len() - 1
    }

    fn enter(&mut self, who: usize, room: &str) {
        match self.rooms.iter_mut().find(|(name, _)| name == room) {
            Some((_, inside)) => inside.push(who),
            None => self.rooms.push((room.to_string(), vec![who])),
        }
    }

    fn deliver(&mut self, broadcast: Broadcast, skip: Option<usize>) {
        let event = broadcast.signal.event().to_string();
        for (name, inside) in self.rooms.iter() {
            if *name == broadcast.room {
                for who in inside.iter() {
                    if Some(*who) != skip {
                        self.received[*who].push((event.clone(), broadcast.signal.clone()));
                    }
                }
            }
        }
    }

    fn join(&mut self, who: usize, game: &str, player: &str) -> Option<LobbyResult> {
        let data = EventData { game_id: game.to_string(), player_id: player.to_string() };
        let reply = join_game(&mut self.connections[who], &mut self.lobby, data)?;
        if let Some(room) = reply.room {
            self.enter(who, &room);
        }
        if let Some(announce) = reply.announce {
            self.deliver(announce, Some(who));
        }
        Some(reply.ack)
    }

    fn extend(&mut self, who: usize) {
        if let Some(broadcast) = on_extend(&self.connections[who]) {
            self.deliver(broadcast, None);
        }
    }

    fn disconnect(&mut self, who: usize) {
        on_disconnect(&self.connections[who], &mut self.lobby);
        for (_, inside) in self.rooms.iter_mut() {
            inside.retain(|member| *member != who);
        }
    }
}

fn joined(player: &str) -> (String, Signal) {
    ("player joined".to_string(), Signal::PlayerJoined(player.to_string()))
}

#[test]
fn two_players_pair_up() {
    let mut hub = Hub::new();
    let a = hub.connect();
    let b = hub.connect();

    let ack = hub.join(a, "abc", "p1");
    assert_eq!(ack, Some(LobbyResult::New));
    assert_eq!(ack_label(&LobbyResult::New), "ok_new");
    assert_eq!(hub.received[a], vec![]);

    let ack = hub.join(b, "abc", "p2");
    assert_eq!(ack, Some(LobbyResult::Paired("p1".to_string())));
    assert_eq!(ack_label(&LobbyResult::Paired("p1".to_string())), "ok_paired");
    assert_eq!(hub.received[a], vec![joined("p2")]);
    assert_eq!(hub.received[b], vec![]);
}

#[test]
fn third_player_finds_the_room_full() {
    let mut hub = Hub::new();
    let a = hub.connect();
    let b = hub.connect();
    let c = hub.connect();
    hub.join(a, "abc", "p1");
    hub.join(b, "abc", "p2");

    let ack = hub.join(c, "abc", "p3");
    assert_eq!(ack, Some(LobbyResult::Full));
    assert_eq!(ack_label(&LobbyResult::Full), "room is full");
    assert_eq!(
        hub.lobby.session("abc"),
        Some(Session { host: "p1".to_string(), guest: Some("p2".to_string()) })
    );
    assert_eq!(hub.received[a], vec![joined("p2")]);
    assert_eq!(hub.received[b], vec![]);
    assert_eq!(hub.received[c], vec![]);

    hub.extend(c);
    assert_eq!(hub.received[a], vec![joined("p2")]);
    assert_eq!(hub.received[c], vec![]);
}

#[test]
fn host_disconnects() {
    let mut hub = Hub::new();
    let a = hub.connect();
    let b = hub.connect();
    let d = hub.connect();
    hub.join(a, "abc", "p1");
    hub.join(b, "abc", "p2");

    hub.disconnect(a);
    assert_eq!(hub.lobby.session("abc"), None);
    assert!(hub.lobby.is_empty());
    assert_eq!(hub.received[b], vec![]);

    assert_eq!(hub.join(d, "abc", "p4"), Some(LobbyResult::New));
    assert_eq!(hub.lobby.session("abc"), Some(Session { host: "p4".to_string(), guest: None }));
    assert_eq!(hub.received[b], vec![]);
}

#[test]
fn guest_disconnects() {
    let mut hub = Hub::new();
    let a = hub.connect();
    let b = hub.connect();
    let d = hub.connect();
    hub.join(a, "abc", "p1");
    hub.join(b, "abc", "p2");

    hub.disconnect(b);
    assert_eq!(hub.lobby.session("abc"), Some(Session { host: "p1".to_string(), guest: None }));
    assert_eq!(hub.received[a], vec![joined("p2")]);

    assert_eq!(hub.join(d, "abc", "p4"), Some(LobbyResult::Paired("p1".to_string())));
    assert_eq!(
        hub.lobby.session("abc"),
        Some(Session { host: "p1".to_string(), guest: Some("p4".to_string()) })
    );
    assert_eq!(hub.received[a], vec![joined("p2"), joined("p4")]);
}

#[test]
fn signals_reach_the_whole_room_and_no_other() {
    let mut hub = Hub::new();
    let a = hub.connect();
    let b = hub.connect();
    let x = hub.connect();
    hub.join(a, "abc", "p1");
    hub.join(b, "abc", "p2");
    hub.join(x, "xyz", "q1");

    hub.extend(b);
    let extend = ("extend".to_string(), Signal::Extend);
    assert_eq!(hub.received[a], vec![joined("p2"), extend.clone()]);
    assert_eq!(hub.received[b], vec![extend]);
    assert_eq!(hub.received[x], vec![]);
}
