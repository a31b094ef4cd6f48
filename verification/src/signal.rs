//! What the server sends to the members of a session's room.

use vstd::prelude::*;

verus! {

/// A message for the members of a room.
#[derive(Debug, Clone, PartialEq, Eq)]
pub enum Signal {
    /// A guest was seated; the value is the guest's identity.
    PlayerJoined(String),
    /// A round starts: the chosen item and the server's time.
    StartGame(u32, u64),
    /// The turn is passed, at the server's time.
    Pass(u64),
    /// The round is extended.
    Extend,
    /// The next item, as a member sent it, and the server's time.
    NextAnime(i64, u64),
}

/// A `Signal` as a mathematical value.
pub enum SignalView {
    PlayerJoined(Seq<char>),
    StartGame(u32, u64),
    Pass(u64),
    Extend,
    NextAnime(i64, u64),
}

impl View for Signal {
    type V = SignalView;

    open spec fn view(&self) -> SignalView {
        match self {
            Signal::PlayerJoined(player) => SignalView::PlayerJoined(player@),
            Signal::StartGame(item, time) => SignalView::StartGame(*item, *time),
            Signal::Pass(time) => SignalView::Pass(*time),
            Signal::Extend => SignalView::Extend,
            Signal::NextAnime(item, time) => SignalView::NextAnime(*item, *time),
        }
    }
}

/// The event name under which a signal travels.
pub open spec fn event_name(signal: SignalView) -> Seq<char> {
    match signal {
        SignalView::PlayerJoined(_) => "player joined"@,
        SignalView::StartGame(_, _) => "start game"@,
        SignalView::Pass(_) => "pass"@,
        SignalView::Extend => "extend"@,
        SignalView::NextAnime(_, _) => "next anime"@,
    }
}

impl Signal {
    /// The event name under which this signal travels.
    pub fn event(&self) -> (name: &'static str)
        ensures
            name@ == event_name(self@),
    {
        match self {
            Signal::PlayerJoined(_) => "player joined",
            Signal::StartGame(_, _) => "start game",
            Signal::Pass(_) => "pass",
            Signal::Extend => "extend",
            Signal::NextAnime(_, _) => "next anime",
        }
    }
}

/// A signal together with the room it is meant for.
#[derive(Debug, Clone, PartialEq, Eq)]
pub struct Broadcast {
    pub room: String,
    pub signal: Signal,
}

/// A `Broadcast` as a mathematical value.
pub struct BroadcastView {
    pub room: Seq<char>,
    pub signal: SignalView,
}

impl View for Broadcast {
    type V = BroadcastView;

    open spec fn view(&self) -> BroadcastView {
        BroadcastView { room: self.room@, signal: self.signal@ }
    }
}

} // verus!
