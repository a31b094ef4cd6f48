//! What the server remembers of one connection.

use crate::model::viewed;
use vstd::prelude::*;

verus! {

/// The session and the player that a connection speaks for.
#[derive(Debug, Clone, PartialEq, Eq)]
pub struct Binding {
    pub game_id: String,
    pub player_id: String,
}

/// A `Binding` as a mathematical value.
pub struct BindingView {
    pub game_id: Seq<char>,
    pub player_id: Seq<char>,
}

impl View for Binding {
    type V = BindingView;

    open spec fn view(&self) -> BindingView {
        BindingView { game_id: self.game_id@, player_id: self.player_id@ }
    }
}

/// One connection: unbound from the moment it is accepted until a join
/// succeeds, bound to one session and one player from then on.
#[derive(Debug, Clone, PartialEq, Eq)]
pub struct Connection {
    binding: Option<Binding>,
}

impl View for Connection {
    type V = Option<BindingView>;

    closed spec fn view(&self) -> Option<BindingView> {
        viewed(self.binding)
    }
}

impl Connection {
    /// The state of a connection that was just accepted: unbound.
    pub fn new() -> (conn: Connection)
        ensures
            conn@ is None,
    {
        Connection { binding: None }
    }

    /// Whether a join has succeeded on this connection.
    pub fn is_bound(&self) -> (bound: bool)
        ensures
            bound == (self@ is Some),
    {
        self.binding.is_some()
    }

    /// What the connection is bound to, if anything.
    pub fn binding(&self) -> (binding: Option<&Binding>)
        ensures
            viewed(binding) == self@,
    {
        self.binding.as_ref()
    }

    /// The session that the connection is bound to, if any.
    pub fn game_id(&self) -> (game_id: Option<&String>)
        ensures
            viewed(game_id) == match self@ {
                Some(binding) => Some(binding.game_id),
                None => None,
            },
    {
        match &self.binding {
            Some(binding) => Some(&binding.game_id),
            None => None,
        }
    }

    /// The player that the connection is bound to, if any.
    pub fn player_id(&self) -> (player_id: Option<&String>)
        ensures
            viewed(player_id) == match self@ {
                Some(binding) => Some(binding.player_id),
                None => None,
            },
    {
        match &self.binding {
            Some(binding) => Some(&binding.player_id),
            None => None,
        }
    }

    /// Binds an unbound connection, for good.
    pub(crate) fn bind(&mut self, game_id: String, player_id: String)
        requires
            old(self)@ is None,
        ensures
            final(self)@ == Some(BindingView { game_id: game_id@, player_id: player_id@ }),
    {
        self.binding = Some(Binding { game_id, player_id });
    }
}

} // verus!
