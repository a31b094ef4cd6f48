//! What holds of the registry and of joining, whatever the calls.

use crate::connection::BindingView;
use crate::coordinator::join_binding;
use crate::coordinator::join_reply;
use crate::coordinator::join_sessions;
use crate::coordinator::EventDataView;
use crate::lobby::admission;
use crate::lobby::members;
use crate::lobby::seat_of;
use crate::lobby::seated;
use crate::lobby::vacated;
use crate::lobby::Admission;
use crate::lobby::SessionView;
use crate::lobby::Sessions;
use vstd::prelude::*;

verus! {

/// The first player to ask for a session that does not exist opens it, the
/// second is paired with the first, and a third is turned away without a
/// change to the registry.
pub proof fn fresh_session_takes_two(
    sessions: Sessions,
    game: Seq<char>,
    first: Seq<char>,
    second: Seq<char>,
    third: Seq<char>,
)
    requires
        !sessions.contains_key(game),
    ensures
        admission(sessions, game, first) == Admission::New,
        ({
            let opened = seated(sessions, game, first);
            let paired = seated(opened, game, second);
            &&& opened == sessions.insert(game, SessionView { host: first, guest: None })
            &&& admission(opened, game, second) == Admission::Paired(first)
            &&& paired == sessions.insert(game, SessionView { host: first, guest: Some(second) })
            &&& admission(paired, game, third) == Admission::Full
            &&& seated(paired, game, third) == paired
        }),
{
    let opened = seated(sessions, game, first);
    let paired = seated(opened, game, second);
    assert(paired =~= sessions.insert(game, SessionView { host: first, guest: Some(second) }));
}

/// Of two requests for one session, whatever the registry held before, the
/// later one never opens it: no session is opened twice.
pub proof fn no_session_is_opened_twice(
    sessions: Sessions,
    game: Seq<char>,
    first: Seq<char>,
    second: Seq<char>,
)
    ensures
        !(admission(seated(sessions, game, first), game, second) is New),
{
}

/// A session seats its host and at most one guest: never fewer than one
/// player, never more than two. Its members are the players with a seat.
pub proof fn session_seats_at_most_two(session: SessionView)
    ensures
        members(session).finite(),
        1 <= members(session).len() <= 2,
        forall|player: Seq<char>|
            members(session).contains(player) <==> #[trigger] seat_of(session, player) is Some,
{
    match session.guest {
        Some(guest) => {
            assert(members(session) =~= Set::empty().insert(session.host).insert(guest));
        },
        None => {
            assert(members(session) =~= Set::empty().insert(session.host));
        },
    }
}

/// Seating a player changes no session but the one asked for, and adds no
/// one but that player to it.
pub proof fn seating_adds_only_the_player(
    sessions: Sessions,
    game: Seq<char>,
    player: Seq<char>,
    other: Seq<char>,
)
    ensures
        seated(sessions, game, player).contains_key(game),
        members(seated(sessions, game, player)[game]).subset_of(
            if sessions.contains_key(game) {
                members(sessions[game]).insert(player)
            } else {
                set![player]
            },
        ),
        other != game ==> seated(sessions, game, player).contains_key(other)
            == sessions.contains_key(other),
        other != game && sessions.contains_key(other) ==> seated(sessions, game, player)[other]
            == sessions[other],
{
}

/// A player leaving changes no session but the one named, and seats no one
/// there who was not seated before.
pub proof fn leaving_adds_no_one(
    sessions: Sessions,
    game: Seq<char>,
    player: Seq<char>,
    other: Seq<char>,
)
    ensures
        vacated(sessions, game, player).contains_key(game) ==> sessions.contains_key(game)
            && members(vacated(sessions, game, player)[game]).subset_of(members(sessions[game])),
        other != game ==> vacated(sessions, game, player).contains_key(other)
            == sessions.contains_key(other),
        other != game && sessions.contains_key(other) ==> vacated(sessions, game, player)[other]
            == sessions[other],
{
}

/// Where no guest bears the host's identity, none does after a player other
/// than the host of the session asked for has been seated, nor after anyone
/// has left.
pub proof fn seats_stay_distinct(sessions: Sessions, game: Seq<char>, player: Seq<char>)
    requires
        forall|g: Seq<char>| #[trigger]
            sessions.contains_key(g) ==> sessions[g].guest != Some(sessions[g].host),
    ensures
        !(sessions.contains_key(game) && sessions[game].host == player) ==> forall|g: Seq<char>|
         #[trigger]
            seated(sessions, game, player).contains_key(g) ==> seated(
                sessions,
                game,
                player,
            )[g].guest != Some(seated(sessions, game, player)[g].host),
        forall|g: Seq<char>| #[trigger]
            vacated(sessions, game, player).contains_key(g) ==> vacated(
                sessions,
                game,
                player,
            )[g].guest != Some(vacated(sessions, game, player)[g].host),
{
}

/// When the host leaves, the session is gone: whoever asks for it next
/// opens it anew.
pub proof fn host_leaving_ends_the_session(sessions: Sessions, game: Seq<char>, next: Seq<char>)
    requires
        sessions.contains_key(game),
    ensures
        ({
            let after = vacated(sessions, game, sessions[game].host);
            &&& after == sessions.remove(game)
            &&& !after.contains_key(game)
            &&& admission(after, game, next) == Admission::New
        }),
{
}

/// When a guest who does not bear the host's identity leaves, the session
/// stays with its host and a free guest seat: whoever asks for it next is
/// paired with the host.
pub proof fn guest_leaving_frees_the_seat(
    sessions: Sessions,
    game: Seq<char>,
    guest: Seq<char>,
    next: Seq<char>,
)
    requires
        sessions.contains_key(game),
        sessions[game].guest == Some(guest),
        sessions[game].host != guest,
    ensures
        ({
            let after = vacated(sessions, game, guest);
            &&& after == sessions.insert(
                game,
                SessionView { host: sessions[game].host, guest: None },
            )
            &&& admission(after, game, next) == Admission::Paired(sessions[game].host)
        }),
{
}

/// A player who has no seat in a session, or who names a session that does
/// not exist, leaves the registry as it was.
pub proof fn stranger_leaving_changes_nothing(
    sessions: Sessions,
    game: Seq<char>,
    stranger: Seq<char>,
)
    requires
        sessions.contains_key(game) ==> !members(sessions[game]).contains(stranger),
    ensures
        vacated(sessions, game, stranger) == sessions,
{
}

/// A bound connection stays bound to the same session and player: a request
/// to join on it changes nothing and is not answered.
pub proof fn bound_connection_ignores_join(
    binding: BindingView,
    sessions: Sessions,
    data: EventDataView,
)
    ensures
        join_binding(Some(binding), sessions, data) == Some(binding),
        join_sessions(Some(binding), sessions, data) == sessions,
        join_reply(Some(binding), sessions, data) is None,
{
}

/// Two requests to join on one connection do what the first alone does,
/// whatever the second asks for, when the first leaves the connection
/// bound: that is when the connection was bound before, or the first
/// request was not turned away by a full session.
pub proof fn join_is_idempotent(
    conn: Option<BindingView>,
    sessions: Sessions,
    first: EventDataView,
    second: EventDataView,
)
    requires
        conn is Some || !(admission(sessions, first.game_id, first.player_id) is Full),
    ensures
        ({
            let bound = join_binding(conn, sessions, first);
            let after = join_sessions(conn, sessions, first);
            &&& bound is Some
            &&& join_binding(bound, after, second) == bound
            &&& join_sessions(bound, after, second) == after
            &&& join_reply(bound, after, second) is None
        }),
{
}

/// A request to join that a full session turns away leaves the connection
/// unbound and the registry as it was, and is answered with `Full` alone.
pub proof fn full_session_binds_no_one(sessions: Sessions, data: EventDataView)
    requires
        admission(sessions, data.game_id, data.player_id) is Full,
    ensures
        join_binding(None, sessions, data) is None,
        join_sessions(None, sessions, data) == sessions,
        join_reply(None, sessions, data) matches Some(reply) && reply.ack is Full
            && reply.room is None && reply.announce is None,
{
}

} // verus!
