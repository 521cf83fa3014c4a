//! What holds of rooms, registries and sessions whatever is done to them.
//!
//! Each law is a proof about the mathematical views, and so about every
//! value that runs: the methods of [`crate::room::Room`],
//! [`crate::registry::RoomRegistry`] and [`crate::session::ConnectionSession`]
//! are proved to follow those views.

use crate::clock::{ClockError, Instant};
use crate::encoder::{can_write, frame_text, message_for, MessageView};
use crate::reaper::{grace_verdict, GRACE_PERIOD_NANOS};
use crate::registry::RegistryView;
use crate::room::{
    other_than, sessions_of, without_session, ChatMessageView, CommandView, PlayingState,
    RoomView, VideoStateView, ViewerView,
};
use crate::session::{ActionView, EventView, Phase, SessionView};
use crate::LoginView;
use vstd::prelude::*;

verus! {

/// A command as it reached a room: who gave it, and when.
pub struct Issued {
    pub caller: Seq<char>,
    pub cmd: CommandView,
    pub at: Instant,
}

/// The room after the commands of `issued`, in order.
pub open spec fn after_all(room: RoomView, issued: Seq<Issued>) -> RoomView
    decreases issued.len(),
{
    if issued.len() == 0 {
        room
    } else {
        let last = issued.last();
        after_all(room, issued.drop_last()).after_command(last.caller, last.cmd, last.at)
    }
}

/// Whether `cmd` sets what the room shows.
pub open spec fn is_playback(cmd: CommandView) -> bool {
    cmd is Stop || cmd is Pause || cmd is Play
}

/// What the room shows once the playback command `cmd` is carried out.
pub open spec fn shown_after(cmd: CommandView) -> VideoStateView {
    match cmd {
        CommandView::Pause(movie, position) => VideoStateView::Video(
            movie,
            PlayingState::Paused(position),
        ),
        CommandView::Play(movie, start) => VideoStateView::Video(
            movie,
            PlayingState::Playing(start),
        ),
        _ => VideoStateView::NoVideo,
    }
}

/// The last playback command of `issued` that came from one of `admins`.
pub open spec fn last_accepted_playback(admins: Seq<Seq<char>>, issued: Seq<Issued>) -> Option<
    CommandView,
>
    decreases issued.len(),
{
    if issued.len() == 0 {
        None
    } else {
        let last = issued.last();
        if is_playback(last.cmd) && admins.contains(last.caller) {
            Some(last.cmd)
        } else {
            last_accepted_playback(admins, issued.drop_last())
        }
    }
}

/// The last word counts: after any run of playback commands and chat lines,
/// from admins and others, the room shows what the last playback command of
/// an admin asked for, or what it showed before if there was none. Chat lines
/// make no difference to it, and nobody gains or loses the right to control
/// the room.
pub proof fn law_last_write_wins(room: RoomView, issued: Seq<Issued>)
    requires
        forall|i: int|
            0 <= i < issued.len() ==> is_playback(#[trigger] issued[i].cmd) || issued[i].cmd is Chat,
    ensures
        after_all(room, issued).admins == room.admins,
        after_all(room, issued).video_state == match last_accepted_playback(room.admins, issued) {
            Some(cmd) => shown_after(cmd),
            None => room.video_state,
        },
    decreases issued.len(),
{
    if issued.len() > 0 {
        let earlier = issued.drop_last();
        assert forall|i: int| 0 <= i < earlier.len() implies is_playback(#[trigger] earlier[i].cmd)
            || earlier[i].cmd is Chat by {
            assert(earlier[i] == issued[i]);
        }
        law_last_write_wins(room, earlier);
        let last = issued.last();
        assert(is_playback(last.cmd) || last.cmd is Chat) by {
            assert(last == issued[issued.len() - 1]);
        }
    }
}

/// Whoever is not an admin and asks for what only admins may do changes
/// nothing, and yet the room is published: it comes out as it was, marked as
/// published at the time of asking.
pub proof fn law_outsiders_change_nothing(
    room: RoomView,
    caller: Seq<char>,
    cmd: CommandView,
    now: Instant,
)
    requires
        !room.is_admin(caller),
        !(cmd is Chat),
    ensures
        !RoomView::refuses(cmd, now),
        room.after_command(caller, cmd, now) == room.synced(now),
        room.after_command(caller, cmd, now).snapshot() == room.snapshot(),
{
}

/// Anyone may chat: a line given at a time that has a timestamp is appended,
/// once, under the caller's name and with the time of the call, whether or
/// not the caller is an admin. Nothing else changes but the time of publishing.
pub proof fn law_chat_is_open_to_all(
    room: RoomView,
    caller: Seq<char>,
    message: Seq<char>,
    now: Instant,
)
    requires
        now.is_timestamp(),
    ensures
        !RoomView::refuses(CommandView::Chat(message), now),
        room.after_command(caller, CommandView::Chat(message), now) == (RoomView {
            chat: room.chat.push(
                ChatMessageView { absolute_timestamp: now, user: caller, message },
            ),
            last_activity: now,
            ..room
        }),
        room.after_command(caller, CommandView::Chat(message), now).chat.len() == room.chat.len()
            + 1,
        room.after_command(caller, CommandView::Chat(message), now).chat.last().absolute_timestamp.nanos
            >= now.nanos,
{
}

/// Nobody takes the right to control the room from themselves.
pub proof fn law_no_self_demotion(room: RoomView, caller: Seq<char>, now: Instant)
    ensures
        room.after_command(caller, CommandView::Unadmin(caller), now).admins == room.admins,
        room.after_command(caller, CommandView::Unadmin(caller), now) == room.synced(now),
{
}

/// Keeping only the names that `keep` holds of leaves a list that had no repeats without repeats.
proof fn lemma_filter_keeps_distinct(names: Seq<Seq<char>>, keep: spec_fn(Seq<char>) -> bool)
    requires
        names.no_duplicates(),
    ensures
        names.filter(keep).no_duplicates(),
    decreases names.len(),
{
    reveal(Seq::filter);
    if names.len() > 0 {
        let rest = names.drop_last();
        let last = names.last();
        lemma_filter_keeps_distinct(rest, keep);
        if keep(last) {
            if rest.filter(keep).contains(last) {
                rest.lemma_filter_contains_rev(keep, last);
                let at = choose|at: int| 0 <= at < rest.len() && rest[at] == last;
                assert(names[at] == names[names.len() - 1]);
            }
        }
    }
}

/// An admin stays an admin through any command of their own.
pub proof fn law_caller_stays_admin(
    room: RoomView,
    caller: Seq<char>,
    cmd: CommandView,
    now: Instant,
)
    requires
        room.is_admin(caller),
    ensures
        room.after_command(caller, cmd, now).is_admin(caller),
{
    let at = choose|at: int| 0 <= at < room.admins.len() && room.admins[at] == caller;
    match cmd {
        CommandView::Admin(user) => {
            if !room.admins.contains(user) && !RoomView::refuses(cmd, now) {
                assert(room.admins.push(user)[at] == caller);
            }
        },
        CommandView::Unadmin(user) => {
            if user != caller {
                assert(other_than(user)(room.admins[at]));
                room.admins.lemma_filter_contains(other_than(user), at);
            }
        },
        _ => {},
    }
}

/// A room that has an admin, and lists none twice, stays so through any command.
pub proof fn law_commands_keep_rooms_well_formed(
    room: RoomView,
    caller: Seq<char>,
    cmd: CommandView,
    now: Instant,
)
    requires
        room.well_formed(),
    ensures
        room.after_command(caller, cmd, now).well_formed(),
{
    if room.is_admin(caller) && !RoomView::refuses(cmd, now) {
        law_caller_stays_admin(room, caller, cmd, now);
        match cmd {
            CommandView::Unadmin(user) => {
                lemma_filter_keeps_distinct(room.admins, other_than(user));
            },
            _ => {},
        }
    }
}

/// A new room has its creator as its only admin, shows nothing, is listed,
/// is empty and silent, and is well formed.
pub proof fn law_new_rooms_are_well_formed(name: Seq<char>, creator: Seq<char>, now: Instant)
    ensures
        RoomView::created(name, creator, now).well_formed(),
        RoomView::created(name, creator, now).sessions_distinct(),
        RoomView::created(name, creator, now).admins == seq![creator],
        RoomView::created(name, creator, now).is_admin(creator),
        RoomView::created(name, creator, now).video_state == VideoStateView::NoVideo,
{
    let room = RoomView::created(name, creator, now);
    assert(room.admins[0] == creator);
    assert(sessions_of(room.viewers) =~= Seq::empty());
}

/// Arrivals and departures leave the admins alone.
pub proof fn law_coming_and_going_keeps_rooms_well_formed(
    room: RoomView,
    login: LoginView,
    now: Instant,
)
    requires
        room.well_formed(),
    ensures
        room.joined(login, now).well_formed(),
        room.left(login, now).well_formed(),
{
}

/// As long as every arrival brings a connection the room does not know yet,
/// no two viewers share a connection; and once a connection has left, no
/// viewer is listed with it.
pub proof fn law_connections_stay_distinct(room: RoomView, login: LoginView, now: Instant)
    requires
        room.sessions_distinct(),
    ensures
        !room.has_session(login.sess) ==> room.joined(login, now).sessions_distinct(),
        room.left(login, now).sessions_distinct(),
        !room.left(login, now).has_session(login.sess),
{
    let sessions = sessions_of(room.viewers);
    if !sessions.contains(login.sess) && now.is_timestamp() {
        let arrived = room.viewers.push(ViewerView { name: login.user, sess: login.sess });
        assert(sessions_of(arrived) =~= sessions.push(login.sess));
        assert forall|i: int, j: int|
            0 <= i < arrived.len() && 0 <= j < arrived.len() && i != j implies sessions_of(
            arrived,
        )[i] != sessions_of(arrived)[j] by {
            if i < sessions.len() {
                assert(sessions.contains(sessions[i]));
            }
            if j < sessions.len() {
                assert(sessions.contains(sessions[j]));
            }
        }
    }
    sessions.index_of_first_ensures(login.sess);
    let stayed = without_session(room.viewers, login.sess);
    match sessions.index_of_first(login.sess) {
        Some(at) => {
            assert(sessions_of(stayed) =~= sessions.remove(at));
            assert forall|i: int| 0 <= i < sessions.remove(at).len() implies sessions.remove(
                at,
            )[i] != login.sess by {
                if i < at {
                } else {
                    assert(sessions.remove(at)[i] == sessions[i + 1]);
                }
            }
        },
        None => {},
    }
    assert(room.left(login, now).viewers == stayed);
}

/// Anything that is published within the grace period keeps the room: if a
/// command, an arrival or a departure was carried out at `at`, then at no
/// time less than the grace period later does the room's time run out.
pub proof fn law_activity_defers_deletion(
    room: RoomView,
    caller: Seq<char>,
    cmd: CommandView,
    login: LoginView,
    at: Instant,
    now: Instant,
)
    requires
        now.nanos - at.nanos < GRACE_PERIOD_NANOS,
    ensures
        !RoomView::refuses(cmd, at) ==> grace_verdict(
            room.after_command(caller, cmd, at).last_activity,
            now,
        ) != Ok::<bool, ClockError>(true),
        at.is_timestamp() ==> grace_verdict(room.joined(login, at).last_activity, now) != Ok::<
            bool,
            ClockError,
        >(true),
        at.is_timestamp() ==> grace_verdict(room.left(login, at).last_activity, now) != Ok::<
            bool,
            ClockError,
        >(true),
{
}

/// A registry never deletes a room that was published less than the grace
/// period ago, whoever asks and with whatever instance number.
pub proof fn law_recent_rooms_survive(
    registry: RegistryView,
    key: Seq<char>,
    instance: u64,
    now: Instant,
)
    requires
        registry.contains(key),
        now.nanos - registry.room(key).unwrap().last_activity.nanos < GRACE_PERIOD_NANOS,
    ensures
        registry.reaped(key, instance, now) == registry,
{
}

/// Asking twice for a room gives one room: the second asking changes nothing,
/// whoever asks and whenever.
pub proof fn law_rooms_are_created_once(
    registry: RegistryView,
    key: Seq<char>,
    first: Seq<char>,
    second: Seq<char>,
    at: Instant,
    later: Instant,
)
    ensures
        registry.with_room(key, first, at).contains(key),
        registry.with_room(key, first, at).holds(key, registry.instance_for(key)),
        registry.with_room(key, first, at).with_room(key, second, later) == registry.with_room(
            key,
            first,
            at,
        ),
        !registry.contains(key) ==> registry.with_room(key, first, at).room(key) == Some(
            RoomView::created(key, first, at),
        ),
        registry.contains(key) ==> registry.with_room(key, first, at) == registry,
{
    registry.keys().index_of_first_ensures(key);
    if !registry.contains(key) {
        lemma_new_room_is_found(registry, key, first, at);
        let grown = registry.with_room(key, first, at);
        assert(grown.keys()[registry.slots.len() as int] == key);
    }
}

/// A room that was just created is found under its name.
proof fn lemma_new_room_is_found(
    registry: RegistryView,
    key: Seq<char>,
    creator: Seq<char>,
    now: Instant,
)
    requires
        !registry.contains(key),
    ensures
        registry.with_room(key, creator, now).position(key) == Some(registry.slots.len() as int),
{
    let grown = registry.with_room(key, creator, now);
    registry.keys().index_of_first_ensures(key);
    grown.keys().index_of_first_ensures(key);
    assert(grown.keys() =~= registry.keys().push(key));
    assert(grown.keys()[registry.slots.len() as int] == key);
    match grown.keys().index_of_first(key) {
        Some(at) => {
            if at < registry.slots.len() {
                assert(registry.keys()[at] == key);
                assert(registry.keys().contains(key));
            }
        },
        None => {},
    }
}

/// Creating and deleting rooms keeps a registry well formed.
pub proof fn law_registries_stay_well_formed(
    registry: RegistryView,
    key: Seq<char>,
    creator: Seq<char>,
    instance: u64,
    now: Instant,
)
    requires
        registry.well_formed(),
    ensures
        RegistryView::empty().well_formed(),
        registry.with_room(key, creator, now).well_formed(),
        registry.without_room(key, instance).well_formed(),
        registry.reaped(key, instance, now).well_formed(),
{
    assert(RegistryView::empty().keys() =~= Seq::empty());
    registry.keys().index_of_first_ensures(key);
    if !registry.contains(key) {
        let grown = registry.with_room(key, creator, now);
        assert(grown.keys() =~= registry.keys().push(key));
        assert forall|i: int, j: int|
            0 <= i < grown.keys().len() && 0 <= j < grown.keys().len() && i != j implies grown.keys()[i]
            != grown.keys()[j] by {
            if i < registry.slots.len() {
                assert(registry.keys().contains(registry.keys()[i]));
            }
            if j < registry.slots.len() {
                assert(registry.keys().contains(registry.keys()[j]));
            }
        }
        assert forall|i: int| 0 <= i < grown.slots.len() implies (#[trigger] grown.slots[i]).instance
            < grown.next_instance || grown.next_instance == u64::MAX by {
            if i < registry.slots.len() {
                assert(grown.slots[i] == registry.slots[i]);
            }
        }
    }
    match registry.position(key) {
        Some(at) => {
            let shrunk = RegistryView { slots: registry.slots.remove(at), ..registry };
            assert(shrunk.keys() =~= registry.keys().remove(at));
            assert forall|i: int, j: int|
                0 <= i < shrunk.keys().len() && 0 <= j < shrunk.keys().len() && i != j implies shrunk.keys()[i]
                != shrunk.keys()[j] by {
                let from_i = if i < at { i } else { i + 1 };
                let from_j = if j < at { j } else { j + 1 };
                assert(shrunk.keys()[i] == registry.keys()[from_i]);
                assert(shrunk.keys()[j] == registry.keys()[from_j]);
            }
            assert forall|i: int| 0 <= i < shrunk.slots.len() implies (
            #[trigger] shrunk.slots[i]).instance < shrunk.next_instance || shrunk.next_instance
                == u64::MAX by {
                let from = if i < at { i } else { i + 1 };
                assert(shrunk.slots[i] == registry.slots[from]);
            }
        },
        None => {},
    }
}

/// Whatever is done to a room in place, it stays registered under its name
/// and instance number, and the registry stays well formed.
pub proof fn law_changed_rooms_keep_their_place(registry: RegistryView, at: int, changed: RoomView)
    requires
        0 <= at < registry.slots.len(),
    ensures
        registry.with_changed_room(at, changed).keys() == registry.keys(),
        registry.with_changed_room(at, changed).next_instance == registry.next_instance,
        registry.with_changed_room(at, changed).slots[at].instance == registry.slots[at].instance,
        registry.with_changed_room(at, changed).slots[at].room == changed,
        registry.well_formed() ==> registry.with_changed_room(at, changed).well_formed(),
{
    let after = registry.with_changed_room(at, changed);
    assert(after.keys() =~= registry.keys());
    if registry.well_formed() {
        assert forall|i: int| 0 <= i < after.slots.len() implies (#[trigger] after.slots[i]).instance
            < after.next_instance || after.next_instance == u64::MAX by {
            assert(after.slots[i].instance == registry.slots[i].instance);
        }
    }
}

/// Deleting is safe to repeat: the second time nothing happens.
pub proof fn law_deleting_twice_is_deleting_once(
    registry: RegistryView,
    key: Seq<char>,
    instance: u64,
)
    requires
        registry.well_formed(),
    ensures
        !registry.without_room(key, instance).holds(key, instance),
        registry.holds(key, instance) ==> !registry.without_room(key, instance).contains(key),
        registry.without_room(key, instance).without_room(key, instance) == registry.without_room(
            key,
            instance,
        ),
        !registry.contains(key) ==> registry.without_room(key, instance) == registry,
{
    registry.keys().index_of_first_ensures(key);
    match registry.position(key) {
        Some(at) => {
            if registry.slots[at].instance == instance {
                let shrunk = registry.without_room(key, instance);
                assert(shrunk.keys() =~= registry.keys().remove(at));
                shrunk.keys().index_of_first_ensures(key);
                match shrunk.keys().index_of_first(key) {
                    Some(again) => {
                        let from = if again < at { again } else { again + 1 };
                        assert(registry.keys()[from] == key);
                        assert(registry.keys()[at] == key);
                    },
                    None => {},
                }
            }
        },
        None => {},
    }
}

/// Deleting by an old instance number spares the room that took the name
/// since: once a room is gone and its name is given to a new room, the number
/// of the old one deletes nothing.
pub proof fn law_old_numbers_spare_new_rooms(
    registry: RegistryView,
    key: Seq<char>,
    old_instance: u64,
    creator: Seq<char>,
    now: Instant,
)
    requires
        registry.well_formed(),
        registry.next_instance < u64::MAX,
        registry.holds(key, old_instance),
    ensures
        registry.without_room(key, old_instance).with_room(key, creator, now).without_room(
            key,
            old_instance,
        ) == registry.without_room(key, old_instance).with_room(key, creator, now),
{
    law_deleting_twice_is_deleting_once(registry, key, old_instance);
    let shrunk = registry.without_room(key, old_instance);
    lemma_new_room_is_found(shrunk, key, creator, now);
    let at = registry.position(key).unwrap();
    registry.keys().index_of_first_ensures(key);
    assert(registry.slots[at].instance < registry.next_instance);
}

/// A viewer is let into the room only once the subscription stands.
pub proof fn law_subscribe_before_join(session: SessionView, event: EventView)
    ensures
        session.stepped(event).1 is AddViewer ==> session.phase == Phase::Subscribing && event
            is Subscribed,
{
}

/// A viewer that is in the room is never forgotten there: from streaming the
/// session goes on streaming or sets about taking the viewer out, and it sets
/// about that by asking for exactly that.
pub proof fn law_viewers_are_seen_off(session: SessionView, event: EventView)
    requires
        session.phase == Phase::Streaming,
    ensures
        session.stepped(event).0.phase == Phase::Streaming || session.stepped(event).0.phase
            == Phase::Leaving,
        session.stepped(event).0.phase == Phase::Leaving <==> session.stepped(event).1
            is RemoveViewer,
{
}

/// The wait for deletion starts only when the departure left the room empty,
/// and the room is asked to go only when the wait is over.
pub proof fn law_deletion_waits(session: SessionView, event: EventView)
    ensures
        session.stepped(event).1 is WaitGrace ==> session.phase == Phase::Leaving && event
            == (EventView::Left { room_empty: true }),
        session.stepped(event).1 is Reap ==> session.phase == Phase::Waiting && event
            is GraceElapsed && session.instance == Some(session.stepped(event).1->Reap_0),
{
}

/// A snapshot that reaches a streaming session is answered with its frame
/// wherever the frame can be written, and is then what was last sent: the
/// whole snapshot if nothing was sent before, else the edits against what was.
pub proof fn law_snapshots_are_framed(session: SessionView, text: Seq<char>)
    requires
        session.phase == Phase::Streaming,
        can_write(frame_text(session.last_sent, text)),
    ensures
        session.stepped(EventView::Snapshot(text)) == (
            SessionView { last_sent: Some(text), ..session },
            ActionView::Send(message_for(session.last_sent, text)),
        ),
        session.last_sent is None ==> session.stepped(EventView::Snapshot(text)).1
            == ActionView::Send(MessageView::Full(text)),
{
}

/// The frames that go out while `events` happen to `session`, in order.
pub open spec fn frames_sent(session: SessionView, events: Seq<EventView>) -> Seq<MessageView>
    decreases events.len(),
{
    if events.len() == 0 {
        Seq::empty()
    } else {
        let (next, action) = session.stepped(events.first());
        let rest = frames_sent(next, events.drop_first());
        match action {
            ActionView::Send(frame) => seq![frame] + rest,
            _ => rest,
        }
    }
}

/// Once a snapshot has been sent, only edits follow.
pub proof fn law_edits_follow(session: SessionView, events: Seq<EventView>)
    requires
        session.last_sent is Some,
    ensures
        forall|i: int|
            0 <= i < frames_sent(session, events).len() ==> #[trigger] frames_sent(
                session,
                events,
            )[i] is Patch,
    decreases events.len(),
{
    if events.len() > 0 {
        let (next, action) = session.stepped(events.first());
        law_edits_follow(next, events.drop_first());
    }
}

/// The first frame a connection is sent is a whole snapshot, never edits; all
/// that follow are edits.
pub proof fn law_first_frame_is_whole(session: SessionView, events: Seq<EventView>)
    requires
        session.last_sent is None,
    ensures
        frames_sent(session, events).len() > 0 ==> frames_sent(session, events)[0] is Full,
        forall|i: int|
            1 <= i < frames_sent(session, events).len() ==> #[trigger] frames_sent(
                session,
                events,
            )[i] is Patch,
        SessionView::fresh().last_sent is None,
    decreases events.len(),
{
    if events.len() > 0 {
        let (next, action) = session.stepped(events.first());
        let rest = frames_sent(next, events.drop_first());
        match action {
            ActionView::Send(frame) => {
                law_edits_follow(next, events.drop_first());
                assert forall|i: int| 1 <= i < frames_sent(session, events).len() implies (
                #[trigger] frames_sent(session, events)[i]) is Patch by {
                    assert(frames_sent(session, events)[i] == rest[i - 1]);
                }
            },
            _ => {
                law_first_frame_is_whole(next, events.drop_first());
            },
        }
    }
}

} // verus!
