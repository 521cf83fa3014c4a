use cinema_be::clock::Instant;
use cinema_be::encoder::{EncodeError, Message};
use cinema_be::registry::RoomRegistry;
use cinema_be::room::{Command, PlayingState, Seconds, Snapshot, VideoState};
use cinema_be::session::{
    Action, ConnectionSession, Event, Inbound, Phase, KEEPALIVE_IDLE_SECS, PUBLISH_BACKLOG,
};
use cinema_be::LoginArgs;
use serde_json::{Number, Value};

fn name(text: &str) -> String {
    text.to_string()
}

fn at(secs: u64) -> Instant {
    Instant::from_secs(secs)
}

fn login(user: &str, sess: &str) -> LoginArgs {
    LoginArgs { room: name("ABCDE"), user: name(user), sess: name(sess) }
}

fn object(members: Vec<(&str, Value)>) -> Value {
    let mut map = serde_json::Map::new();
    for (key, value) in members {
        map.insert(key.to_string(), value);
    }
    Value::Object(map)
}

fn number(seconds: Seconds) -> Value {
    Value::Number(Number::from_f64(f64::from_bits(seconds.bits)).unwrap())
}

fn document(snapshot: &Snapshot) -> Value {
    let video_state = match &snapshot.video_state {
        VideoState::NoVideo => object(vec![("novideo", Value::Null)]),
        VideoState::Video(movie, PlayingState::Paused(position)) => object(vec![(
            "video",
            Value::Array(vec![Value::String(movie.clone()), object(vec![("paused", number(*position))])]),
        )]),
        VideoState::Video(movie, PlayingState::Playing(start)) => object(vec![(
            "video",
            Value::Array(vec![Value::String(movie.clone()), object(vec![("playing", number(*start))])]),
        )]),
    };
    object(vec![
        ("public", Value::Bool(snapshot.public)),
        ("name", Value::String(snapshot.name.clone())),
        ("title", Value::String(snapshot.title.clone())),
        ("video_state", video_state),
        ("admins", Value::Array(snapshot.admins.iter().cloned().map(Value::String).collect())),
        (
            "viewers",
            Value::Array(
                snapshot.viewers.iter().map(|viewer| object(vec![("name", Value::String(viewer.clone()))])).collect(),
            ),
        ),
        (
            "chat",
            Value::Array(
                snapshot
                    .chat
                    .iter()
                    .map(|line| {
                        object(vec![
                            (
                                "absolute_timestamp",
                                Value::Number(
                                    Number::from_f64(line.absolute_timestamp.nanos as f64 / 1e9).unwrap(),
                                ),
                            ),
                            ("user", Value::String(line.user.clone())),
                            ("message", Value::String(line.message.clone())),
                        ])
                    })
                    .collect(),
            ),
        ),
    ])
}

fn streaming() -> ConnectionSession {
    let mut session = ConnectionSession::new();
    assert_eq!(session.step(Event::Opened), Action::Resolve);
    assert_eq!(session.step(Event::Resolved(7)), Action::Subscribe);
    assert_eq!(session.step(Event::Subscribed), Action::AddViewer);
    assert_eq!(session.step(Event::Joined), Action::Await);
    session
}

#[test]
fn limits_have_their_values() {
    assert_eq!(KEEPALIVE_IDLE_SECS, 30);
    assert_eq!(PUBLISH_BACKLOG, 100);
}

#[test]
fn a_connection_subscribes_before_it_joins() {
    let mut session = ConnectionSession::new();
    assert_eq!(session.phase(), Phase::Created);
    assert_eq!(session.instance(), None);
    assert!(!session.has_sent());
    assert_eq!(session.step(Event::Opened), Action::Resolve);
    assert_eq!(session.phase(), Phase::Resolving);
    assert_eq!(session.step(Event::Resolved(3)), Action::Subscribe);
    assert_eq!(session.phase(), Phase::Subscribing);
    assert_eq!(session.instance(), Some(3));
    assert_eq!(session.step(Event::Subscribed), Action::AddViewer);
    assert_eq!(session.phase(), Phase::Joining);
    assert_eq!(session.step(Event::Joined), Action::Await);
    assert_eq!(session.phase(), Phase::Streaming);
}

#[test]
fn a_failed_join_ends_the_connection_without_cleanup() {
    let mut session = ConnectionSession::new();
    session.step(Event::Opened);
    session.step(Event::Resolved(0));
    session.step(Event::Subscribed);
    assert_eq!(session.step(Event::JoinFailed), Action::Finish);
    assert_eq!(session.phase(), Phase::Closed);
}

#[test]
fn events_out_of_turn_end_a_connection_that_has_not_joined() {
    let mut session = ConnectionSession::new();
    assert_eq!(session.step(Event::Joined), Action::Finish);
    assert_eq!(session.phase(), Phase::Closed);
    assert_eq!(session.step(Event::Opened), Action::Finish);
    assert_eq!(session.phase(), Phase::Closed);
}

#[test]
fn silence_is_answered_with_a_ping() {
    let mut session = streaming();
    assert_eq!(session.step(Event::IdleTimeout), Action::SendPing);
    assert_eq!(session.phase(), Phase::Streaming);
}

#[test]
fn commands_are_forwarded_to_the_room() {
    let mut session = streaming();
    let cmd = Command::Chat(name("hi"));
    assert_eq!(session.step(Event::Inbound(Inbound::Command(cmd.clone()))), Action::Apply(cmd));
    assert_eq!(session.phase(), Phase::Streaming);
    assert_eq!(session.step(Event::Inbound(Inbound::Ignored)), Action::Await);
    assert_eq!(session.phase(), Phase::Streaming);
}

#[test]
fn missed_snapshots_are_not_fatal() {
    let mut session = streaming();
    assert_eq!(session.step(Event::Lagged), Action::Await);
    assert_eq!(session.phase(), Phase::Streaming);
}

#[test]
fn every_way_out_of_streaming_removes_the_viewer() {
    let endings = vec![
        Event::Inbound(Inbound::Undecodable),
        Event::Inbound(Inbound::Closed),
        Event::Inbound(Inbound::Failed),
        Event::CommandFailed,
        Event::ChannelClosed,
        Event::SendFailed,
        Event::Opened,
        Event::GraceElapsed,
    ];
    for ending in endings {
        let mut session = streaming();
        assert_eq!(session.step(ending), Action::RemoveViewer);
        assert_eq!(session.phase(), Phase::Leaving);
    }
}

#[test]
fn an_empty_room_is_reaped_after_the_wait() {
    let mut session = streaming();
    session.step(Event::Inbound(Inbound::Closed));
    assert_eq!(session.step(Event::Left { room_empty: true }), Action::WaitGrace);
    assert_eq!(session.phase(), Phase::Waiting);
    assert_eq!(session.step(Event::GraceElapsed), Action::Reap(7));
    assert_eq!(session.phase(), Phase::Reaping);
    assert_eq!(session.step(Event::Reaped), Action::Finish);
    assert_eq!(session.phase(), Phase::Closed);
}

#[test]
fn a_room_with_viewers_is_left_alone() {
    let mut session = streaming();
    session.step(Event::SendFailed);
    assert_eq!(session.step(Event::Left { room_empty: false }), Action::Finish);
    assert_eq!(session.phase(), Phase::Closed);
}

#[test]
fn a_failed_departure_ends_without_reaping() {
    let mut session = streaming();
    session.step(Event::SendFailed);
    assert_eq!(session.step(Event::LeaveFailed), Action::Finish);
    assert_eq!(session.phase(), Phase::Closed);
}

#[test]
fn first_snapshot_goes_out_whole_and_later_ones_as_edits() {
    let mut session = streaming();
    let first = object(vec![("title", Value::String(name("a")))]);
    let second = object(vec![("title", Value::String(name("b")))]);
    assert_eq!(
        session.step(Event::Snapshot(first)),
        Action::Send(Message::Full(name("{\"title\":\"a\"}")))
    );
    assert!(session.has_sent());
    assert_eq!(
        session.step(Event::Snapshot(second.clone())),
        Action::Send(Message::Patch(name("[{\"op\":\"replace\",\"path\":\"/title\",\"value\":\"b\"}]")))
    );
    assert_eq!(session.step(Event::Snapshot(second)), Action::Send(Message::Patch(name("[]"))));
    assert_eq!(session.phase(), Phase::Streaming);
}

#[test]
fn edits_are_relative_to_what_this_connection_was_sent() {
    let mut early = streaming();
    let mut late = streaming();
    let a = object(vec![("n", Value::from(1))]);
    let b = object(vec![("n", Value::from(2))]);
    let c = object(vec![("n", Value::from(3))]);
    early.step(Event::Snapshot(a));
    early.step(Event::Snapshot(b.clone()));
    assert_eq!(late.step(Event::Snapshot(b)), Action::Send(Message::Full(name("{\"n\":2}"))));
    let expected = Action::Send(Message::Patch(name("[{\"op\":\"replace\",\"path\":\"/n\",\"value\":3}]")));
    assert_eq!(early.step(Event::Snapshot(c.clone())), expected);
    assert_eq!(late.step(Event::Snapshot(c)), expected);
}

#[test]
fn snapshots_before_joining_end_the_connection() {
    let mut session = ConnectionSession::new();
    session.step(Event::Opened);
    assert_eq!(session.step(Event::Snapshot(Value::Null)), Action::Finish);
    assert!(!session.has_sent());
}

#[test]
fn a_frame_that_cannot_be_written_ends_in_cleanup() {
    let mut session = streaming();
    assert_eq!(session.on_encoded(Value::Null, Err(EncodeError::Write)), Action::RemoveViewer);
    assert_eq!(session.phase(), Phase::Leaving);
    assert!(!session.has_sent());
}

#[test]
fn a_written_frame_is_sent_and_remembered() {
    let mut session = streaming();
    let frame = Message::Full(name("null"));
    assert_eq!(session.on_encoded(Value::Null, Ok(frame.clone())), Action::Send(frame));
    assert!(session.has_sent());
    assert_eq!(
        session.step(Event::Snapshot(Value::Bool(true))),
        Action::Send(Message::Patch(name("[{\"op\":\"replace\",\"path\":\"\",\"value\":true}]")))
    );
}

#[test]
fn watch_party_from_creation_to_renaming() {
    let mut registry = RoomRegistry::new();
    let alice = login("alice", "sa");
    let bob = login("bob", "sb");

    // Alice opens the room.
    let mut alice_session = ConnectionSession::new();
    assert_eq!(alice_session.step(Event::Opened), Action::Resolve);
    let instance = registry.get_or_create_at(&alice.room, &alice.user, at(100));
    assert_eq!(alice_session.step(Event::Resolved(instance)), Action::Subscribe);
    assert_eq!(alice_session.step(Event::Subscribed), Action::AddViewer);
    {
        let room = registry.room(&name("ABCDE")).unwrap();
        assert_eq!(room.admins, vec![name("alice")]);
        assert_eq!(room.video_state, VideoState::NoVideo);
    }
    let joined = registry.room_mut(&name("ABCDE")).unwrap().add_viewer_at(&alice, at(100)).unwrap();
    assert_eq!(alice_session.step(Event::Joined), Action::Await);
    match alice_session.step(Event::Snapshot(document(&joined))) {
        Action::Send(Message::Full(_)) => {},
        other => panic!("expected a whole snapshot, got {:?}", other),
    }

    // Alice starts the movie.
    let play = Command::Play(name("demo.mp4"), Seconds { bits: 12.5f64.to_bits() });
    assert_eq!(
        alice_session.step(Event::Inbound(Inbound::Command(play.clone()))),
        Action::Apply(play.clone())
    );
    let playing = registry.room_mut(&name("ABCDE")).unwrap().command_at(&alice, &play, at(101)).unwrap();
    assert_eq!(
        registry.room(&name("ABCDE")).unwrap().video_state,
        VideoState::Video(name("demo.mp4"), PlayingState::Playing(Seconds { bits: 12.5f64.to_bits() }))
    );
    assert_eq!(
        alice_session.step(Event::Snapshot(document(&playing))),
        Action::Send(Message::Patch(name(
            "[{\"op\":\"add\",\"path\":\"/video_state/video\",\"value\":[\"demo.mp4\",{\"playing\":12.5}]},\
             {\"op\":\"remove\",\"path\":\"/video_state/novideo\"}]"
        )))
    );

    // Bob joins and gets everything.
    let mut bob_session = ConnectionSession::new();
    bob_session.step(Event::Opened);
    assert_eq!(registry.get_or_create_at(&bob.room, &bob.user, at(102)), instance);
    bob_session.step(Event::Resolved(instance));
    bob_session.step(Event::Subscribed);
    let with_bob = registry.room_mut(&name("ABCDE")).unwrap().add_viewer_at(&bob, at(102)).unwrap();
    bob_session.step(Event::Joined);
    match bob_session.step(Event::Snapshot(document(&with_bob))) {
        Action::Send(Message::Full(whole)) => {
            let received: Value = serde_json::from_str(&whole).unwrap();
            assert_eq!(received, document(&with_bob));
            assert_eq!(received["admins"], Value::Array(vec![Value::String(name("alice"))]));
            assert_eq!(received["video_state"]["video"][0], Value::String(name("demo.mp4")));
            assert_eq!(received["video_state"]["video"][1]["playing"].as_f64(), Some(12.5));
            assert_eq!(received["viewers"][1]["name"], Value::String(name("bob")));
            assert!(!whole.contains("sb"));
        },
        other => panic!("expected a whole snapshot, got {:?}", other),
    }
    assert_eq!(with_bob.admins, vec![name("alice")]);

    // Bob tries to rename the room and is ignored.
    let rename = Command::Title(name("Movie Night"));
    let ignored = registry.room_mut(&name("ABCDE")).unwrap().command_at(&bob, &rename, at(103)).unwrap();
    assert_eq!(ignored.title, "alice's Room");
    assert_eq!(registry.room(&name("ABCDE")).unwrap().title, "alice's Room");
    assert_eq!(registry.room(&name("ABCDE")).unwrap().last_activity, at(103));
    assert_eq!(
        bob_session.step(Event::Snapshot(document(&ignored))),
        Action::Send(Message::Patch(name("[]")))
    );

    // Alice makes Bob an admin.
    let promoted = registry
        .room_mut(&name("ABCDE"))
        .unwrap()
        .command_at(&alice, &Command::Admin(name("bob")), at(104))
        .unwrap();
    assert_eq!(promoted.admins, vec![name("alice"), name("bob")]);

    // Now Bob's renaming is accepted.
    let renamed = registry.room_mut(&name("ABCDE")).unwrap().command_at(&bob, &rename, at(105)).unwrap();
    assert_eq!(renamed.title, "Movie Night");
    assert_eq!(registry.room(&name("ABCDE")).unwrap().title, "Movie Night");
    assert_eq!(
        bob_session.step(Event::Snapshot(document(&renamed))),
        Action::Send(Message::Patch(name(
            "[{\"op\":\"add\",\"path\":\"/admins/1\",\"value\":\"bob\"},\
             {\"op\":\"replace\",\"path\":\"/title\",\"value\":\"Movie Night\"}]"
        )))
    );
}
