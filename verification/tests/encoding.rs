use cinema_be::encoder::{diff, frame_full, frame_patch, EncodeError, Message};
use serde_json::{Number, Value};

fn text(value: &str) -> Value {
    Value::String(value.to_string())
}

fn object(members: Vec<(&str, Value)>) -> Value {
    let mut map = serde_json::Map::new();
    for (key, value) in members {
        map.insert(key.to_string(), value);
    }
    Value::Object(map)
}

fn snapshot(title: &str, admins: Vec<&str>, viewers: Vec<&str>, position: Option<f64>) -> Value {
    let video_state = match position {
        Some(at) => object(vec![(
            "video",
            Value::Array(vec![
                text("demo.mp4"),
                object(vec![("playing", Value::Number(Number::from_f64(at).unwrap()))]),
            ]),
        )]),
        None => object(vec![("novideo", Value::Null)]),
    };
    object(vec![
        ("public", Value::Bool(true)),
        ("name", text("ABCDE")),
        ("title", text(title)),
        ("video_state", video_state),
        ("admins", Value::Array(admins.into_iter().map(text).collect())),
        (
            "viewers",
            Value::Array(viewers.into_iter().map(|name| object(vec![("name", text(name))])).collect()),
        ),
        ("chat", Value::Array(vec![])),
    ])
}

fn patch_of(message: &Message) -> json_patch::Patch {
    match message {
        Message::Patch(edits) => serde_json::from_str(edits).unwrap(),
        Message::Full(_) => panic!("expected edits"),
    }
}

#[test]
fn first_message_is_the_full_snapshot() {
    let next = snapshot("alice's Room", vec!["alice"], vec![], None);
    let message = diff(None, &next).unwrap();
    assert_eq!(
        message,
        Message::Full(
            "{\"admins\":[\"alice\"],\"chat\":[],\"name\":\"ABCDE\",\"public\":true,\
             \"title\":\"alice's Room\",\"video_state\":{\"novideo\":null},\"viewers\":[]}"
                .to_string()
        )
    );
    match message {
        Message::Full(whole) => assert_eq!(serde_json::from_str::<Value>(&whole).unwrap(), next),
        Message::Patch(_) => panic!("expected a whole snapshot"),
    }
}

#[test]
fn later_messages_are_edits() {
    let previous = snapshot("alice's Room", vec!["alice"], vec![], None);
    let next = snapshot("Movie Night", vec!["alice"], vec![], None);
    assert_eq!(
        diff(Some(&previous), &next).unwrap(),
        Message::Patch("[{\"op\":\"replace\",\"path\":\"/title\",\"value\":\"Movie Night\"}]".to_string())
    );
}

#[test]
fn equal_snapshots_give_no_edits() {
    let same = snapshot("alice's Room", vec!["alice"], vec!["bob"], Some(12.5));
    assert_eq!(diff(Some(&same), &same).unwrap(), Message::Patch("[]".to_string()));
}

#[test]
fn added_and_removed_members_become_edits() {
    let previous = snapshot("t", vec!["alice", "bob"], vec!["bob"], None);
    let next = snapshot("t", vec!["alice"], vec!["bob", "carol"], None);
    assert_eq!(
        diff(Some(&previous), &next).unwrap(),
        Message::Patch(
            "[{\"op\":\"remove\",\"path\":\"/admins/1\"},\
             {\"op\":\"add\",\"path\":\"/viewers/1\",\"value\":{\"name\":\"carol\"}}]"
                .to_string()
        )
    );
}

#[test]
fn diff_is_a_function_of_the_two_snapshots() {
    let previous = snapshot("a", vec!["alice"], vec![], None);
    let next = snapshot("b", vec!["alice", "bob"], vec!["bob"], Some(1.0));
    assert_eq!(diff(Some(&previous), &next), diff(Some(&previous.clone()), &next.clone()));
    assert_eq!(diff(None, &next), diff(None, &next.clone()));
}

#[test]
fn applying_the_edits_to_the_previous_snapshot_gives_the_next() {
    let snapshots = vec![
        snapshot("alice's Room", vec!["alice"], vec![], None),
        snapshot("alice's Room", vec!["alice"], vec!["alice"], Some(12.5)),
        snapshot("Movie Night", vec!["alice", "bob"], vec!["alice", "bob"], Some(12.5)),
        snapshot("Movie Night", vec!["bob"], vec!["bob"], Some(0.0)),
        snapshot("", vec![], vec![], None),
    ];
    for previous in snapshots.iter() {
        for next in snapshots.iter() {
            let patch = patch_of(&diff(Some(previous), next).unwrap());
            let mut patched = previous.clone();
            json_patch::patch(&mut patched, &patch).unwrap();
            assert_eq!(&patched, next);
            assert_eq!(serde_json::to_string(&patched).unwrap(), serde_json::to_string(next).unwrap());
        }
    }
}

#[test]
fn a_write_error_becomes_an_encode_error() {
    let failure = serde_json::from_str::<Value>("{").unwrap_err();
    assert_eq!(frame_full(Err(failure)), Err(EncodeError::Write));
    let failure = serde_json::from_str::<Value>("[").unwrap_err();
    assert_eq!(frame_patch(Err(failure)), Err(EncodeError::Write));
}

#[test]
fn written_texts_are_framed_by_kind() {
    assert_eq!(frame_full(Ok("{}".to_string())), Ok(Message::Full("{}".to_string())));
    assert_eq!(frame_patch(Ok("[]".to_string())), Ok(Message::Patch("[]".to_string())));
}

#[test]
fn zeros_of_either_sign_count_as_the_same_position() {
    let previous = snapshot("t", vec!["alice"], vec![], Some(0.0));
    let next = snapshot("t", vec!["alice"], vec![], Some(-0.0));
    assert_ne!(serde_json::to_string(&previous).unwrap(), serde_json::to_string(&next).unwrap());
    assert_eq!(diff(Some(&previous), &next).unwrap(), Message::Patch("[]".to_string()));
}
