//! The state of one room and the rules by which it changes.
//!
//! [`RoomView`] is the mathematical state; its spec functions say what every
//! command, arrival and departure does to it. [`Room`] is the value that runs,
//! and each of its methods is proved to follow the view.

use crate::clock::{ClockError, Instant};
use crate::laws::{
    law_coming_and_going_keeps_rooms_well_formed, law_commands_keep_rooms_well_formed,
    law_connections_stay_distinct, law_new_rooms_are_well_formed,
};
use crate::{LoginArgs, LoginView};
use vstd::prelude::*;
use vstd::string::*;

verus! {

/// A number of seconds, kept as the bit pattern of an IEEE 754 double.
///
/// Rooms store and hand on playback positions; they never calculate with them,
/// so the pattern is all they need.
#[derive(Clone, Copy, PartialEq, Eq, Debug, Structural)]
pub struct Seconds {
    pub bits: u64,
}

/// A connected participant.
#[derive(Clone, Debug, PartialEq, Eq)]
pub struct Viewer {
    pub name: String,
    /// Identifies the connection. Never shown to other participants.
    pub sess: String,
}

/// [`Viewer`] as sequences of characters.
pub struct ViewerView {
    pub name: Seq<char>,
    pub sess: Seq<char>,
}

impl View for Viewer {
    type V = ViewerView;

    open spec fn view(&self) -> ViewerView {
        ViewerView { name: self.name@, sess: self.sess@ }
    }
}

impl DeepView for Viewer {
    type V = ViewerView;

    open spec fn deep_view(&self) -> ViewerView {
        self@
    }
}

/// What a participant asks of a room.
#[derive(Clone, Debug, PartialEq, Eq)]
pub enum Command {
    Stop,
    /// Movie and position.
    Pause(String, Seconds),
    /// Movie and the time at which playback started.
    Play(String, Seconds),
    Chat(String),
    Admin(String),
    Unadmin(String),
    Title(String),
    Public(bool),
}

/// [`Command`] as sequences of characters.
pub enum CommandView {
    Stop,
    Pause(Seq<char>, Seconds),
    Play(Seq<char>, Seconds),
    Chat(Seq<char>),
    Admin(Seq<char>),
    Unadmin(Seq<char>),
    Title(Seq<char>),
    Public(bool),
}

impl View for Command {
    type V = CommandView;

    open spec fn view(&self) -> CommandView {
        match self {
            Command::Stop => CommandView::Stop,
            Command::Pause(movie, position) => CommandView::Pause(movie@, *position),
            Command::Play(movie, start) => CommandView::Play(movie@, *start),
            Command::Chat(message) => CommandView::Chat(message@),
            Command::Admin(user) => CommandView::Admin(user@),
            Command::Unadmin(user) => CommandView::Unadmin(user@),
            Command::Title(title) => CommandView::Title(title@),
            Command::Public(public) => CommandView::Public(*public),
        }
    }
}

/// Whether a movie is held at a position or running since a start time.
#[derive(Clone, Copy, PartialEq, Eq, Debug, Structural)]
pub enum PlayingState {
    Paused(Seconds),
    Playing(Seconds),
}

/// What a room is showing.
#[derive(Clone, Debug, PartialEq, Eq)]
pub enum VideoState {
    NoVideo,
    Video(String, PlayingState),
}

/// [`VideoState`] with the movie as a sequence of characters.
pub enum VideoStateView {
    NoVideo,
    Video(Seq<char>, PlayingState),
}

impl View for VideoState {
    type V = VideoStateView;

    open spec fn view(&self) -> VideoStateView {
        match self {
            VideoState::NoVideo => VideoStateView::NoVideo,
            VideoState::Video(movie, playing) => VideoStateView::Video(movie@, *playing),
        }
    }
}

impl Default for VideoState {
    fn default() -> (state: VideoState)
        ensures
            state@ == VideoStateView::NoVideo,
    {
        VideoState::NoVideo
    }
}

/// One line of the room's conversation.
#[derive(Clone, Debug, PartialEq, Eq)]
pub struct ChatMessage {
    /// When it was said. Never earlier than the epoch.
    pub absolute_timestamp: Instant,
    pub user: String,
    pub message: String,
}

/// [`ChatMessage`] as sequences of characters.
pub struct ChatMessageView {
    pub absolute_timestamp: Instant,
    pub user: Seq<char>,
    pub message: Seq<char>,
}

impl View for ChatMessage {
    type V = ChatMessageView;

    open spec fn view(&self) -> ChatMessageView {
        ChatMessageView {
            absolute_timestamp: self.absolute_timestamp,
            user: self.user@,
            message: self.message@,
        }
    }
}

impl DeepView for ChatMessage {
    type V = ChatMessageView;

    open spec fn deep_view(&self) -> ChatMessageView {
        self@
    }
}

/// The state of one room.
#[derive(Clone, Debug, PartialEq, Eq)]
pub struct Room {
    /// Whether the room appears in listings.
    pub public: bool,
    pub name: String,
    pub title: String,
    pub video_state: VideoState,
    /// Who may control the room, in the order they were given the right.
    pub admins: Vec<String>,
    pub viewers: Vec<Viewer>,
    pub chat: Vec<ChatMessage>,
    /// When the room was last published.
    pub last_activity: Instant,
}

/// The mathematical state of a room.
pub struct RoomView {
    pub public: bool,
    pub name: Seq<char>,
    pub title: Seq<char>,
    pub video_state: VideoStateView,
    pub admins: Seq<Seq<char>>,
    pub viewers: Seq<ViewerView>,
    pub chat: Seq<ChatMessageView>,
    pub last_activity: Instant,
}

impl View for Room {
    type V = RoomView;

    open spec fn view(&self) -> RoomView {
        RoomView {
            public: self.public,
            name: self.name@,
            title: self.title@,
            video_state: self.video_state@,
            admins: self.admins.deep_view(),
            viewers: self.viewers.deep_view(),
            chat: self.chat.deep_view(),
            last_activity: self.last_activity,
        }
    }
}

/// What is published of a room: all of it but the connections' identities
/// and the time of publishing.
#[derive(Clone, Debug, PartialEq, Eq)]
pub struct Snapshot {
    pub public: bool,
    pub name: String,
    pub title: String,
    pub video_state: VideoState,
    pub admins: Vec<String>,
    /// The viewers' names, in the order they arrived.
    pub viewers: Vec<String>,
    pub chat: Vec<ChatMessage>,
}

/// [`Snapshot`] as sequences.
pub struct SnapshotView {
    pub public: bool,
    pub name: Seq<char>,
    pub title: Seq<char>,
    pub video_state: VideoStateView,
    pub admins: Seq<Seq<char>>,
    pub viewers: Seq<Seq<char>>,
    pub chat: Seq<ChatMessageView>,
}

impl View for Snapshot {
    type V = SnapshotView;

    open spec fn view(&self) -> SnapshotView {
        SnapshotView {
            public: self.public,
            name: self.name@,
            title: self.title@,
            video_state: self.video_state@,
            admins: self.admins.deep_view(),
            viewers: self.viewers.deep_view(),
            chat: self.chat.deep_view(),
        }
    }
}

/// The name under which the room itself speaks in the conversation.
pub open spec fn system_user() -> Seq<char> {
    "system"@
}

/// The title a room has until someone sets one.
pub open spec fn default_title(creator: Seq<char>) -> Seq<char> {
    creator + "'s Room"@
}

/// What the room says when `user` arrives.
pub open spec fn connected_notice(user: Seq<char>) -> Seq<char> {
    user + " connected"@
}

/// What the room says when `user` leaves.
pub open spec fn disconnected_notice(user: Seq<char>) -> Seq<char> {
    user + " disconnected"@
}

/// Holds of every name but `user`.
pub open spec fn other_than(user: Seq<char>) -> spec_fn(Seq<char>) -> bool {
    |name: Seq<char>| name != user
}

/// The names of `viewers`, in order.
pub open spec fn names_of(viewers: Seq<ViewerView>) -> Seq<Seq<char>> {
    Seq::new(viewers.len(), |i: int| viewers[i].name)
}

/// The connection identities of `viewers`, in order.
pub open spec fn sessions_of(viewers: Seq<ViewerView>) -> Seq<Seq<char>> {
    Seq::new(viewers.len(), |i: int| viewers[i].sess)
}

/// `viewers` without the first of them that is connected as `sess`, if there is one.
pub open spec fn without_session(viewers: Seq<ViewerView>, sess: Seq<char>) -> Seq<ViewerView> {
    match sessions_of(viewers).index_of_first(sess) {
        Some(at) => viewers.remove(at),
        None => viewers,
    }
}

impl RoomView {
    /// The room as `creator` gets it on first asking for `name` at `now`.
    pub open spec fn created(name: Seq<char>, creator: Seq<char>, now: Instant) -> RoomView {
        RoomView {
            public: true,
            name,
            title: default_title(creator),
            video_state: VideoStateView::NoVideo,
            admins: seq![creator],
            viewers: Seq::empty(),
            chat: Seq::empty(),
            last_activity: now,
        }
    }

    /// Whether `user` may control the room.
    pub open spec fn is_admin(self, user: Seq<char>) -> bool {
        self.admins.contains(user)
    }

    /// There is an admin, and none is listed twice.
    pub open spec fn well_formed(self) -> bool {
        self.admins.len() > 0 && self.admins.no_duplicates()
    }

    /// No two viewers share a connection.
    pub open spec fn sessions_distinct(self) -> bool {
        sessions_of(self.viewers).no_duplicates()
    }

    /// Whether a viewer is connected as `sess`.
    pub open spec fn has_session(self, sess: Seq<char>) -> bool {
        sessions_of(self.viewers).contains(sess)
    }

    /// The room with one more line in its conversation.
    pub open spec fn said(self, user: Seq<char>, message: Seq<char>, at: Instant) -> RoomView {
        RoomView {
            chat: self.chat.push(ChatMessageView { absolute_timestamp: at, user, message }),
            ..self
        }
    }

    /// The room once it has been published at `now`.
    pub open spec fn synced(self, now: Instant) -> RoomView {
        RoomView { last_activity: now, ..self }
    }

    /// What is published of the room.
    pub open spec fn snapshot(self) -> SnapshotView {
        SnapshotView {
            public: self.public,
            name: self.name,
            title: self.title,
            video_state: self.video_state,
            admins: self.admins,
            viewers: names_of(self.viewers),
            chat: self.chat,
        }
    }

    /// What a command that only admins may give does to the room when an admin gives it.
    pub open spec fn controlled(self, caller: Seq<char>, cmd: CommandView) -> RoomView {
        match cmd {
            CommandView::Stop => RoomView { video_state: VideoStateView::NoVideo, ..self },
            CommandView::Pause(movie, position) => RoomView {
                video_state: VideoStateView::Video(movie, PlayingState::Paused(position)),
                ..self
            },
            CommandView::Play(movie, start) => RoomView {
                video_state: VideoStateView::Video(movie, PlayingState::Playing(start)),
                ..self
            },
            CommandView::Admin(user) => if self.admins.contains(user) {
                self
            } else {
                RoomView { admins: self.admins.push(user), ..self }
            },
            CommandView::Unadmin(user) => if user == caller {
                self
            } else {
                RoomView { admins: self.admins.filter(other_than(user)), ..self }
            },
            CommandView::Title(title) => RoomView { title, ..self },
            CommandView::Public(public) => RoomView { public, ..self },
            CommandView::Chat(_) => self,
        }
    }

    /// What `cmd`, given by `caller` at `now`, does to the room before it is published.
    ///
    /// Anyone may chat. Everything else takes an admin; from anyone else it changes nothing.
    pub open spec fn applied(self, caller: Seq<char>, cmd: CommandView, now: Instant) -> RoomView {
        match cmd {
            CommandView::Chat(message) => self.said(caller, message, now),
            _ => if self.is_admin(caller) {
                self.controlled(caller, cmd)
            } else {
                self
            },
        }
    }

    /// Whether `cmd` cannot be carried out at `now`: a chat line needs a timestamp.
    pub open spec fn refuses(cmd: CommandView, now: Instant) -> bool {
        cmd is Chat && !now.is_timestamp()
    }

    /// The room after `caller` gave `cmd` at `now`.
    ///
    /// A command that is carried out, allowed or not, ends with the room published.
    pub open spec fn after_command(self, caller: Seq<char>, cmd: CommandView, now: Instant)
        -> RoomView {
        if Self::refuses(cmd, now) {
            self
        } else {
            self.applied(caller, cmd, now).synced(now)
        }
    }

    /// The room after `login` arrived at `now`. Nothing changes when `now` lies before the epoch.
    pub open spec fn joined(self, login: LoginView, now: Instant) -> RoomView {
        if now.is_timestamp() {
            let greeted = self.said(system_user(), connected_notice(login.user), now);
            RoomView {
                viewers: self.viewers.push(ViewerView { name: login.user, sess: login.sess }),
                last_activity: now,
                ..greeted
            }
        } else {
            self
        }
    }

    /// The room after the connection of `login` went away at `now`.
    ///
    /// The viewer leaves in any case; the notice and the publishing need a timestamp.
    pub open spec fn left(self, login: LoginView, now: Instant) -> RoomView {
        let emptied = RoomView { viewers: without_session(self.viewers, login.sess), ..self };
        if now.is_timestamp() {
            emptied.said(system_user(), disconnected_notice(login.user), now).synced(now)
        } else {
            emptied
        }
    }
}

/// Whether `name` is among `names`.
fn holds_name(names: &Vec<String>, name: &String) -> (found: bool)
    ensures
        found == names.deep_view().contains(name@),
{
    let mut at: usize = 0;
    while at < names.len()
        invariant
            at <= names.len(),
            forall|k: int| 0 <= k < at ==> names.deep_view()[k] != name@,
        decreases names.len() - at,
    {
        if names[at] == *name {
            assert(names.deep_view()[at as int] == name@);
            return true;
        }
        at += 1;
    }
    false
}

/// A copy of `names`.
fn copy_names(names: &Vec<String>) -> (copy: Vec<String>)
    ensures
        copy.deep_view() == names.deep_view(),
{
    let mut copy: Vec<String> = Vec::new();
    let mut at: usize = 0;
    while at < names.len()
        invariant
            at <= names.len(),
            copy.deep_view() == names.deep_view().take(at as int),
        decreases names.len() - at,
    {
        assert(names.deep_view().take(at + 1) =~= names.deep_view().take(at as int).push(
            names.deep_view()[at as int],
        ));
        copy.push(names[at].clone());
        at += 1;
        assert(copy.deep_view() =~= names.deep_view().take(at as int));
    }
    assert(names.deep_view().take(at as int) =~= names.deep_view());
    copy
}

/// `names` without any that equals `name`.
fn without_name(names: &Vec<String>, name: &String) -> (kept: Vec<String>)
    ensures
        kept.deep_view() == names.deep_view().filter(other_than(name@)),
{
    let mut kept: Vec<String> = Vec::new();
    let mut at: usize = 0;
    assert(kept.deep_view() =~= names.deep_view().take(0).filter(other_than(name@))) by {
        reveal(Seq::filter);
    }
    while at < names.len()
        invariant
            at <= names.len(),
            kept.deep_view() == names.deep_view().take(at as int).filter(other_than(name@)),
        decreases names.len() - at,
    {
        proof {
            let seen = names.deep_view().take(at as int);
            assert(names.deep_view().take(at + 1) =~= seen.push(names.deep_view()[at as int]));
            seen.lemma_filter_push(names.deep_view()[at as int], other_than(name@));
        }
        if names[at] != *name {
            kept.push(names[at].clone());
            assert(kept.deep_view() =~= names.deep_view().take(at + 1).filter(
                other_than(name@),
            ));
        }
        at += 1;
    }
    assert(names.deep_view().take(at as int) =~= names.deep_view());
    kept
}

/// The names of `viewers`.
fn viewer_names(viewers: &Vec<Viewer>) -> (names: Vec<String>)
    ensures
        names.deep_view() == names_of(viewers.deep_view()),
{
    let mut names: Vec<String> = Vec::new();
    let mut at: usize = 0;
    while at < viewers.len()
        invariant
            at <= viewers.len(),
            names.deep_view() == names_of(viewers.deep_view()).take(at as int),
        decreases viewers.len() - at,
    {
        assert(names_of(viewers.deep_view()).take(at + 1) =~= names_of(
            viewers.deep_view(),
        ).take(at as int).push(viewers.deep_view()[at as int].name));
        names.push(viewers[at].name.clone());
        at += 1;
        assert(names.deep_view() =~= names_of(viewers.deep_view()).take(at as int));
    }
    assert(names_of(viewers.deep_view()).take(at as int) =~= names_of(viewers.deep_view()));
    names
}

/// A copy of `lines`.
fn copy_chat(lines: &Vec<ChatMessage>) -> (copy: Vec<ChatMessage>)
    ensures
        copy.deep_view() == lines.deep_view(),
{
    let mut copy: Vec<ChatMessage> = Vec::new();
    let mut at: usize = 0;
    while at < lines.len()
        invariant
            at <= lines.len(),
            copy.deep_view() == lines.deep_view().take(at as int),
        decreases lines.len() - at,
    {
        let line = &lines[at];
        assert(lines.deep_view().take(at + 1) =~= lines.deep_view().take(at as int).push(
            lines.deep_view()[at as int],
        ));
        copy.push(
            ChatMessage {
                absolute_timestamp: line.absolute_timestamp,
                user: line.user.clone(),
                message: line.message.clone(),
            },
        );
        at += 1;
        assert(copy.deep_view() =~= lines.deep_view().take(at as int));
    }
    assert(lines.deep_view().take(at as int) =~= lines.deep_view());
    copy
}

/// Where the first of `viewers` connected as `sess` stands.
fn find_session(viewers: &Vec<Viewer>, sess: &String) -> (found: Option<usize>)
    ensures
        match found {
            Some(at) => sessions_of(viewers.deep_view()).index_of_first(sess@) == Some(at as int)
                && at < viewers.len(),
            None => sessions_of(viewers.deep_view()).index_of_first(sess@) == None::<int>,
        },
{
    let ghost sessions = sessions_of(viewers.deep_view());
    let mut at: usize = 0;
    while at < viewers.len()
        invariant
            at <= viewers.len(),
            sessions == sessions_of(viewers.deep_view()),
            forall|k: int| 0 <= k < at ==> sessions[k] != sess@,
        decreases viewers.len() - at,
    {
        if viewers[at].sess == *sess {
            proof {
                assert(sessions[at as int] == sess@);
                sessions.index_of_first_ensures(sess@);
            }
            return Some(at);
        }
        at += 1;
    }
    proof {
        sessions.index_of_first_ensures(sess@);
    }
    None
}

impl VideoState {
    /// A copy of this state.
    pub fn duplicate(&self) -> (copy: VideoState)
        ensures
            copy@ == self@,
    {
        match self {
            VideoState::NoVideo => VideoState::NoVideo,
            VideoState::Video(movie, playing) => VideoState::Video(movie.clone(), *playing),
        }
    }
}

impl Room {
    /// A room named `name`, created by `user` at `now`.
    pub fn new_at(name: String, user: String, now: Instant) -> (room: Room)
        ensures
            room@ == RoomView::created(name@, user@, now),
            room@.well_formed(),
    {
        proof {
            law_new_rooms_are_well_formed(name@, user@, now);
        }
        let mut title = user.clone();
        title.append("'s Room");
        let mut admins: Vec<String> = Vec::new();
        admins.push(user);
        let room = Room {
            public: true,
            name,
            title,
            video_state: VideoState::NoVideo,
            admins,
            viewers: Vec::new(),
            chat: Vec::new(),
            last_activity: now,
        };
        assert(room.admins.deep_view() =~= seq![user@]);
        assert(room.viewers.deep_view() =~= Seq::empty());
        assert(room.chat.deep_view() =~= Seq::empty());
        room
    }

    /// A room named `name`, created by `user` now.
    pub fn new(name: String, user: String) -> (room: Room)
        ensures
            exists|now: Instant| room@ == RoomView::created(name@, user@, now),
            room@.well_formed(),
    {
        let now = Instant::now();
        let room = Room::new_at(name, user, now);
        assert(room@ == RoomView::created(name@, user@, now));
        room
    }

    /// What is published of the room.
    pub fn snapshot(&self) -> (snap: Snapshot)
        ensures
            snap@ == self@.snapshot(),
    {
        Snapshot {
            public: self.public,
            name: self.name.clone(),
            title: self.title.clone(),
            video_state: self.video_state.duplicate(),
            admins: copy_names(&self.admins),
            viewers: viewer_names(&self.viewers),
            chat: copy_chat(&self.chat),
        }
    }

    /// Whether `user` may control the room.
    pub fn is_admin(&self, user: &String) -> (yes: bool)
        ensures
            yes == self@.is_admin(user@),
    {
        holds_name(&self.admins, user)
    }

    /// What [`Room::chat_at`] leaves behind: one more line, or, at a time
    /// before the epoch, a failure and the room as it was.
    pub open spec fn chat_outcome(
        before: RoomView,
        after: RoomView,
        said: Result<(), ClockError>,
        user: Seq<char>,
        message: Seq<char>,
        now: Instant,
    ) -> bool {
        if now.is_timestamp() {
            said is Ok && after == before.said(user, message, now)
        } else {
            said == Err::<(), ClockError>(ClockError::BeforeEpoch) && after == before
        }
    }

    /// Appends what `user` said at `now` to the conversation.
    ///
    /// Fails, leaving the room as it was, when `now` lies before the epoch.
    pub fn chat_at(&mut self, user: &String, message: &String, now: Instant) -> (said: Result<
        (),
        ClockError,
    >)
        ensures
            Room::chat_outcome(old(self)@, final(self)@, said, user@, message@, now),
    {
        if !now.is_timestamp() {
            return Err(ClockError::BeforeEpoch);
        }
        self.chat.push(
            ChatMessage { absolute_timestamp: now, user: user.clone(), message: message.clone() },
        );
        assert(self.chat.deep_view() =~= old(self).chat.deep_view().push(
            ChatMessageView { absolute_timestamp: now, user: user@, message: message@ },
        ));
        Ok(())
    }

    /// Appends what `user` says now to the conversation.
    pub fn chat(&mut self, user: &String, message: &String) -> (said: Result<(), ClockError>)
        ensures
            exists|now: Instant|
                Room::chat_outcome(old(self)@, final(self)@, said, user@, message@, now),
    {
        let now = Instant::now();
        let said = self.chat_at(user, message, now);
        assert(Room::chat_outcome(old(self)@, self@, said, user@, message@, now));
        said
    }

    /// Marks the room as published at `now` and hands out what is to be published.
    pub fn sync_at(&mut self, now: Instant) -> (snap: Snapshot)
        ensures
            final(self)@ == old(self)@.synced(now),
            snap@ == final(self)@.snapshot(),
    {
        self.last_activity = now;
        self.snapshot()
    }

    /// Marks the room as published now and hands out what is to be published.
    pub fn sync(&mut self) -> (snap: Snapshot)
        ensures
            exists|now: Instant| final(self)@ == old(self)@.synced(now),
            snap@ == final(self)@.snapshot(),
    {
        let now = Instant::now();
        let snap = self.sync_at(now);
        assert(self@ == old(self)@.synced(now));
        snap
    }

    /// What [`Room::command_at`] leaves behind and hands out.
    pub open spec fn command_outcome(
        before: RoomView,
        after: RoomView,
        published: Result<Snapshot, ClockError>,
        caller: Seq<char>,
        cmd: CommandView,
        now: Instant,
    ) -> bool {
        &&& after == before.after_command(caller, cmd, now)
        &&& match published {
            Ok(snap) => !RoomView::refuses(cmd, now) && snap@ == after.snapshot(),
            Err(why) => RoomView::refuses(cmd, now) && why == ClockError::BeforeEpoch,
        }
    }

    /// Carries out `cmd` for `login` at `now` and hands out what is to be published.
    ///
    /// Anyone may chat; all else is for admins, and from anyone else leaves the
    /// room as it is. Either way the room is marked as published at `now`. Only
    /// a chat line at a time before the epoch fails, and then nothing changes.
    pub fn command_at(&mut self, login: &LoginArgs, cmd: &Command, now: Instant) -> (published:
        Result<Snapshot, ClockError>)
        ensures
            Room::command_outcome(old(self)@, final(self)@, published, login.user@, cmd@, now),
            old(self)@.well_formed() ==> final(self)@.well_formed(),
    {
        proof {
            if old(self)@.well_formed() {
                law_commands_keep_rooms_well_formed(old(self)@, login.user@, cmd@, now);
            }
        }
        let is_admin = self.is_admin(&login.user);
        match (is_admin, cmd) {
            (_, Command::Chat(message)) => {
                self.chat_at(&login.user, message, now)?;
            },
            (true, Command::Stop) => {
                self.video_state = VideoState::NoVideo;
            },
            (true, Command::Pause(movie, position)) => {
                self.video_state = VideoState::Video(movie.clone(), PlayingState::Paused(*position));
            },
            (true, Command::Play(movie, start)) => {
                self.video_state = VideoState::Video(movie.clone(), PlayingState::Playing(*start));
            },
            (true, Command::Admin(user)) => {
                if !holds_name(&self.admins, user) {
                    self.admins.push(user.clone());
                    assert(self.admins.deep_view() =~= old(self).admins.deep_view().push(user@));
                }
            },
            (true, Command::Unadmin(user)) => {
                if login.user != *user {
                    self.admins = without_name(&self.admins, user);
                }
            },
            (true, Command::Title(title)) => {
                self.title = title.clone();
            },
            (true, Command::Public(public)) => {
                self.public = *public;
            },
            (false, _) => {},
        }
        Ok(self.sync_at(now))
    }

    /// Carries out `cmd` for `login` now and hands out what is to be published.
    pub fn command(&mut self, login: &LoginArgs, cmd: &Command) -> (published: Result<
        Snapshot,
        ClockError,
    >)
        ensures
            exists|now: Instant|
                Room::command_outcome(old(self)@, final(self)@, published, login.user@, cmd@, now),
            old(self)@.well_formed() ==> final(self)@.well_formed(),
    {
        let now = Instant::now();
        let published = self.command_at(login, cmd, now);
        assert(Room::command_outcome(old(self)@, self@, published, login.user@, cmd@, now));
        published
    }

    /// What [`Room::add_viewer_at`] leaves behind and hands out.
    pub open spec fn arrival_outcome(
        before: RoomView,
        after: RoomView,
        published: Result<Snapshot, ClockError>,
        login: LoginView,
        now: Instant,
    ) -> bool {
        &&& after == before.joined(login, now)
        &&& match published {
            Ok(snap) => now.is_timestamp() && snap@ == after.snapshot(),
            Err(why) => !now.is_timestamp() && why == ClockError::BeforeEpoch,
        }
    }

    /// Lets `login` in at `now`: the room says so, lists the viewer last, and is published.
    ///
    /// Fails, with nothing changed, when `now` lies before the epoch.
    pub fn add_viewer_at(&mut self, login: &LoginArgs, now: Instant) -> (published: Result<
        Snapshot,
        ClockError,
    >)
        ensures
            Room::arrival_outcome(old(self)@, final(self)@, published, login@, now),
            old(self)@.well_formed() ==> final(self)@.well_formed(),
            old(self)@.sessions_distinct() && !old(self)@.has_session(login.sess@)
                ==> final(self)@.sessions_distinct(),
    {
        proof {
            if old(self)@.well_formed() {
                law_coming_and_going_keeps_rooms_well_formed(old(self)@, login@, now);
            }
            if old(self)@.sessions_distinct() {
                law_connections_stay_distinct(old(self)@, login@, now);
            }
        }
        let mut notice = login.user.clone();
        notice.append(" connected");
        self.chat_at(&"system".to_owned(), &notice, now)?;
        self.viewers.push(Viewer { name: login.user.clone(), sess: login.sess.clone() });
        assert(self.viewers.deep_view() =~= old(self).viewers.deep_view().push(
            ViewerView { name: login.user@, sess: login.sess@ },
        ));
        Ok(self.sync_at(now))
    }

    /// Lets `login` in now.
    pub fn add_viewer(&mut self, login: &LoginArgs) -> (published: Result<Snapshot, ClockError>)
        ensures
            exists|now: Instant|
                Room::arrival_outcome(old(self)@, final(self)@, published, login@, now),
            old(self)@.well_formed() ==> final(self)@.well_formed(),
            old(self)@.sessions_distinct() && !old(self)@.has_session(login.sess@)
                ==> final(self)@.sessions_distinct(),
    {
        let now = Instant::now();
        let published = self.add_viewer_at(login, now);
        assert(Room::arrival_outcome(old(self)@, self@, published, login@, now));
        published
    }

    /// What [`Room::remove_viewer_at`] leaves behind and hands out.
    pub open spec fn departure_outcome(
        before: RoomView,
        after: RoomView,
        published: Result<Snapshot, ClockError>,
        login: LoginView,
        now: Instant,
    ) -> bool {
        &&& after == before.left(login, now)
        &&& match published {
            Ok(snap) => now.is_timestamp() && snap@ == after.snapshot(),
            Err(why) => !now.is_timestamp() && why == ClockError::BeforeEpoch,
        }
    }

    /// Sees the connection of `login` off at `now`: the first viewer listed with
    /// that connection goes, the room says so, and is published.
    ///
    /// When `now` lies before the epoch the viewer still goes, but nothing is
    /// said or published and the call fails.
    pub fn remove_viewer_at(&mut self, login: &LoginArgs, now: Instant) -> (published: Result<
        Snapshot,
        ClockError,
    >)
        ensures
            Room::departure_outcome(old(self)@, final(self)@, published, login@, now),
            old(self)@.well_formed() ==> final(self)@.well_formed(),
            old(self)@.sessions_distinct() ==> final(self)@.sessions_distinct()
                && !final(self)@.has_session(login.sess@),
    {
        proof {
            if old(self)@.well_formed() {
                law_coming_and_going_keeps_rooms_well_formed(old(self)@, login@, now);
            }
            if old(self)@.sessions_distinct() {
                law_connections_stay_distinct(old(self)@, login@, now);
            }
        }
        match find_session(&self.viewers, &login.sess) {
            Some(at) => {
                self.viewers.remove(at);
                assert(self.viewers.deep_view() =~= old(self).viewers.deep_view().remove(
                    at as int,
                ));
            },
            None => {},
        }
        let mut notice = login.user.clone();
        notice.append(" disconnected");
        self.chat_at(&"system".to_owned(), &notice, now)?;
        Ok(self.sync_at(now))
    }

    /// Sees the connection of `login` off now.
    pub fn remove_viewer(&mut self, login: &LoginArgs) -> (published: Result<Snapshot, ClockError>)
        ensures
            exists|now: Instant|
                Room::departure_outcome(old(self)@, final(self)@, published, login@, now),
            old(self)@.well_formed() ==> final(self)@.well_formed(),
            old(self)@.sessions_distinct() ==> final(self)@.sessions_distinct()
                && !final(self)@.has_session(login.sess@),
    {
        let now = Instant::now();
        let published = self.remove_viewer_at(login, now);
        assert(Room::departure_outcome(old(self)@, self@, published, login@, now));
        published
    }
}

} // verus!
