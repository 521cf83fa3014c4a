//! Room state synchronisation for shared viewing sessions.
//!
//! A [`room::Room`] is the authoritative state of one session: who may control
//! playback, who is watching, what is playing and what was said. The
//! [`registry::RoomRegistry`] owns the rooms by name and [`reaper`] says when
//! an abandoned one may go. A [`session::ConnectionSession`] decides what one
//! connection does next, and [`encoder`] turns successive snapshots into what
//! is put on the wire. [`catalog`] orders the list of movies and [`clock`]
//! reads the time. What holds of all of it is proved in [`laws`].
//!
//! Every function is verified against a contract stated over the mathematical
//! views of the data. The few calls that leave the crate, to `std::time`,
//! `str::to_uppercase`, `serde_json` and `json_patch`, are made by private
//! functions whose contracts are taken on trust; each says so where it stands.

use vstd::prelude::*;

pub mod catalog;
pub mod clock;
pub mod encoder;
pub mod laws;
pub mod room;
pub mod reaper;
pub mod registry;
pub mod session;

verus! {

/// Who is connecting, to which room, over which connection.
#[derive(Clone, Debug, PartialEq, Eq)]
pub struct LoginArgs {
    /// The room's name.
    pub room: String,
    /// The name the participant goes by.
    pub user: String,
    /// Identifies this connection among those of the room.
    pub sess: String,
}

/// [`LoginArgs`] as sequences of characters.
pub struct LoginView {
    pub room: Seq<char>,
    pub user: Seq<char>,
    pub sess: Seq<char>,
}

impl View for LoginArgs {
    type V = LoginView;

    open spec fn view(&self) -> LoginView {
        LoginView { room: self.room@, user: self.user@, sess: self.sess@ }
    }
}

/// `text` in upper case, as `str::to_uppercase` gives it.
pub uninterp spec fn upper_cased(text: Seq<char>) -> Seq<char>;

/// `str::to_uppercase`: a new string that holds the upper-case equivalent of
/// `text`. It depends on the characters of `text` alone.
#[verifier::external_body]
fn to_upper_case(text: &String) -> (upper: String)
    ensures
        upper@ == upper_cased(text@),
{
    text.to_uppercase()
}

impl LoginArgs {
    /// The same login with the room's name in upper case: the form in which
    /// names are meant to reach the registry.
    pub fn normalized(self) -> (login: LoginArgs)
        ensures
            login@ == (LoginView { room: upper_cased(self.room@), ..self@ }),
    {
        LoginArgs { room: to_upper_case(&self.room), user: self.user, sess: self.sess }
    }
}

/// Where the server finds what it serves.
#[derive(Clone, Debug, PartialEq, Eq)]
pub struct Args {
    /// The directory that holds the movies.
    pub movies: String,
}

/// The directory the movies are looked for in when none is named.
pub open spec fn default_movies_dir() -> Seq<char> {
    "/data"@
}

impl Default for Args {
    fn default() -> (args: Args)
        ensures
            args.movies@ == default_movies_dir(),
    {
        Args { movies: "/data".to_owned() }
    }
}

} // verus!
