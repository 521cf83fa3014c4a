//! What is put on the wire for a snapshot.
//!
//! The first snapshot a connection gets goes out whole. Every later one goes
//! out as the list of edits that turns the one sent before into it. Both are
//! JSON: the snapshots arrive here as `serde_json` documents, the edits are
//! computed by `json_patch`, and the texts are written by `serde_json`. Those
//! three steps are taken on trust; which of them is taken when, and what
//! becomes of a failure, is verified.
//!
//! What the edits are is for `json_patch` to say: this module names them and
//! proves nothing of them. In particular it does not prove that applying them
//! to the earlier snapshot gives the later one. `json_patch` takes numbers
//! that compare equal for the same, so a position that goes from `0.0` to
//! `-0.0` yields no edit, though the two are written differently.

use vstd::prelude::*;

verus! {

/// A JSON document. Nothing here looks inside one.
#[verifier::external_type_specification]
#[verifier::external_body]
pub struct ExDocument(serde_json::Value);

/// A list of edits. Nothing here looks inside one.
#[verifier::external_type_specification]
#[verifier::external_body]
pub struct ExPatch(json_patch::Patch);

/// One edit. No function here takes or returns one: the type is made known
/// because a list of edits hands itself out as a slice of them, and the
/// verifier wants every type that a known type mentions in that way.
#[verifier::external_type_specification]
#[verifier::external_body]
pub struct ExPatchOperation(json_patch::PatchOperation);

/// Why a text could not be written. Nothing here looks inside one.
#[verifier::external_type_specification]
#[verifier::external_body]
pub struct ExWriteError(serde_json::Error);

/// The compact JSON text of a document: members without spaces between them,
/// as `serde_json` writes them.
pub uninterp spec fn document_text(document: serde_json::Value) -> Seq<char>;

/// The compact JSON text of a list of edits: an array with one object for each.
pub uninterp spec fn patch_text(patch: json_patch::Patch) -> Seq<char>;

/// The text of the edits that `json_patch::diff` finds between the document
/// written as `previous` and the one written as `next`.
pub uninterp spec fn edits_between(previous: Seq<char>, next: Seq<char>) -> Seq<char>;

/// Whether `serde_json::to_string` succeeds on a value whose compact text is `text`.
pub uninterp spec fn can_write(text: Seq<char>) -> bool;

/// `json_patch::diff`: compares two documents member by member and returns
/// the edits that lead from the first to the second. The edits depend on the
/// two documents alone.
#[verifier::external_body]
fn compare_documents(previous: &serde_json::Value, next: &serde_json::Value) -> (patch:
    json_patch::Patch)
    ensures
        patch_text(patch) == edits_between(document_text(*previous), document_text(*next)),
{
    json_patch::diff(previous, next)
}

/// `serde_json::to_string` on a document. Whether it succeeds depends on the
/// document alone, and when it does, the string is the document's compact text.
#[verifier::external_body]
fn write_document(document: &serde_json::Value) -> (written: Result<String, serde_json::Error>)
    ensures
        match written {
            Ok(text) => can_write(document_text(*document)) && text@ == document_text(*document),
            Err(_) => !can_write(document_text(*document)),
        },
{
    serde_json::to_string(document)
}

/// `serde_json::to_string` on a list of edits. Whether it succeeds depends on
/// the list alone, and when it does, the string is the list's compact text.
#[verifier::external_body]
fn write_patch(patch: &json_patch::Patch) -> (written: Result<String, serde_json::Error>)
    ensures
        match written {
            Ok(text) => can_write(patch_text(*patch)) && text@ == patch_text(*patch),
            Err(_) => !can_write(patch_text(*patch)),
        },
{
    serde_json::to_string(patch)
}

/// One outgoing text frame.
#[derive(Clone, Debug, PartialEq, Eq)]
pub enum Message {
    /// A whole snapshot.
    Full(String),
    /// The edits that lead from the snapshot sent before to the new one.
    Patch(String),
}

/// [`Message`] as sequences of characters.
pub enum MessageView {
    Full(Seq<char>),
    Patch(Seq<char>),
}

impl View for Message {
    type V = MessageView;

    open spec fn view(&self) -> MessageView {
        match self {
            Message::Full(text) => MessageView::Full(text@),
            Message::Patch(text) => MessageView::Patch(text@),
        }
    }
}

/// Why nothing can be sent for a snapshot.
#[derive(Clone, Copy, Debug, PartialEq, Eq, Structural)]
pub enum EncodeError {
    /// The text could not be written.
    Write,
}

/// The text of the document last sent, if one was.
pub open spec fn sent_text(previous: Option<&serde_json::Value>) -> Option<Seq<char>> {
    match previous {
        Some(document) => Some(document_text(*document)),
        None => None,
    }
}

/// What goes out for the snapshot written as `next` after the one written as
/// `previous`: all of it if nothing went before, else the edits between the two.
pub open spec fn message_for(previous: Option<Seq<char>>, next: Seq<char>) -> MessageView {
    match previous {
        None => MessageView::Full(next),
        Some(sent) => MessageView::Patch(edits_between(sent, next)),
    }
}

/// The text that has to be written for the snapshot written as `next` after
/// the one written as `previous`: `next` itself if nothing went before, else
/// the edits between the two.
pub open spec fn frame_text(previous: Option<Seq<char>>, next: Seq<char>) -> Seq<char> {
    match previous {
        None => next,
        Some(sent) => edits_between(sent, next),
    }
}

/// What encoding the snapshot written as `next` after the one written as
/// `previous` gives: the frame of [`message_for`] where its text can be
/// written, and a failure to write where it cannot.
pub open spec fn encoding_of(previous: Option<Seq<char>>, next: Seq<char>) -> Result<
    MessageView,
    EncodeError,
> {
    if can_write(frame_text(previous, next)) {
        Ok(message_for(previous, next))
    } else {
        Err(EncodeError::Write)
    }
}

/// The frame for a whole snapshot, from what writing it gave.
pub fn frame_full(written: Result<String, serde_json::Error>) -> (framed: Result<
    Message,
    EncodeError,
>)
    ensures
        match written {
            Ok(text) => framed matches Ok(message) && message@ == MessageView::Full(text@),
            Err(_) => framed == Err::<Message, EncodeError>(EncodeError::Write),
        },
{
    match written {
        Ok(text) => Ok(Message::Full(text)),
        Err(_) => Err(EncodeError::Write),
    }
}

/// The frame for a list of edits, from what writing it gave.
pub fn frame_patch(written: Result<String, serde_json::Error>) -> (framed: Result<
    Message,
    EncodeError,
>)
    ensures
        match written {
            Ok(text) => framed matches Ok(message) && message@ == MessageView::Patch(text@),
            Err(_) => framed == Err::<Message, EncodeError>(EncodeError::Write),
        },
{
    match written {
        Ok(text) => Ok(Message::Patch(text)),
        Err(_) => Err(EncodeError::Write),
    }
}

/// What goes out for `next` on a connection that was last sent `previous`.
///
/// The answer depends on the two snapshots alone and is [`encoding_of`] their
/// texts: the first snapshot whole, every later one as edits, and a failure
/// exactly where `serde_json` cannot write the frame's text.
pub fn diff(previous: Option<&serde_json::Value>, next: &serde_json::Value) -> (encoded: Result<
    Message,
    EncodeError,
>)
    ensures
        match encoded {
            Ok(message) => encoding_of(sent_text(previous), document_text(*next)) == Ok::<
                MessageView,
                EncodeError,
            >(message@),
            Err(why) => encoding_of(sent_text(previous), document_text(*next)) == Err::<
                MessageView,
                EncodeError,
            >(why),
        },
{
    match previous {
        None => frame_full(write_document(next)),
        Some(sent) => {
            let patch = compare_documents(sent, next);
            frame_patch(write_patch(&patch))
        },
    }
}

} // verus!
