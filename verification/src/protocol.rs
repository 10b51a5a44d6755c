//! The documents that cross the boundary to the transport layer.

use crate::json::{member_views, JsonMember, JsonValue, JsonView, MemberView};
use crate::state::{command_of, SyncCommand};
use vstd::prelude::*;

verus! {

/// The answer to a poll: an object whose member `command` is the token of
/// the consumed command, or null where nothing was pending.
pub open spec fn poll_document(command: Option<SyncCommand>) -> JsonView {
    JsonView::Object(
        seq![
            MemberView {
                key: "command"@,
                value: match command {
                    Some(command) => JsonView::String(command.token()),
                    None => JsonView::Null,
                },
            },
        ],
    )
}

/// The acknowledgement of a request: an object whose member `success` is
/// true.
pub open spec fn acknowledgement_document() -> JsonView {
    JsonView::Object(seq![MemberView { key: "success"@, value: JsonView::Bool(true) }])
}

/// The command that a request submits: the request is a string, and the
/// string is a command's token.
pub open spec fn submitted_command(payload: JsonView) -> Option<SyncCommand> {
    match payload {
        JsonView::String(token) => command_of(token),
        _ => None,
    }
}

/// A document with the one member `key`.
fn single_member(key: &str, value: JsonValue) -> (document: JsonValue)
    ensures
        document@ == JsonView::Object(seq![MemberView { key: key@, value: value@ }]),
{
    let ghost expected = MemberView { key: key@, value: value@ };
    let member = JsonMember { key: key.to_owned(), value };
    let mut members: Vec<JsonMember> = Vec::new();
    members.push(member);
    assert(member_views(members@) =~= seq![expected]);
    JsonValue::Object(members)
}

/// The answer to a poll that consumed `command`.
pub fn poll_response(command: Option<SyncCommand>) -> (document: JsonValue)
    ensures
        document@ == poll_document(command),
{
    let value = match command {
        Some(command) => JsonValue::String(command.as_str().to_owned()),
        None => JsonValue::Null,
    };
    single_member("command", value)
}

/// The acknowledgement of a request.
pub fn acknowledgement() -> (document: JsonValue)
    ensures
        document@ == acknowledgement_document(),
{
    single_member("success", JsonValue::Bool(true))
}

/// Reads the command that a request submits.
pub fn read_command(payload: &JsonValue) -> (command: Option<SyncCommand>)
    ensures
        command == submitted_command(payload@),
{
    match payload.as_str() {
        Some(token) => SyncCommand::from_token(token),
        None => None,
    }
}

} // verus!
