//! The command mailbox: one slot that holds at most one pending command.

use crate::text::same;
use vstd::prelude::*;

verus! {

/// A synchronisation request that the editor-side agent picks up.
#[derive(Debug, Clone, Copy, PartialEq, Eq, Structural)]
pub enum SyncCommand {
    Import,
    Export,
    Sourcemap,
}

/// The command that a token of the wire form stands for.
pub open spec fn command_of(token: Seq<char>) -> Option<SyncCommand> {
    if token == "import"@ {
        Some(SyncCommand::Import)
    } else if token == "export"@ {
        Some(SyncCommand::Export)
    } else if token == "sourcemap"@ {
        Some(SyncCommand::Sourcemap)
    } else {
        None
    }
}

impl SyncCommand {
    /// The token that stands for the command on the wire: its name in lower
    /// case.
    pub open spec fn token(self) -> Seq<char> {
        match self {
            SyncCommand::Import => "import"@,
            SyncCommand::Export => "export"@,
            SyncCommand::Sourcemap => "sourcemap"@,
        }
    }

    /// The token that stands for the command on the wire.
    pub fn as_str(&self) -> (token: &'static str)
        ensures
            token@ == self.token(),
    {
        match self {
            SyncCommand::Import => "import",
            SyncCommand::Export => "export",
            SyncCommand::Sourcemap => "sourcemap",
        }
    }

    /// The command that `token` stands for; `None` for any other text.
    pub fn from_token(token: &str) -> (command: Option<SyncCommand>)
        ensures
            command == command_of(token@),
    {
        if same(token, "import") {
            Some(SyncCommand::Import)
        } else if same(token, "export") {
            Some(SyncCommand::Export)
        } else if same(token, "sourcemap") {
            Some(SyncCommand::Sourcemap)
        } else {
            None
        }
    }
}

/// Every command is read back from its own token, and a token is read as a
/// command only where it is that command's token.
pub proof fn lemma_token_round_trip(command: SyncCommand, token: Seq<char>)
    ensures
        command_of(command.token()) == Some(command),
        command_of(token) == Some(command) <==> token == command.token(),
{
    reveal_strlit("import");
    reveal_strlit("export");
    reveal_strlit("sourcemap");
    assert("import"@[0] != "export"@[0]);
}

/// What the slot holds after `command` was submitted: the new command,
/// whatever was pending before.
pub open spec fn submitted(slot: Option<SyncCommand>, command: SyncCommand) -> Option<
    SyncCommand,
> {
    Some(command)
}

/// What a consumer receives from the slot.
pub open spec fn consumed(slot: Option<SyncCommand>) -> Option<SyncCommand> {
    slot
}

/// What the slot holds after it was consumed: nothing.
pub open spec fn drained(slot: Option<SyncCommand>) -> Option<SyncCommand> {
    None
}

/// Owner of the pending-command slot.
pub struct AppState {
    pending_command: Option<SyncCommand>,
}

impl View for AppState {
    type V = Option<SyncCommand>;

    closed spec fn view(&self) -> Option<SyncCommand> {
        self.pending_command
    }
}

impl AppState {
    /// A mailbox with nothing pending.
    pub fn new() -> (state: Self)
        ensures
            state@ == None::<SyncCommand>,
    {
        AppState { pending_command: None }
    }

    /// Sets the pending command, overwriting any command that was not yet
    /// consumed.
    pub fn set_command(&mut self, command: SyncCommand)
        ensures
            final(self)@ == submitted(old(self)@, command),
    {
        self.pending_command = Some(command);
    }

    /// Takes the pending command out of the slot and leaves the slot empty.
    pub fn pop_command(&mut self) -> (command: Option<SyncCommand>)
        ensures
            command == consumed(old(self)@),
            final(self)@ == drained(old(self)@),
    {
        self.pending_command.take()
    }
}

/// A submitted command is what the next consumer receives, whatever was
/// pending before, and the consumer after that receives nothing.
pub proof fn lemma_consume_returns_submitted(slot: Option<SyncCommand>, command: SyncCommand)
    ensures
        consumed(submitted(slot, command)) == Some(command),
        consumed(drained(submitted(slot, command))) == None::<SyncCommand>,
{
}

/// Of two commands submitted in a row only the second is ever received: the
/// first is lost.
pub proof fn lemma_last_submission_wins(
    slot: Option<SyncCommand>,
    first: SyncCommand,
    second: SyncCommand,
)
    ensures
        consumed(submitted(submitted(slot, first), second)) == Some(second),
        consumed(drained(submitted(submitted(slot, first), second))) == None::<SyncCommand>,
{
}

/// Once consumed, a slot yields nothing until the next submission: consuming
/// again receives nothing and leaves the slot as it is.
pub proof fn lemma_drained_slot_stays_empty(slot: Option<SyncCommand>)
    ensures
        consumed(drained(slot)) == None::<SyncCommand>,
        drained(drained(slot)) == drained(slot),
{
}

impl Default for AppState {
    fn default() -> (state: Self)
        ensures
            state@ == None::<SyncCommand>,
    {
        AppState::new()
    }
}

} // verus!
