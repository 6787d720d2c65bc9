//! The command loop of the console: what it does with each thing that the
//! terminal hands it.
//!
//! The caller reads the terminal and reports each read as a [`ReadOutcome`]
//! to [`poll_for_user_input`], which answers with the next state of the loop
//! and with what the caller is to do.

use vstd::prelude::*;

use crate::config::ANDREIS_LNURLP;
use crate::decode::{decode_result, text_of_bech32};
use crate::payment::{
    amount_msat_of, lnurlp, payment_start, PayAction, PayActionView, PayState,
};
use crate::words::{same_text, split_words, words};

verus! {

/// What the console says of a line that names no command.
pub const UNKNOWN_COMMAND: &'static str =
    "Unknown command. See \"help\" for available commands.";

/// What the command `help` prints.
pub const HELP_TEXT: &'static str = "  nodeinfo\n\n  stop";

/// What the console says when the read was interrupted.
pub const INTERRUPTED_NOTICE: &'static str = "CTRL-C";

/// What the console says at the end of the input.
pub const END_OF_INPUT_NOTICE: &'static str = "CTRL-D";

/// What the console puts before the description of a failed read.
pub const READ_ERROR_PREFIX: &'static str = "Error: ";

/// The state of the command loop.
#[derive(Clone, Copy, Debug, PartialEq, Eq, Structural)]
pub enum LoopState {
    /// The loop waits for the next line.
    AwaitingInput,
    /// The loop has ended.
    Terminated,
}

/// What a read of the terminal gave.
#[derive(Clone, Debug, PartialEq, Eq)]
pub enum ReadOutcome {
    /// A line of text.
    Line(String),
    /// The read was interrupted.
    Interrupted,
    /// The input has ended.
    Eof,
    /// The read failed; the text describes the failure.
    Failed(String),
}

/// A command of the console.
#[derive(Clone, Copy, Debug, PartialEq, Eq, Structural)]
pub enum Command {
    /// `help`: print the list of commands.
    Help,
    /// `nodeinfo`: print the identity of the node.
    NodeInfo,
    /// `stop`: leave the loop.
    Stop,
    /// `lnurlp`: pay the LNURL.
    Lnurlp,
    /// Any other word.
    Unknown,
}

/// What the caller is to do after a read.
#[derive(Debug, PartialEq, Eq)]
pub enum Action {
    /// Nothing.
    Nothing,
    /// Print this text.
    Print(String),
    /// Print this text as a warning.
    Warn(String),
    /// Carry out a payment that is in `state` and asks for `action` first.
    Pay { state: PayState, action: PayAction },
}

/// An `Action` as a mathematical value.
pub enum ActionView {
    Nothing,
    Print(Seq<char>),
    Warn(Seq<char>),
    Pay { state: PayState, action: PayActionView },
}

impl View for Action {
    type V = ActionView;

    open spec fn view(&self) -> ActionView {
        match self {
            Action::Nothing => ActionView::Nothing,
            Action::Print(text) => ActionView::Print(text@),
            Action::Warn(text) => ActionView::Warn(text@),
            Action::Pay { state, action } => ActionView::Pay { state: *state, action: action@ },
        }
    }
}

/// Whether `word` is the name of a command.
pub open spec fn is_command_name(word: Seq<char>) -> bool {
    word == "help"@ || word == "nodeinfo"@ || word == "stop"@ || word == "lnurlp"@
}

/// The command that `word` names.
pub open spec fn command_of(word: Seq<char>) -> Command {
    if word == "help"@ {
        Command::Help
    } else if word == "nodeinfo"@ {
        Command::NodeInfo
    } else if word == "stop"@ {
        Command::Stop
    } else if word == "lnurlp"@ {
        Command::Lnurlp
    } else {
        Command::Unknown
    }
}

/// The word after the first, where there is one.
pub open spec fn argument_of(ws: Seq<Seq<char>>) -> Option<Seq<char>> {
    if ws.len() > 1 {
        Some(ws[1])
    } else {
        None
    }
}

/// What the console does with the line `line`: the next state of the loop
/// and the action. A line without a word does nothing; the first word names
/// the command; `lnurlp` takes the word after it as the amount.
pub open spec fn line_reply(line: Seq<char>, node_id: Seq<char>) -> (LoopState, ActionView) {
    let ws = words(line);
    if ws.len() == 0 {
        (LoopState::AwaitingInput, ActionView::Nothing)
    } else {
        match command_of(ws[0]) {
            Command::Help => (LoopState::AwaitingInput, ActionView::Print(HELP_TEXT@)),
            Command::NodeInfo => (LoopState::AwaitingInput, ActionView::Print(node_id)),
            Command::Stop => (LoopState::Terminated, ActionView::Nothing),
            Command::Lnurlp => {
                let start = payment_start(
                    amount_msat_of(argument_of(ws)),
                    decode_result(ANDREIS_LNURLP@, text_of_bech32(ANDREIS_LNURLP@)),
                );
                (LoopState::AwaitingInput, ActionView::Pay { state: start.0, action: start.1 })
            },
            Command::Unknown => (LoopState::AwaitingInput, ActionView::Warn(UNKNOWN_COMMAND@)),
        }
    }
}

/// What the loop does in `state` with the read `input`: the next state and
/// the action. A read that gave no line ends the loop with a notice; a loop
/// that has ended does nothing more.
pub open spec fn console_next(state: LoopState, input: ReadOutcome, node_id: Seq<char>) -> (
    LoopState,
    ActionView,
) {
    match state {
        LoopState::Terminated => (LoopState::Terminated, ActionView::Nothing),
        LoopState::AwaitingInput => match input {
            ReadOutcome::Line(line) => line_reply(line@, node_id),
            ReadOutcome::Interrupted => (
                LoopState::Terminated,
                ActionView::Print(INTERRUPTED_NOTICE@),
            ),
            ReadOutcome::Eof => (LoopState::Terminated, ActionView::Print(END_OF_INPUT_NOTICE@)),
            ReadOutcome::Failed(detail) => (
                LoopState::Terminated,
                ActionView::Print(READ_ERROR_PREFIX@ + detail@),
            ),
        },
    }
}

/// Whether the action gives up with an error.
pub open spec fn raises_error(action: ActionView) -> bool {
    action matches ActionView::Pay { action: PayActionView::Abort(_), .. }
}

/// Whether the first word of `line` is `name`.
pub open spec fn first_word_is(line: Seq<char>, name: Seq<char>) -> bool {
    words(line).len() > 0 && words(line)[0] == name
}

/// The command names differ from each other.
pub proof fn lemma_command_names()
    ensures
        command_of("help"@) == Command::Help,
        command_of("nodeinfo"@) == Command::NodeInfo,
        command_of("stop"@) == Command::Stop,
        command_of("lnurlp"@) == Command::Lnurlp,
        forall|word: Seq<char>| !is_command_name(word) <==> command_of(word) == Command::Unknown,
{
    reveal_strlit("help");
    reveal_strlit("nodeinfo");
    reveal_strlit("stop");
    reveal_strlit("lnurlp");
    assert("help"@.len() == 4 && "stop"@.len() == 4);
    assert("nodeinfo"@.len() == 8 && "lnurlp"@.len() == 6);
    assert("help"@[0] == 'h' && "stop"@[0] == 's');
}

/// The loop ends when it is told to and at no other time: a loop that waits
/// for input ends exactly where the read gave no line or the first word of
/// the line is `stop`, and a loop that has ended stays so.
pub proof fn lemma_loop_ends_when_told(state: LoopState, input: ReadOutcome, node_id: Seq<char>)
    ensures
        state == LoopState::Terminated ==> console_next(state, input, node_id) == (
            LoopState::Terminated,
            ActionView::Nothing,
        ),
        state == LoopState::AwaitingInput ==> (console_next(state, input, node_id).0
            == LoopState::Terminated <==> (input matches ReadOutcome::Line(line)
            ==> first_word_is(line@, "stop"@))),
{
    lemma_command_names();
}

/// The text that the command `help` prints.
pub fn help() -> (r: String)
    ensures
        r@ == HELP_TEXT@,
{
    HELP_TEXT.to_owned()
}

/// The text that the command `nodeinfo` prints: the identity of the node as
/// it is.
pub fn node_info(node_id: &str) -> (r: String)
    ensures
        r@ == node_id@,
{
    node_id.to_owned()
}

/// Finds the command that `word` names.
pub fn parse_command(word: &str) -> (r: Command)
    ensures
        r == command_of(word@),
{
    if same_text(word, "help") {
        Command::Help
    } else if same_text(word, "nodeinfo") {
        Command::NodeInfo
    } else if same_text(word, "stop") {
        Command::Stop
    } else if same_text(word, "lnurlp") {
        Command::Lnurlp
    } else {
        Command::Unknown
    }
}

/// Carries out the command that `line` holds.
pub fn run_command(line: &str, node_id: &str) -> (r: (LoopState, Action))
    ensures
        (r.0, r.1@) == line_reply(line@, node_id@),
{
    let ws = split_words(line);
    if ws.len() == 0 {
        return (LoopState::AwaitingInput, Action::Nothing);
    }
    assert(ws.deep_view()[0] == ws[0]@);
    match parse_command(ws[0]) {
        Command::Help => (LoopState::AwaitingInput, Action::Print(help())),
        Command::NodeInfo => (LoopState::AwaitingInput, Action::Print(node_info(node_id))),
        Command::Stop => (LoopState::Terminated, Action::Nothing),
        Command::Lnurlp => {
            let amount: Option<&str> = if ws.len() > 1 {
                assert(ws.deep_view()[1] == ws[1]@);
                Some(ws[1])
            } else {
                None
            };
            let (state, action) = lnurlp(amount, ANDREIS_LNURLP);
            (LoopState::AwaitingInput, Action::Pay { state, action })
        },
        Command::Unknown => (LoopState::AwaitingInput, Action::Warn(UNKNOWN_COMMAND.to_owned())),
    }
}

/// One round of the command loop: decides what follows the read `input`.
///
/// A line is carried out as a command. A line whose first word names no
/// command draws a warning and the loop goes on. The command `stop` and the
/// end of the input end the loop, and neither gives up with an error. The
/// command `lnurlp` hands out a payment for the caller to carry out; one
/// that cannot start is handed out as a payment that gives up at once.
pub fn poll_for_user_input(state: LoopState, input: &ReadOutcome, node_id: &str) -> (r: (
    LoopState,
    Action,
))
    ensures
        (r.0, r.1@) == console_next(state, *input, node_id@),
        state == LoopState::AwaitingInput ==> (input matches ReadOutcome::Line(line)
            && words(line@).len() > 0 && !is_command_name(words(line@)[0]) ==> r.0
            == LoopState::AwaitingInput && r.1@ == ActionView::Warn(UNKNOWN_COMMAND@)),
        state == LoopState::AwaitingInput ==> (input matches ReadOutcome::Line(line)
            && first_word_is(line@, "stop"@) ==> r.0 == LoopState::Terminated && !raises_error(
            r.1@,
        )),
        state == LoopState::AwaitingInput && (input is Eof || input is Interrupted) ==> r.0
            == LoopState::Terminated && !raises_error(r.1@),
{
    proof {
        lemma_command_names();
    }
    match state {
        LoopState::Terminated => (LoopState::Terminated, Action::Nothing),
        LoopState::AwaitingInput => match input {
            ReadOutcome::Line(line) => run_command(line.as_str(), node_id),
            ReadOutcome::Interrupted => (
                LoopState::Terminated,
                Action::Print(INTERRUPTED_NOTICE.to_owned()),
            ),
            ReadOutcome::Eof => (
                LoopState::Terminated,
                Action::Print(END_OF_INPUT_NOTICE.to_owned()),
            ),
            ReadOutcome::Failed(detail) => {
                let mut text = READ_ERROR_PREFIX.to_owned();
                text.append(detail.as_str());
                (LoopState::Terminated, Action::Print(text))
            },
        },
    }
}

} // verus!
