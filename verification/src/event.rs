//! The data the router reads from an inbound interaction, and the data it
//! hands back: which collaborator to call and which response to send.

use vstd::prelude::*;

verus! {

/// The kind of an inbound platform interaction.
#[derive(Clone, Copy, Debug, PartialEq, Eq)]
pub enum InteractionKind {
    /// A protocol-level liveness probe from the platform.
    Ping,
    /// A user's slash-command invocation.
    ApplicationCommand,
    /// Any other interaction kind; the bot ignores these.
    Other,
}

/// The payload of a slash-command invocation: the command's name and, for
/// each option in order, its string value where it has one.
#[derive(Clone, Debug, PartialEq, Eq)]
pub struct CommandData {
    pub name: String,
    pub options: Vec<Option<String>>,
}

/// One inbound interaction, reduced to the plain values the router reads.
#[derive(Clone, Debug, PartialEq, Eq)]
pub struct InteractionEvent {
    pub kind: InteractionKind,
    /// The command payload, where the platform delivered one.
    pub command: Option<CommandData>,
    /// The invoking user's id taken from guild-member context, where present.
    pub member_user: Option<u64>,
    /// The invoking user's id taken from direct-message context, where present.
    pub user: Option<u64>,
}

/// A collaborator call the router asks for.
#[derive(Clone, Debug, PartialEq, Eq)]
pub enum Dispatch {
    /// Send the help direct message to the user with this id.
    Help { user: u64 },
    /// Set the invoking guild member's display color to this color.
    SetColor { color: String },
}

/// An interaction response the router asks for.
#[derive(Clone, Debug, PartialEq, Eq)]
pub enum Response {
    /// The protocol-level answer to a ping.
    Pong,
    /// A channel message with this text, shown where the command was used.
    Message { text: String },
}

/// Everything the bot does for one interaction: at most one collaborator
/// call and at most one response.
#[derive(Clone, Debug, PartialEq, Eq)]
pub struct Outcome {
    pub dispatch: Option<Dispatch>,
    pub response: Option<Response>,
}

/// Mathematical model of a command payload: texts as character sequences.
pub struct CommandDataView {
    pub name: Seq<char>,
    pub options: Seq<Option<Seq<char>>>,
}

/// Mathematical model of an inbound interaction.
pub struct InteractionEventView {
    pub kind: InteractionKind,
    pub command: Option<CommandDataView>,
    pub member_user: Option<u64>,
    pub user: Option<u64>,
}

/// Mathematical model of a collaborator call.
pub enum DispatchView {
    Help { user: u64 },
    SetColor { color: Seq<char> },
}

/// Mathematical model of an interaction response.
pub enum ResponseView {
    Pong,
    Message { text: Seq<char> },
}

/// Mathematical model of everything the bot does for one interaction.
pub struct OutcomeView {
    pub dispatch: Option<DispatchView>,
    pub response: Option<ResponseView>,
}

impl View for CommandData {
    type V = CommandDataView;

    open spec fn view(&self) -> CommandDataView {
        CommandDataView { name: self.name@, options: self.options.deep_view() }
    }
}

impl View for InteractionEvent {
    type V = InteractionEventView;

    open spec fn view(&self) -> InteractionEventView {
        InteractionEventView {
            kind: self.kind,
            command: match self.command {
                Some(c) => Some(c@),
                None => None,
            },
            member_user: self.member_user,
            user: self.user,
        }
    }
}

impl View for Dispatch {
    type V = DispatchView;

    open spec fn view(&self) -> DispatchView {
        match self {
            Dispatch::Help { user } => DispatchView::Help { user: *user },
            Dispatch::SetColor { color } => DispatchView::SetColor { color: color@ },
        }
    }
}

impl View for Response {
    type V = ResponseView;

    open spec fn view(&self) -> ResponseView {
        match self {
            Response::Pong => ResponseView::Pong,
            Response::Message { text } => ResponseView::Message { text: text@ },
        }
    }
}

impl View for Outcome {
    type V = OutcomeView;

    open spec fn view(&self) -> OutcomeView {
        OutcomeView {
            dispatch: match self.dispatch {
                Some(d) => Some(d@),
                None => None,
            },
            response: match self.response {
                Some(r) => Some(r@),
                None => None,
            },
        }
    }
}

} // verus!
