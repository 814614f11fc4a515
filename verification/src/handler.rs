//! The interaction router: inspects an interaction's kind and, for
//! slash-command invocations, its command name, and decides which
//! collaborator call and which response the interaction gets.

use vstd::pervasive::unreached;
use vstd::prelude::*;

use crate::event::{
    CommandData, CommandDataView, Dispatch, DispatchView, InteractionEvent, InteractionEventView,
    InteractionKind, Outcome, OutcomeView, Response, ResponseView,
};

verus! {

/// The name of the help command.
pub open spec fn help_name() -> Seq<char> {
    "help"@
}

/// The name of the color command.
pub open spec fn setcolor_name() -> Seq<char> {
    "setcolor"@
}

/// The acknowledgment sent after the help direct message went out.
pub open spec fn help_ack_text() -> Seq<char> {
    "Check your DMs 🙃"@
}

/// The acknowledgment sent after the member's color was set.
pub open spec fn color_ack_text() -> Seq<char> {
    "Et voila! 🙃"@
}

/// The guard reply for the color command used outside a guild.
pub open spec fn guild_only_text() -> Seq<char> {
    "Please use the /setcolor command on a specific server; it doesn't work in DMs 🙃"@
}

/// An outcome that neither calls a collaborator nor responds.
pub open spec fn ignored() -> OutcomeView {
    OutcomeView { dispatch: None, response: None }
}

/// The user a command is taken to come from: the one in guild-member
/// context when present, else the one in direct-message context.
pub open spec fn resolved_user(ev: InteractionEventView) -> Option<u64> {
    if ev.member_user is Some {
        ev.member_user
    } else {
        ev.user
    }
}

/// What the help command does: message the resolved user directly and
/// acknowledge in the channel; with no user to resolve, do nothing.
pub open spec fn help_outcome(ev: InteractionEventView) -> OutcomeView {
    match resolved_user(ev) {
        Some(u) => OutcomeView {
            dispatch: Some(DispatchView::Help { user: u }),
            response: Some(ResponseView::Message { text: help_ack_text() }),
        },
        None => ignored(),
    }
}

/// What the color command does: in a guild, set the member's color to the
/// first option's value and acknowledge; outside a guild, only send the
/// guard reply.
pub open spec fn setcolor_outcome(ev: InteractionEventView, c: CommandDataView) -> OutcomeView {
    if ev.member_user is Some {
        OutcomeView {
            dispatch: Some(DispatchView::SetColor { color: (c.options[0])->Some_0 }),
            response: Some(ResponseView::Message { text: color_ack_text() }),
        }
    } else {
        OutcomeView {
            dispatch: None,
            response: Some(ResponseView::Message { text: guild_only_text() }),
        }
    }
}

/// What a slash-command invocation does, by its command name; a name that
/// is neither of the two known names is ignored.
pub open spec fn command_outcome(ev: InteractionEventView, c: CommandDataView) -> OutcomeView {
    if c.name == help_name() {
        help_outcome(ev)
    } else if c.name == setcolor_name() {
        setcolor_outcome(ev, c)
    } else {
        ignored()
    }
}

/// What handling one interaction does, as a function of the event alone:
/// a ping gets a pong, a command invocation is routed by name, and
/// everything else is ignored.
pub open spec fn outcome_of(ev: InteractionEventView) -> OutcomeView {
    match ev.kind {
        InteractionKind::Ping => OutcomeView {
            dispatch: None,
            response: Some(ResponseView::Pong),
        },
        InteractionKind::ApplicationCommand => match ev.command {
            Some(c) => command_outcome(ev, c),
            None => ignored(),
        },
        InteractionKind::Other => ignored(),
    }
}

/// The color command, invoked in a guild, comes with its color option's
/// string value present: the platform registers the option as required,
/// and the router does not handle the degenerate payload.
pub open spec fn color_arg_present(ev: InteractionEventView) -> bool {
    (ev.kind is ApplicationCommand && ev.command is Some
        && (ev.command->Some_0).name == setcolor_name() && ev.member_user is Some)
        ==> ((ev.command->Some_0).options.len() > 0 && (ev.command->Some_0).options[0] is Some)
}

/// Compares a text of the event against a known name.
fn text_eq(a: &String, b: &str) -> (r: bool)
    ensures
        r == (a@ == b@),
{
    let b_owned: String = b.to_owned();
    *a == b_owned
}

/// The routing table of the bot.
pub struct ColorBotHandler;

impl ColorBotHandler {
    /// Decides, for one inbound interaction, which collaborator call and
    /// which response it gets.
    pub fn route(&self, event: &InteractionEvent) -> (o: Outcome)
        requires
            color_arg_present(event@),
        ensures
            o@ == outcome_of(event@),
    {
        match event.kind {
            InteractionKind::Ping => Outcome {
                dispatch: None,
                response: Some(Response::Pong),
            },
            InteractionKind::ApplicationCommand => match &event.command {
                Some(c) => route_command(event, c),
                None => Outcome { dispatch: None, response: None },
            },
            InteractionKind::Other => Outcome { dispatch: None, response: None },
        }
    }
}

/// Routes a slash-command invocation by its command name.
pub fn route_command(event: &InteractionEvent, command: &CommandData) -> (o: Outcome)
    requires
        (command@.name == setcolor_name() && event@.member_user is Some) ==> (
            command@.options.len() > 0 && command@.options[0] is Some),
    ensures
        o@ == command_outcome(event@, command@),
{
    if text_eq(&command.name, "help") {
        route_help(event)
    } else if text_eq(&command.name, "setcolor") {
        route_setcolor(event, command)
    } else {
        Outcome { dispatch: None, response: None }
    }
}

/// Handles the help command: resolves the invoking user and asks for the
/// help direct message and the channel acknowledgment.
pub fn route_help(event: &InteractionEvent) -> (o: Outcome)
    ensures
        o@ == help_outcome(event@),
{
    let user: Option<u64> = match event.member_user {
        Some(u) => Some(u),
        None => event.user,
    };
    match user {
        Some(u) => Outcome {
            dispatch: Some(Dispatch::Help { user: u }),
            response: Some(Response::Message { text: "Check your DMs 🙃".to_owned() }),
        },
        None => Outcome { dispatch: None, response: None },
    }
}

/// Handles the color command: in a guild, asks for the color change and
/// the acknowledgment; outside a guild, only for the guard reply.
pub fn route_setcolor(event: &InteractionEvent, command: &CommandData) -> (o: Outcome)
    requires
        event@.member_user is Some ==> (command@.options.len() > 0
            && command@.options[0] is Some),
    ensures
        o@ == setcolor_outcome(event@, command@),
{
    match event.member_user {
        Some(_) => {
            let color: String = match &command.options[0] {
                Some(s) => s.clone(),
                None => unreached(),
            };
            Outcome {
                dispatch: Some(Dispatch::SetColor { color }),
                response: Some(Response::Message { text: "Et voila! 🙃".to_owned() }),
            }
        },
        None => Outcome {
            dispatch: None,
            response: Some(Response::Message {
                text: "Please use the /setcolor command on a specific server; it doesn't work in DMs 🙃".to_owned(),
            }),
        },
    }
}

/// A ping interaction receives exactly a pong: its one response is the
/// protocol-level pong, and no collaborator is called.
pub proof fn lemma_ping_gets_pong(ev: InteractionEventView)
    requires
        ev.kind is Ping,
    ensures
        outcome_of(ev).response == Some(ResponseView::Pong),
        outcome_of(ev).dispatch is None,
{
}

/// The help command resolves the user to message from guild-member context
/// when present, else from direct-message context; when neither is present
/// it calls no collaborator and sends no response.
pub proof fn lemma_help_resolves_user(ev: InteractionEventView)
    requires
        ev.kind is ApplicationCommand,
        ev.command is Some,
        (ev.command->Some_0).name == help_name(),
    ensures
        ev.member_user is Some ==> outcome_of(ev).dispatch == Some(DispatchView::Help {
            user: ev.member_user->Some_0,
        }),
        ev.member_user is None && ev.user is Some ==> outcome_of(ev).dispatch == Some(
            DispatchView::Help { user: ev.user->Some_0 },
        ),
        resolved_user(ev) is Some ==> outcome_of(ev).response == Some(ResponseView::Message {
            text: help_ack_text(),
        }),
        resolved_user(ev) is None ==> outcome_of(ev) == ignored(),
{
}

/// The color command, invoked with guild-member context and a color
/// argument, triggers exactly one collaborator call, carrying that
/// argument as the color, and exactly one acknowledgment reply.
pub proof fn lemma_setcolor_in_guild(ev: InteractionEventView)
    requires
        ev.kind is ApplicationCommand,
        ev.command is Some,
        (ev.command->Some_0).name == setcolor_name(),
        ev.member_user is Some,
        (ev.command->Some_0).options.len() > 0,
        ((ev.command->Some_0).options[0]) is Some,
    ensures
        outcome_of(ev).dispatch == Some(DispatchView::SetColor {
            color: ((ev.command->Some_0).options[0])->Some_0,
        }),
        outcome_of(ev).response == Some(ResponseView::Message { text: color_ack_text() }),
{
    reveal_strlit("help");
    reveal_strlit("setcolor");
    assert(help_name().len() == 4);
    assert(setcolor_name().len() == 8);
    assert(help_name() != setcolor_name());
}

/// The color command invoked without guild-member context never calls the
/// color-setting collaborator, and its one response is the guard reply
/// that the command only works in a guild.
pub proof fn lemma_setcolor_in_dm(ev: InteractionEventView)
    requires
        ev.kind is ApplicationCommand,
        ev.command is Some,
        (ev.command->Some_0).name == setcolor_name(),
        ev.member_user is None,
    ensures
        outcome_of(ev).dispatch is None,
        outcome_of(ev).response == Some(ResponseView::Message { text: guild_only_text() }),
{
    reveal_strlit("help");
    reveal_strlit("setcolor");
    assert(help_name().len() == 4);
    assert(setcolor_name().len() == 8);
    assert(help_name() != setcolor_name());
}

/// A command whose name is neither of the two known names produces no
/// collaborator call and no response.
pub proof fn lemma_unknown_command_ignored(ev: InteractionEventView)
    requires
        ev.kind is ApplicationCommand,
        ev.command is Some,
        (ev.command->Some_0).name != help_name(),
        (ev.command->Some_0).name != setcolor_name(),
    ensures
        outcome_of(ev) == ignored(),
{
}

/// An interaction of another kind, or a command invocation whose payload
/// the platform did not deliver, is ignored entirely.
pub proof fn lemma_other_ignored(ev: InteractionEventView)
    requires
        ev.kind is Other || (ev.kind is ApplicationCommand && ev.command is None),
    ensures
        outcome_of(ev) == ignored(),
{
}

} // verus!
