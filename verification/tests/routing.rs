use color_bot::event::{
    CommandData, Dispatch, InteractionEvent, InteractionKind, Outcome, Response,
};
use color_bot::handler::ColorBotHandler;

fn command(name: &str, options: Vec<Option<String>>) -> Option<CommandData> {
    Some(CommandData { name: name.to_string(), options })
}

fn event(
    kind: InteractionKind,
    command: Option<CommandData>,
    member_user: Option<u64>,
    user: Option<u64>,
) -> InteractionEvent {
    InteractionEvent { kind, command, member_user, user }
}

#[test]
fn ping_gets_pong() {
    let e = event(InteractionKind::Ping, None, None, None);
    let o = ColorBotHandler.route(&e);
    assert_eq!(o, Outcome { dispatch: None, response: Some(Response::Pong) });
}

#[test]
fn ping_with_stray_payload_still_pongs() {
    let e = event(InteractionKind::Ping, command("help", vec![]), Some(5), Some(9));
    let o = ColorBotHandler.route(&e);
    assert_eq!(o, Outcome { dispatch: None, response: Some(Response::Pong) });
}

#[test]
fn help_uses_member_context_first() {
    let e = event(InteractionKind::ApplicationCommand, command("help", vec![]), Some(5), Some(9));
    let o = ColorBotHandler.route(&e);
    assert_eq!(o.dispatch, Some(Dispatch::Help { user: 5 }));
    assert_eq!(
        o.response,
        Some(Response::Message { text: "Check your DMs \u{1f643}".to_string() })
    );
}

#[test]
fn help_falls_back_to_direct_user() {
    let e = event(InteractionKind::ApplicationCommand, command("help", vec![]), None, Some(9));
    let o = ColorBotHandler.route(&e);
    assert_eq!(o.dispatch, Some(Dispatch::Help { user: 9 }));
    assert_eq!(
        o.response,
        Some(Response::Message { text: "Check your DMs \u{1f643}".to_string() })
    );
}

#[test]
fn help_without_any_user_is_silent() {
    let e = event(InteractionKind::ApplicationCommand, command("help", vec![]), None, None);
    let o = ColorBotHandler.route(&e);
    assert_eq!(o, Outcome { dispatch: None, response: None });
}

#[test]
fn setcolor_in_guild_dispatches_once_and_acknowledges() {
    let e = event(
        InteractionKind::ApplicationCommand,
        command("setcolor", vec![Some("crimson".to_string())]),
        Some(5),
        None,
    );
    let o = ColorBotHandler.route(&e);
    assert_eq!(o.dispatch, Some(Dispatch::SetColor { color: "crimson".to_string() }));
    assert_eq!(
        o.response,
        Some(Response::Message { text: "Et voila! \u{1f643}".to_string() })
    );
}

#[test]
fn setcolor_uses_the_first_option() {
    let e = event(
        InteractionKind::ApplicationCommand,
        command("setcolor", vec![Some("red".to_string()), Some("blue".to_string())]),
        Some(5),
        None,
    );
    let o = ColorBotHandler.route(&e);
    assert_eq!(o.dispatch, Some(Dispatch::SetColor { color: "red".to_string() }));
}

#[test]
fn setcolor_in_dm_gets_guard_reply_and_no_dispatch() {
    let e = event(
        InteractionKind::ApplicationCommand,
        command("setcolor", vec![Some("crimson".to_string())]),
        None,
        Some(9),
    );
    let o = ColorBotHandler.route(&e);
    assert_eq!(o.dispatch, None);
    assert_eq!(
        o.response,
        Some(Response::Message {
            text: "Please use the /setcolor command on a specific server; it doesn't work in DMs \u{1f643}"
                .to_string()
        })
    );
}

#[test]
fn unknown_command_is_ignored() {
    let e = event(
        InteractionKind::ApplicationCommand,
        command("paint", vec![Some("crimson".to_string())]),
        Some(5),
        Some(9),
    );
    let o = ColorBotHandler.route(&e);
    assert_eq!(o, Outcome { dispatch: None, response: None });
}

#[test]
fn command_without_payload_is_ignored() {
    let e = event(InteractionKind::ApplicationCommand, None, Some(5), Some(9));
    let o = ColorBotHandler.route(&e);
    assert_eq!(o, Outcome { dispatch: None, response: None });
}

#[test]
fn other_interaction_kind_is_ignored() {
    let e = event(InteractionKind::Other, command("help", vec![]), Some(5), Some(9));
    let o = ColorBotHandler.route(&e);
    assert_eq!(o, Outcome { dispatch: None, response: None });
}
