use session_bot::commands::interaction_handler::{
    command_key, message_key, parse_index, register_handler, CommandKind, DispatchOutcome,
    EventKey, Handler, InteractionHandler, InteractionMap, MessageKind,
};
use session_bot::commands::endhost::EndHost;
use session_bot::commands::hostgame::{ButtonMaybe, ButtonNo, ButtonYes, HostGame};
use session_bot::commands::status::Status;

fn full_map() -> InteractionMap {
    let mut map = InteractionMap::new();
    register_handler(&mut map, Handler::Command(CommandKind::HostGame));
    register_handler(&mut map, Handler::Command(CommandKind::EndHost));
    register_handler(&mut map, Handler::Command(CommandKind::Status));
    register_handler(&mut map, Handler::Message(MessageKind::RsvpYes));
    register_handler(&mut map, Handler::Message(MessageKind::EndHostYes));
    map
}

#[test]
fn dispatches_commands_by_name() {
    let map = full_map();
    assert_eq!(
        map.dispatch(&EventKey::Command("hostgame".to_string())),
        DispatchOutcome::RunCommand(CommandKind::HostGame)
    );
    assert_eq!(
        map.dispatch(&EventKey::Command("status".to_string())),
        DispatchOutcome::RunCommand(CommandKind::Status)
    );
}

#[test]
fn dispatches_components_by_custom_id() {
    let map = full_map();
    assert_eq!(
        map.dispatch(&EventKey::Component("button-yes".to_string())),
        DispatchOutcome::RunMessage(MessageKind::RsvpYes)
    );
    assert_eq!(
        map.dispatch(&EventKey::Component("endhost-yes".to_string())),
        DispatchOutcome::RunMessage(MessageKind::EndHostYes)
    );
}

#[test]
fn unregistered_key_is_a_miss() {
    // Dispatching an unknown key never raises and mutates nothing: the same
    // lookup gives the same answers before and after.
    let map = full_map();
    assert_eq!(
        map.dispatch(&EventKey::Command("no-such-command".to_string())),
        DispatchOutcome::Miss
    );
    assert_eq!(
        map.dispatch(&EventKey::Component("no-such-control".to_string())),
        DispatchOutcome::Miss
    );
    assert_eq!(
        map.dispatch(&EventKey::Command("hostgame".to_string())),
        DispatchOutcome::RunCommand(CommandKind::HostGame)
    );
}

#[test]
fn kind_mismatch_is_a_miss() {
    let map = full_map();
    assert_eq!(
        map.dispatch(&EventKey::Component("hostgame".to_string())),
        DispatchOutcome::Miss
    );
    assert_eq!(
        map.dispatch(&EventKey::Command("button-yes".to_string())),
        DispatchOutcome::Miss
    );
}

#[test]
fn ping_events_are_unsupported() {
    let map = full_map();
    assert_eq!(map.dispatch(&EventKey::Ping), DispatchOutcome::Unsupported);
}

#[test]
fn empty_map_misses_everything() {
    let map = InteractionMap::new();
    assert_eq!(
        map.dispatch(&EventKey::Command("hostgame".to_string())),
        DispatchOutcome::Miss
    );
}

#[test]
fn reregistration_overwrites() {
    let mut map = InteractionMap::new();
    map.register("shared-key".to_string(), Handler::Command(CommandKind::Ping));
    map.register("shared-key".to_string(), Handler::Message(MessageKind::HelpPages));
    assert_eq!(
        map.dispatch(&EventKey::Command("shared-key".to_string())),
        DispatchOutcome::Miss
    );
    assert_eq!(
        map.dispatch(&EventKey::Component("shared-key".to_string())),
        DispatchOutcome::RunMessage(MessageKind::HelpPages)
    );
}

#[test]
fn handler_names_match_their_registry_keys() {
    assert_eq!(HostGame.name(), "hostgame");
    assert_eq!(EndHost.name(), "endhost");
    assert_eq!(Status.name(), "status");
    assert_eq!(ButtonYes.name(), "button-yes");
    assert_eq!(ButtonMaybe.name(), "button-maybe");
    assert_eq!(ButtonNo.name(), "button-no");
    assert_eq!(command_key(CommandKind::HostGame), "hostgame");
    assert_eq!(command_key(CommandKind::AllRoles), "allroles");
    assert_eq!(message_key(MessageKind::ColorsMenu), "colorroles-dropdown");
    assert_eq!(message_key(MessageKind::RolesMenu), "roles-dropdown");
}

#[test]
fn index_parsing_accepts_plain_digits() {
    assert_eq!(parse_index("0"), Some(0));
    assert_eq!(parse_index("7"), Some(7));
    assert_eq!(parse_index("42"), Some(42));
    assert_eq!(parse_index("999999"), Some(999999));
    assert_eq!(parse_index("007"), Some(7));
}

#[test]
fn index_parsing_rejects_forged_values() {
    assert_eq!(parse_index(""), None);
    assert_eq!(parse_index("-1"), None);
    assert_eq!(parse_index("1e3"), None);
    assert_eq!(parse_index("12.5"), None);
    assert_eq!(parse_index("1234567"), None);
    assert_eq!(parse_index("seven"), None);
}
