use session_bot::commands::allroles::missing_game_roles;
use session_bot::commands::colors::{color_roles_owned, current_color_role, select_color_role};
use session_bot::commands::help::{select_help_page, HelpPage};
use session_bot::commands::prelude::{presence_for, PresenceStatus};
use session_bot::commands::roles::{plan_role_toggle, select_game_role, RoleToggle};
use session_bot::config::{find_game_for_channel, is_admin, Config, Game};
use session_bot::embed::{Embed, EmbedSection};
use session_bot::scheduler::SchedulerPhase;
use session_bot::session::{Session, SessionStore};

fn games() -> Vec<Game> {
    vec![
        Game { name: "Chess".to_string(), channel_id: 5, role_id: 9 },
        Game { name: "Go".to_string(), channel_id: 6, role_id: 10 },
        Game { name: "Shogi".to_string(), channel_id: 7, role_id: 11 },
    ]
}

fn empty_embed(title: &str) -> Embed {
    Embed {
        title: title.to_string(),
        colour: 0,
        description: None,
        image: None,
        sections: vec![],
    }
}

#[test]
fn finds_the_game_for_a_channel() {
    assert_eq!(find_game_for_channel(&games(), 6), Some(1));
    assert_eq!(find_game_for_channel(&games(), 5), Some(0));
    assert_eq!(find_game_for_channel(&games(), 999), None);
}

#[test]
fn first_matching_game_wins() {
    let mut gs = games();
    gs.push(Game { name: "Chess II".to_string(), channel_id: 5, role_id: 12 });
    assert_eq!(find_game_for_channel(&gs, 5), Some(0));
}

#[test]
fn recognises_admins() {
    let admins = vec![100, 101];
    assert!(is_admin(&admins, 100));
    assert!(!is_admin(&admins, 7));
    assert!(!is_admin(&vec![], 7));
}

#[test]
fn missing_roles_skip_owned_ones() {
    assert_eq!(missing_game_roles(&games(), &vec![]), vec![9, 10, 11]);
    assert_eq!(missing_game_roles(&games(), &vec![10]), vec![9, 11]);
    assert_eq!(missing_game_roles(&games(), &vec![9, 10, 11]), Vec::<u64>::new());
}

#[test]
fn current_color_is_the_first_owned() {
    let colors = vec![20, 21, 22];
    assert_eq!(current_color_role(&vec![5, 21, 22], &colors), Some(21));
    assert_eq!(current_color_role(&vec![5, 6], &colors), None);
    assert_eq!(current_color_role(&vec![], &colors), None);
}

#[test]
fn owned_colors_are_all_collected() {
    let colors = vec![20, 21, 22];
    assert_eq!(color_roles_owned(&vec![5, 21, 6, 20], &colors), vec![21, 20]);
    assert_eq!(color_roles_owned(&vec![5, 6], &colors), Vec::<u64>::new());
}

#[test]
fn color_dropdown_answers_resolve_by_index() {
    let colors = vec![20, 21, 22];
    assert_eq!(select_color_role(&colors, "0"), Some(20));
    assert_eq!(select_color_role(&colors, "2"), Some(22));
    assert_eq!(select_color_role(&colors, "3"), None);
    assert_eq!(select_color_role(&colors, "x"), None);
}

#[test]
fn game_dropdown_answers_resolve_by_index() {
    assert_eq!(select_game_role(&games(), "0"), Some(9));
    assert_eq!(select_game_role(&games(), "2"), Some(11));
    assert_eq!(select_game_role(&games(), "3"), None);
    assert_eq!(select_game_role(&games(), "-1"), None);
}

#[test]
fn toggling_follows_ownership() {
    assert_eq!(plan_role_toggle(&vec![9, 10], 9), RoleToggle::Remove);
    assert_eq!(plan_role_toggle(&vec![9, 10], 11), RoleToggle::Add);
}

#[test]
fn help_pages_resolve_by_index() {
    let pages = vec![
        HelpPage {
            dropdown_title: "Basics".to_string(),
            dropdown_description: "Getting started".to_string(),
            embed: empty_embed("Basics"),
        },
        HelpPage {
            dropdown_title: "Commands".to_string(),
            dropdown_description: "Every command".to_string(),
            embed: empty_embed("Commands"),
        },
    ];
    assert_eq!(select_help_page(&pages, "0"), Some(0));
    assert_eq!(select_help_page(&pages, "1"), Some(1));
    assert_eq!(select_help_page(&pages, "2"), None);
    assert_eq!(select_help_page(&pages, "one"), None);
    assert_eq!(select_help_page(&pages, ""), None);
}

#[test]
fn sections_become_plain_fields() {
    let section = EmbedSection { title: "Server".to_string(), content: "10.0.0.1".to_string() };
    assert_eq!(section.to_field(), ("Server".to_string(), "10.0.0.1".to_string(), false));
}

#[test]
fn presence_shows_idle_text_without_a_session() {
    let store = SessionStore::new();
    let (text, status) = presence_for(&store, 0, "CET", "nothing much");
    assert_eq!(text, "nothing much");
    assert_eq!(status, PresenceStatus::Online);
}

#[test]
fn presence_shows_the_pending_start() {
    let mut store = SessionStore::new();
    let game = Game { name: "Chess".to_string(), channel_id: 5, role_id: 9 };
    let time = 738000 * 1440 + 20 * 60 + 5;
    store.create(Session::new(game, SchedulerPhase::Armed, time, 777, 42)).unwrap();
    let (text, status) = presence_for(&store, time - 60, "CET", "idle");
    assert_eq!(text, "Chess | 20:05 CET");
    assert_eq!(status, PresenceStatus::Idle);
}

#[test]
fn presence_shows_a_running_session() {
    let mut store = SessionStore::new();
    let game = Game { name: "Chess".to_string(), channel_id: 5, role_id: 9 };
    store.create(Session::new(game, SchedulerPhase::Armed, 1000, 777, 42)).unwrap();
    let (text, status) = presence_for(&store, 1000, "CET", "idle");
    assert_eq!(text, "Chess | Now!");
    assert_eq!(status, PresenceStatus::DoNotDisturb);
}

#[test]
fn config_snapshot_carries_its_parts() {
    let config = Config {
        application_id: 1,
        discord_token: "token".to_string(),
        guild_id: 2,
        vc_channel: 3,
        default_time: "18:00".to_string(),
        idle_text: "nothing much".to_string(),
        timezone_text: "CET".to_string(),
        ip_embed: empty_embed("IPs"),
        default_help: empty_embed("Help"),
        help: vec![],
        admins: vec![100],
        games: games(),
    };
    assert_eq!(find_game_for_channel(&config.games, 7), Some(2));
    assert!(is_admin(&config.admins, 100));
}
