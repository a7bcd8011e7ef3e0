use poller::errors::ParserError;
use poller::publisher::{
    format_duration, get_match_result, get_player_stats, get_players_by_team, get_side_stats,
    MatchResult, Publisher,
};
use poller::stratz::{api_url, GameMode, Hero, LobbyType, Match, Player, Steam};
use poller::utils::{transform_game_mode, transform_lobby_type, transform_match_result};

fn player(name: &str, radiant: bool, victory: bool) -> Option<Player> {
    Some(Player {
        is_radiant: Some(radiant),
        is_victory: Some(victory),
        kills: Some(6),
        deaths: Some(5),
        assists: Some(16),
        imp: Some(-4),
        hero: Some(Hero { id: Some(86), display_name: Some("Rubick".to_string()) }),
        steam_account: Some(Steam { name: Some(name.to_string()) }),
    })
}

fn game(players: Vec<Option<Player>>) -> Match {
    Match {
        id: Some(7117),
        players: Some(players),
        duration_seconds: Some(1551),
        end_date_time: Some(1700000000),
        lobby_type: Some(LobbyType::UNRANKED),
        game_mode: Some(GameMode::ALL_PICK),
    }
}

#[test]
fn outcome_all_wins_is_victory() {
    let players = vec![player("A", true, true), player("B", true, true)];
    assert_eq!(get_match_result(&players), Ok(MatchResult::Victory));
}

#[test]
fn outcome_all_losses_is_defeat() {
    let players = vec![player("A", true, false), player("B", true, false)];
    assert_eq!(get_match_result(&players), Ok(MatchResult::Defeat));
}

#[test]
fn outcome_mixed_is_both() {
    let players = vec![player("A", true, true), player("B", false, false)];
    assert_eq!(get_match_result(&players), Ok(MatchResult::Both));
}

#[test]
fn outcome_of_no_players_is_cancelled() {
    assert_eq!(get_match_result(&vec![]), Ok(MatchResult::Cancelled));
}

#[test]
fn outcome_needs_every_flag() {
    let mut p = player("A", true, true).unwrap();
    p.is_victory = None;
    assert_eq!(get_match_result(&vec![Some(p)]), Err(ParserError::Player));
    assert_eq!(get_match_result(&vec![None]), Err(ParserError::Player));
}

#[test]
fn duration_formats() {
    assert_eq!(format_duration(1551), "25:51");
    assert_eq!(format_duration(59), "0:59");
    assert_eq!(format_duration(0), "0:00");
    assert_eq!(format_duration(600), "10:00");
    assert_eq!(format_duration(3605), "60:05");
    assert_eq!(format_duration(-61), "-1:-1");
}

#[test]
fn labels() {
    assert_eq!(transform_match_result(&MatchResult::Victory), "Victory");
    assert_eq!(transform_match_result(&MatchResult::Defeat), "Defeat");
    assert_eq!(transform_match_result(&MatchResult::Both), "Clash");
    assert_eq!(transform_match_result(&MatchResult::Cancelled), "Cancelled");
    assert_eq!(transform_lobby_type(&LobbyType::RANKED), "Ranked");
    assert_eq!(transform_lobby_type(&LobbyType::SOLO_MID), "Duel");
    assert_eq!(transform_lobby_type(&LobbyType::Other("NEW_KIND".to_string())), "Unknown");
    assert_eq!(transform_game_mode(&GameMode::ALL_PICK), "All Pick");
    assert_eq!(transform_game_mode(&GameMode::ALL_PICK_RANKED), "All Draft");
    assert_eq!(transform_game_mode(&GameMode::Other("X".to_string())), "Unknown");
}

#[test]
fn player_stats_copy_fields() {
    let p = player("Player1", false, true).unwrap();
    let s = get_player_stats(&p).unwrap();
    assert_eq!(s.hero_id, 86);
    assert_eq!(s.hero_display_name, "Rubick");
    assert_eq!(s.name, "Player1");
    assert_eq!((s.kills, s.deaths, s.assists), (6, 5, 16));
    assert_eq!(s.imp, Some(-4));
}

#[test]
fn player_stats_need_hero() {
    let mut p = player("Player1", false, true).unwrap();
    p.hero = None;
    assert!(matches!(get_player_stats(&p), Err(ParserError::Player)));
}

fn names(players: &[Player]) -> Vec<String> {
    players.iter().map(|p| p.steam_account.as_ref().unwrap().name.clone().unwrap()).collect()
}

#[test]
fn teams_keep_provider_order() {
    let players = vec![
        player("R1", true, true),
        player("D1", false, false),
        player("R2", true, true),
        player("D2", false, false),
        player("R3", true, true),
    ];
    let teams = get_players_by_team(players).unwrap();
    assert_eq!(names(&teams.radiant), vec!["R1", "R2", "R3"]);
    assert_eq!(names(&teams.dire), vec!["D1", "D2"]);
}

#[test]
fn teams_split_by_side_flag_only() {
    let mut p = player("NoStats", false, true).unwrap();
    p.kills = None;
    p.is_victory = None;
    let teams = get_players_by_team(vec![player("R", true, true), Some(p)]).unwrap();
    assert_eq!(names(&teams.radiant), vec!["R"]);
    assert_eq!(names(&teams.dire), vec!["NoStats"]);
    let empty = get_players_by_team(vec![]).unwrap();
    assert!(empty.radiant.is_empty() && empty.dire.is_empty());
}

#[test]
fn teams_need_side_flag() {
    let mut p = player("X", true, true).unwrap();
    p.is_radiant = None;
    assert!(matches!(get_players_by_team(vec![Some(p)]), Err(ParserError::Player)));
    assert!(matches!(get_players_by_team(vec![None]), Err(ParserError::Player)));
}

#[test]
fn side_stats_need_every_field() {
    let a = player("A", true, true).unwrap();
    let mut b = player("B", true, true).unwrap();
    let ok = get_side_stats(&vec![a.clone(), b.clone()]).unwrap();
    assert_eq!(ok.len(), 2);
    assert_eq!(ok[1].name, "B");
    b.steam_account = None;
    assert!(matches!(get_side_stats(&vec![a, b]), Err(ParserError::Player)));
}

#[test]
fn prepare_builds_record() {
    let players = vec![player("A", true, true), player("B", true, true)];
    let record = Publisher::prepare(117311, "G", "L", game(players)).unwrap();
    assert_eq!(record.match_id, "7117");
    assert_eq!(record.guild_id, "117311");
    assert_eq!(record.match_result, MatchResult::Victory);
    assert_eq!(record.duration_field, "25:51");
    assert_eq!(record.player_stats_radiant.len(), 2);
    assert!(record.player_stats_dire.is_empty());
}

#[test]
fn prepare_rejects_empty_participants() {
    let r = Publisher::prepare(1, "G", "L", game(vec![]));
    assert!(matches!(r, Err(ParserError::Match)));
}

#[test]
fn prepare_rejects_missing_match_fields() {
    let mut m = game(vec![player("A", true, true)]);
    m.lobby_type = None;
    assert!(matches!(Publisher::prepare(1, "G", "L", m), Err(ParserError::Match)));
    let mut m = game(vec![player("A", true, true)]);
    m.duration_seconds = None;
    assert!(matches!(Publisher::prepare(1, "G", "L", m), Err(ParserError::Match)));
}

#[test]
fn prepare_rejects_incomplete_player() {
    let mut p = player("A", true, true).unwrap();
    p.kills = None;
    let r = Publisher::prepare(1, "G", "L", game(vec![player("B", true, true), Some(p)]));
    assert!(matches!(r, Err(ParserError::Player)));
}

#[test]
fn test_api_url() {
    assert!(api_url("JWT").starts_with("https://api.stratz.com/graphql?jwt="));
    assert_eq!(api_url("JWT"), "https://api.stratz.com/graphql?jwt=JWT");
}
