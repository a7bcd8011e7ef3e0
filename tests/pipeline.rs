use poller::errors::{ParserError, PollerError, ProviderError, PublisherError};
use poller::pipeline::{run_message, Pipeline, Step, GUILD_ID};
use poller::publisher::MatchResult;
use poller::stratz::{GameMode, Guild, Hero, LobbyType, Match, Player, Response, ResponseData, Steam};

fn player(name: &str, radiant: bool, victory: bool) -> Option<Player> {
    Some(Player {
        is_radiant: Some(radiant),
        is_victory: Some(victory),
        kills: Some(3),
        deaths: Some(1),
        assists: Some(7),
        imp: None,
        hero: Some(Hero { id: Some(1), display_name: Some("Anti-Mage".to_string()) }),
        steam_account: Some(Steam { name: Some(name.to_string()) }),
    })
}

fn game(id: i64) -> Option<Match> {
    Some(Match {
        id: Some(id),
        players: Some(vec![player("A", true, true), player("B", false, false)]),
        duration_seconds: Some(600),
        end_date_time: Some(1700000000),
        lobby_type: Some(LobbyType::RANKED),
        game_mode: Some(GameMode::ALL_PICK),
    })
}

fn answer(matches: Vec<Option<Match>>) -> Result<Response, ProviderError> {
    Ok(Response {
        data: Some(ResponseData {
            guild: Some(Guild {
                id: Some(GUILD_ID),
                name: Some("G".to_string()),
                logo: Some("L".to_string()),
                matches: Some(matches),
            }),
        }),
        errors: None,
    })
}

/// Runs a pipeline to its end. `fail_at` names the (record, destination) pair whose
/// publish fails. Returns the ids published per destination call, the watermark saved
/// (if any) and the final step.
fn drive(
    matches: Vec<Option<Match>>,
    stored: Option<i64>,
    destinations: usize,
    fail_at: Option<(usize, usize)>,
) -> (Vec<(String, usize)>, Option<i64>, Step) {
    let mut pipeline = Pipeline::start(answer(matches), destinations).expect("valid answer");
    let mut calls = Vec::new();
    let mut saved = None;
    let mut records = 0;
    let mut step = pipeline.on_watermark(Ok(stored));
    loop {
        match step {
            Step::Publish { destination } => {
                let id = pipeline.record().match_id.clone();
                calls.push((id, destination));
                let failed = fail_at == Some((records, destination));
                if destination + 1 == destinations {
                    records += 1;
                }
                let result = if failed { Err(PublisherError::Discord) } else { Ok(()) };
                step = pipeline.on_published(result);
            }
            Step::SaveWatermark { match_id } => {
                saved = Some(match_id);
                step = pipeline.on_saved(Ok(()));
            }
            other => return (calls, saved, other),
        }
    }
}

fn ids(calls: &[(String, usize)]) -> Vec<&str> {
    calls.iter().map(|(id, _)| id.as_str()).collect()
}

#[test]
fn dispatches_oldest_first() {
    let (calls, saved, step) = drive(vec![game(9), game(8), game(7)], Some(6), 1, None);
    assert_eq!(ids(&calls), vec!["7", "8", "9"]);
    assert_eq!(saved, Some(9));
    assert!(matches!(step, Step::Done { delivered: 3 }));
}

#[test]
fn skips_records_at_or_below_watermark() {
    let (calls, saved, step) = drive(vec![game(9), game(8), game(7)], Some(8), 1, None);
    assert_eq!(ids(&calls), vec!["9"]);
    assert_eq!(saved, Some(9));
    assert!(matches!(step, Step::Done { delivered: 1 }));
}

#[test]
fn second_run_after_success_dispatches_nothing() {
    let (first, saved, _) = drive(vec![game(9), game(8), game(7)], Some(6), 2, None);
    assert_eq!(first.len(), 6);
    let (second, saved_again, step) = drive(vec![game(9), game(8), game(7)], saved, 2, None);
    assert!(second.is_empty());
    assert_eq!(saved_again, None);
    assert!(matches!(step, Step::Done { delivered: 0 }));
}

#[test]
fn rerun_from_same_watermark_repeats_dispatches() {
    let (first, _, _) = drive(vec![game(9), game(8), game(7)], Some(6), 2, None);
    let (second, _, _) = drive(vec![game(9), game(8), game(7)], Some(6), 2, None);
    assert_eq!(first, second);
    assert_eq!(
        first,
        vec![
            ("7".to_string(), 0),
            ("7".to_string(), 1),
            ("8".to_string(), 0),
            ("8".to_string(), 1),
            ("9".to_string(), 0),
            ("9".to_string(), 1)
        ]
    );
}

#[test]
fn watermark_never_moves_back() {
    let (calls, saved, step) = drive(vec![game(5), game(4)], Some(10), 1, None);
    assert!(calls.is_empty());
    assert_eq!(saved, None);
    assert!(matches!(step, Step::Done { delivered: 0 }));
}

#[test]
fn missing_watermark_reads_as_zero() {
    let (calls, saved, _) = drive(vec![game(3)], None, 1, None);
    assert_eq!(ids(&calls), vec!["3"]);
    assert_eq!(saved, Some(3));
}

#[test]
fn publish_failure_aborts_without_saving() {
    let (calls, saved, step) = drive(vec![game(9), game(8), game(7)], Some(6), 2, Some((1, 0)));
    assert_eq!(calls, vec![("7".to_string(), 0), ("7".to_string(), 1), ("8".to_string(), 0)]);
    assert_eq!(saved, None);
    assert!(matches!(step, Step::Failed(PollerError::Publisher(PublisherError::Discord))));
}

#[test]
fn end_to_end_single_record() {
    let mut pipeline = Pipeline::start(answer(vec![game(42)]), 2).unwrap();
    let step = pipeline.on_watermark(Ok(Some(0)));
    assert!(matches!(step, Step::Publish { destination: 0 }));
    let record = pipeline.record();
    assert_eq!(record.match_id, "42");
    assert_eq!(record.guild_id, "117311");
    assert_eq!(record.guild_name, "G");
    assert_eq!(record.guild_logo, "L");
    assert_eq!(record.match_result, MatchResult::Both);
    assert_eq!(record.duration_field, "10:00");
    assert_eq!(record.end, 1700000000);
    assert_eq!(record.lobby_type, LobbyType::RANKED);
    assert_eq!(record.game_mode, GameMode::ALL_PICK);
    assert_eq!(record.player_stats_radiant.len(), 1);
    assert_eq!(record.player_stats_radiant[0].name, "A");
    assert_eq!(record.player_stats_dire.len(), 1);
    assert_eq!(record.player_stats_dire[0].name, "B");
    let step = pipeline.on_published(Ok(()));
    assert!(matches!(step, Step::Publish { destination: 1 }));
    let step = pipeline.on_published(Ok(()));
    assert!(matches!(step, Step::SaveWatermark { match_id: 42 }));
    let step = pipeline.on_saved(Ok(()));
    assert!(matches!(step, Step::Done { delivered: 1 }));
}

#[test]
fn provider_failure_is_reported() {
    let r = Pipeline::start(Err(ProviderError::Stratz), 2);
    assert!(matches!(r, Err(PollerError::Provider(ProviderError::Stratz))));
}

#[test]
fn provider_error_list_is_reported() {
    let mut resp = answer(vec![game(1)]).unwrap();
    resp.errors = Some(vec!["rate limited".to_string()]);
    let r = Pipeline::start(Ok(resp), 2);
    assert!(matches!(r, Err(PollerError::Provider(ProviderError::Stratz))));
}

#[test]
fn answer_without_guild_is_rejected() {
    let resp = Response { data: Some(ResponseData { guild: None }), errors: None };
    let r = Pipeline::start(Ok(resp), 2);
    assert!(matches!(r, Err(PollerError::Parser(ParserError::Guild))));
    let resp = Response { data: None, errors: None };
    assert!(matches!(Pipeline::start(Ok(resp), 2), Err(PollerError::Parser(ParserError::Guild))));
}

#[test]
fn guild_without_logo_is_rejected() {
    let mut resp = answer(vec![game(1)]).unwrap();
    resp.data.as_mut().unwrap().guild.as_mut().unwrap().logo = None;
    let r = Pipeline::start(Ok(resp), 2);
    assert!(matches!(r, Err(PollerError::Parser(ParserError::Guild))));
}

#[test]
fn watermark_read_failure_is_reported() {
    let mut pipeline = Pipeline::start(answer(vec![game(1)]), 1).unwrap();
    let step = pipeline.on_watermark(Err(ProviderError::Dynamo));
    assert!(matches!(step, Step::Failed(PollerError::Provider(ProviderError::Dynamo))));
}

#[test]
fn watermark_write_failure_is_reported() {
    let mut pipeline = Pipeline::start(answer(vec![game(4)]), 1).unwrap();
    assert!(matches!(pipeline.on_watermark(Ok(Some(1))), Step::Publish { destination: 0 }));
    assert!(matches!(pipeline.on_published(Ok(())), Step::SaveWatermark { match_id: 4 }));
    let step = pipeline.on_saved(Err(ProviderError::Dynamo));
    assert!(matches!(step, Step::Failed(PollerError::Provider(ProviderError::Dynamo))));
}

#[test]
fn missing_record_entry_stops_the_run() {
    let (calls, saved, step) = drive(vec![game(9), None, game(7)], Some(6), 1, None);
    assert_eq!(ids(&calls), vec!["7"]);
    assert_eq!(saved, None);
    assert!(matches!(step, Step::Failed(PollerError::Parser(ParserError::Guild))));
}

#[test]
fn record_without_id_stops_the_run() {
    let mut no_id = game(8).unwrap();
    no_id.id = None;
    let (calls, saved, step) = drive(vec![game(9), Some(no_id), game(7)], Some(6), 1, None);
    assert_eq!(ids(&calls), vec!["7"]);
    assert_eq!(saved, None);
    assert!(matches!(step, Step::Failed(PollerError::Parser(ParserError::Match))));
}

#[test]
fn unusable_old_record_is_skipped_without_preparing() {
    let mut broken = game(5).unwrap();
    broken.players = None;
    let (calls, saved, step) = drive(vec![game(9), Some(broken)], Some(6), 1, None);
    assert_eq!(ids(&calls), vec!["9"]);
    assert_eq!(saved, Some(9));
    assert!(matches!(step, Step::Done { delivered: 1 }));
}

#[test]
fn unusable_new_record_stops_the_run() {
    let mut broken = game(8).unwrap();
    broken.players = Some(vec![]);
    let (calls, saved, step) = drive(vec![game(9), Some(broken), game(7)], Some(6), 1, None);
    assert_eq!(ids(&calls), vec!["7"]);
    assert_eq!(saved, None);
    assert!(matches!(step, Step::Failed(PollerError::Parser(ParserError::Match))));
}

#[test]
fn no_destinations_still_advances_watermark() {
    let (calls, saved, step) = drive(vec![game(9), game(8)], Some(1), 0, None);
    assert!(calls.is_empty());
    assert_eq!(saved, Some(9));
    assert!(matches!(step, Step::Done { delivered: 2 }));
}

#[test]
fn run_messages() {
    assert_eq!(run_message(&Ok(3)), "Success");
    assert_eq!(
        run_message(&Err(PollerError::Publisher(PublisherError::Kook))),
        "Failure: PublisherError.Kook"
    );
    assert_eq!(
        run_message(&Err(PollerError::Parser(ParserError::Match))),
        "Failure: ParserError.Match"
    );
}

#[test]
fn error_texts() {
    assert_eq!(ParserError::Player.to_text(), "ParserError.Player");
    assert_eq!(ParserError::Guild.to_text(), "ParserError.Guild");
    assert_eq!(ProviderError::Stratz.to_text(), "ProviderError.Player");
    assert_eq!(ProviderError::Dynamo.to_text(), "ProviderDyanmo");
    assert_eq!(PublisherError::Discord.to_text(), "PublisherError.Discord");
    assert_eq!(PollerError::Provider(ProviderError::Dynamo).to_text(), "ProviderDyanmo");
}
