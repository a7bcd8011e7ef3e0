use poller::client::{authorization_value, MessageType};
use poller::kook::KookPublisher;
use poller::publisher::{MatchResult, PlayerStats, PublishRecord};
use poller::stratz::{GameMode, LobbyType};
use poller::webhook::{match_hero_emoji, WebhookPublisher};

fn stats(name: &str, hero_id: i16, hero: &str, k: u8, d: u8, a: u8, imp: Option<i16>) -> PlayerStats {
    PlayerStats {
        hero_id,
        hero_display_name: hero.to_string(),
        name: name.to_string(),
        kills: k,
        deaths: d,
        assists: a,
        imp,
    }
}

fn record(radiant: Vec<PlayerStats>, dire: Vec<PlayerStats>) -> PublishRecord {
    PublishRecord {
        match_id: "42".to_string(),
        guild_id: "117311".to_string(),
        guild_name: "G".to_string(),
        guild_logo: "L".to_string(),
        match_result: MatchResult::Victory,
        lobby_type: LobbyType::UNRANKED,
        game_mode: GameMode::ALL_PICK,
        player_stats_radiant: radiant,
        player_stats_dire: dire,
        duration_field: "25:51".to_string(),
        end: 1700000000,
    }
}

#[test]
fn card_header_and_body() {
    let r = record(
        vec![stats("Player1", 86, "Rubick", 6, 5, 16, None)],
        vec![stats("Player2", 11, "Shadow Fiend", 16, 4, 8, Some(12))],
    );
    let message = KookPublisher.card_message(&r);
    assert_eq!(message.cards.len(), 1);
    let card = &message.cards[0];
    assert_eq!(card.card_type, "card");
    assert_eq!(card.theme, "success");
    assert_eq!(card.size, "lg");
    assert_eq!(card.modules.len(), 5);
    let header = card.modules[0].text.as_ref().unwrap();
    assert_eq!(header.text_type, "kmarkdown");
    assert_eq!(
        header.content,
        "[G](https://stratz.com/guilds/117311) - [42](https://stratz.com/matches/42)**Victory - Unranked - All Pick** *25:51*\n"
    );
    assert_eq!(card.modules[1].module_type, "divider");
    let body = card.modules[2].text.as_ref().unwrap();
    assert_eq!(
        body.content,
        "**Radiant**\n<:rubick:958249951895388192> Player1 [6/5/16]\n**Dire**\n<:shadow_fiend:958248645147385866> Player2 [16/4/8] +12\n"
    );
    assert_eq!(card.modules[4].module_type, "context");
    assert_eq!(card.modules[4].elements[0].element_type, "plain-text");
    assert_eq!(card.modules[4].elements[0].content, "Powered by Stratz");
}

#[test]
fn card_omits_empty_side() {
    let mut r = record(vec![], vec![stats("P", 2, "Axe", 1, 2, 3, Some(-7))]);
    r.match_result = MatchResult::Both;
    let message = KookPublisher.card_message(&r);
    let card = &message.cards[0];
    assert_eq!(card.theme, "warning");
    assert_eq!(card.modules[2].text.as_ref().unwrap().content, "**Dire**\n<:axe:958248644547608586> P [1/2/3] -7\n");
}

#[test]
fn card_players_lines() {
    let lines = KookPublisher.get_players_stats(&vec![
        stats("A", 1, "Anti-Mage", 0, 0, 0, None),
        stats("B", 2, "Axe", 10, 1, 2, Some(0)),
    ]);
    assert_eq!(
        lines,
        "<:antimage:958248644652458005> A [0/0/0]\n<:axe:958248644547608586> B [10/1/2] +0\n"
    );
}

#[test]
fn embed_fields_and_links() {
    let r = record(
        vec![stats("Player1", 86, "Rubick", 6, 5, 16, None)],
        vec![stats("Player2", 11, "Shadow Fiend", 16, 4, 8, None)],
    );
    let m = WebhookPublisher.embed_message(&r, "2023-11-14T22:13:20+00:00");
    assert_eq!(m.content, "https://stratz.com/matches/42");
    assert_eq!(m.embed.author.name, "G");
    assert_eq!(m.embed.author.url, "https://stratz.com/guilds/117311");
    assert_eq!(m.embed.author.icon_url, "https://steamusercontent-a.akamaihd.net/ugc/L/");
    assert_eq!(m.embed.title, "Victory - Unranked - All Pick");
    assert_eq!(m.embed.fields.len(), 3);
    assert_eq!(m.embed.fields[0].name, "<:radiant:958274781919207505> Radiant");
    assert_eq!(m.embed.fields[0].value, "<:rubick:958249951895388192> Player1 [6/5/16]\n");
    assert!(m.embed.fields[0].inline);
    assert_eq!(m.embed.fields[1].name, "<:dire:958274694203719740> Dire");
    assert_eq!(m.embed.fields[1].value, "<:shadow_fiend:958248645147385866> Player2 [16/4/8]\n");
    assert_eq!(m.embed.fields[2].name, ":clock3: Duration");
    assert_eq!(m.embed.fields[2].value, "25:51");
    assert!(!m.embed.fields[2].inline);
    assert_eq!(m.embed.footer_text, "Powered by STRATZ");
    assert_eq!(m.embed.timestamp, "2023-11-14T22:13:20+00:00");
}

#[test]
fn embed_omits_empty_side() {
    let r = record(vec![stats("P", 999, "New Hero", 1, 1, 1, None)], vec![]);
    let m = WebhookPublisher.embed_message(&r, "t");
    assert_eq!(m.embed.fields.len(), 2);
    assert_eq!(m.embed.fields[0].value, ":grey_question: P [1/1/1]\n");
    assert_eq!(m.embed.fields[1].name, ":clock3: Duration");
}

#[test]
fn message_stamps_end_time() {
    let r = record(vec![stats("P", 1, "Anti-Mage", 1, 1, 1, None)], vec![]);
    let m = WebhookPublisher.message(&r).unwrap();
    assert_eq!(m.embed.timestamp, "2023-11-14T22:13:20+00:00");
}

#[test]
fn message_accepts_epoch_and_year_9999() {
    let mut r = record(vec![], vec![]);
    r.end = 0;
    assert_eq!(WebhookPublisher.message(&r).unwrap().embed.timestamp, "1970-01-01T00:00:00+00:00");
    r.end = 253402300799;
    assert_eq!(WebhookPublisher.message(&r).unwrap().embed.timestamp, "9999-12-31T23:59:59+00:00");
}

#[test]
fn message_rejects_unrepresentable_end_time() {
    let mut r = record(vec![], vec![]);
    r.end = i64::MAX;
    assert!(WebhookPublisher.message(&r).is_err());
}

#[test]
fn hero_icons() {
    assert_eq!(match_hero_emoji(1), "<:antimage:958248644652458005>");
    assert_eq!(match_hero_emoji(137), "<:primal_beast:958254609397342258>");
    assert_eq!(match_hero_emoji(24), ":grey_question:");
    assert_eq!(match_hero_emoji(-1), ":grey_question:");
}

#[test]
fn message_types_and_authorization() {
    assert_eq!(MessageType::TEXT.to_value(), "1");
    assert_eq!(MessageType::KMARKDOWN.to_value(), "9");
    assert_eq!(MessageType::CARD.to_value(), "10");
    assert_eq!(authorization_value("abc"), "Bot abc");
}
