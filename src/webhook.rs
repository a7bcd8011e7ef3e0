use vstd::prelude::*;

use crate::errors::PublisherError;
use crate::kook::{concat_link, guild_link, match_link};
use crate::publisher::{kda, push_kda, PlayerStats, PublishRecord};
use crate::utils::{
    game_mode_label, lobby_label, match_result_label, transform_game_mode, transform_lobby_type,
    transform_match_result,
};

verus! {

/// The chat icon of a hero; heroes without one get a question mark.
pub open spec fn hero_emoji(hero_id: i16) -> Seq<char> {
    match hero_id {
        1 => "<:antimage:958248644652458005>"@,
        2 => "<:axe:958248644547608586>"@,
        3 => "<:bane:958249951480123394>"@,
        4 => "<:bloodseeker:958248644585332796>"@,
        5 => "<:crystal_maiden:958248644606320680>"@,
        6 => "<:drow_ranger:958248644799238194>"@,
        7 => "<:earthshaker:958248644748922900>"@,
        8 => "<:juggernaut:958248644853760052>"@,
        9 => "<:mirana:958248645038325771>"@,
        10 => "<:morphling:958248645025759282>"@,
        11 => "<:shadow_fiend:958248645147385866>"@,
        12 => "<:phantom_lancer:958249951857610772>"@,
        13 => "<:puck:958248645013147648>"@,
        14 => "<:pudge:958248645088645160>"@,
        15 => "<:razor:958248645134794762>"@,
        16 => "<:sand_king:958248645113815080>"@,
        17 => "<:storm_spirit:958249951262031934>"@,
        18 => "<:sven:958249951467548682>"@,
        19 => "<:tiny:958249951681450035>"@,
        20 => "<:vengeful_spirit:958249951710826516>"@,
        21 => "<:windranger:958249951652106310>"@,
        22 => "<:zeus:958249951459168288>"@,
        23 => "<:kunkka:958248645059313694>"@,
        25 => "<:lina:958248645000560660>"@,
        26 => "<:lion:958248644971229194>"@,
        27 => "<:shadow_shaman:958248645193502771>"@,
        28 => "<:slardar:958248645214486578>"@,
        29 => "<:tidehunter:958249951228469269>"@,
        30 => "<:witch_doctor:958249951715004446>"@,
        31 => "<:lich:958248644992172032>"@,
        32 => "<:riki:958248645138980914>"@,
        33 => "<:enigma:958248644954456094>"@,
        34 => "<:tinker:958249951480127518>"@,
        35 => "<:sniper:958248645155762196>"@,
        36 => "<:necrophos:958248644698595379>"@,
        37 => "<:warlock:958249951740182569>"@,
        38 => "<:beastmaster:958248644581146644>"@,
        39 => "<:queen_of_pain:958248644736331829>"@,
        40 => "<:venomancer:958249951580815400>"@,
        41 => "<:faceless_void:958248644912484382>"@,
        42 => "<:wraith_king:958248645239664700>"@,
        43 => "<:death_prophet:958248644740517910>"@,
        44 => "<:phantom_assassin:958249951941500938>"@,
        45 => "<:pugna:958248644937662465>"@,
        46 => "<:templar_assassin:958249952050544691>"@,
        47 => "<:viper:958249951207497769>"@,
        48 => "<:luna:958249951966674995>"@,
        49 => "<:dragon_knight:958248644803436544>"@,
        50 => "<:dazzle:958248644476301324>"@,
        51 => "<:clockwerk:958248645210284032>"@,
        52 => "<:leshrac:958248644912504883>"@,
        53 => "<:natures_prophet:958248644560162888>"@,
        54 => "<:lifestealer:958248645084467240>"@,
        55 => "<:dark_seer:958248644644073502>"@,
        56 => "<:clinkz:958249951735980042>"@,
        57 => "<:omniknight:958248645080252426>"@,
        58 => "<:enchantress:958248644853764097>"@,
        59 => "<:huskar:958248644967022642>"@,
        60 => "<:night_stalker:958248645004767282>"@,
        61 => "<:broodmother:958248644702777364>"@,
        62 => "<:bounty_hunter:958248644627271690>"@,
        63 => "<:weaver:958249951429812266>"@,
        64 => "<:jakiro:958249951568220190>"@,
        65 => "<:batrider:958248644560191589>"@,
        66 => "<:chen:958248644644057149>"@,
        67 => "<:spectre:958248645235474473>"@,
        69 => "<:doom:958248644698591232>"@,
        68 => "<:ancient_apparition:958248644572762153>"@,
        70 => "<:ursa:958249951845027860>"@,
        71 => "<:spirit_breaker:958249951492730900>"@,
        72 => "<:gyrocopter:958249951983456276>"@,
        73 => "<:alchemist:958248644719558716>"@,
        74 => "<:invoker:958249951429800009>"@,
        75 => "<:silencer:958248645143199774>"@,
        76 => "<:outworld_destroyer:958249951702441994>"@,
        77 => "<:lycan:958249951958290432>"@,
        78 => "<:brewmaster:958249951840854026>"@,
        79 => "<:shadow_demon:958249951454982187>"@,
        80 => "<:lone_druid:958249951798886400>"@,
        81 => "<:chaos_knight:958249951840845894>"@,
        82 => "<:meepo:958249952218345482>"@,
        83 => "<:treant_protector:958249951626924073>"@,
        84 => "<:ogre_magi:958249952000233472>"@,
        85 => "<:undying:958249951987634176>"@,
        86 => "<:rubick:958249951895388192>"@,
        87 => "<:disruptor:958249952256086046>"@,
        88 => "<:nyx_assassin:958249952130240562>"@,
        89 => "<:naga_siren:958249952100904990>"@,
        90 => "<:keeper_of_the_light:958249952105095218>"@,
        91 => "<:io:958249952054759424>"@,
        92 => "<:visage:958249952113459321>"@,
        93 => "<:slark:958249952218325002>"@,
        94 => "<:medusa:958249952193155092>"@,
        95 => "<:troll_warlord:958249952201564210>"@,
        96 => "<:centaur_warrunner:958249952184782848>"@,
        97 => "<:magnus:958249952226738196>"@,
        98 => "<:timbersaw:958249952251904050>"@,
        99 => "<:bristleback:958251187243745280>"@,
        100 => "<:tusk:958251186950111253>"@,
        101 => "<:skywrath_mage:958251187260502036>"@,
        102 => "<:abaddon:958251187180806146>"@,
        103 => "<:elder_titan:958251187289878598>"@,
        104 => "<:legion_commander:958251187117908018>"@,
        105 => "<:techies:958251187222740992>"@,
        106 => "<:ember_spirit:958251187143065610>"@,
        107 => "<:earth_spirit:958251187172438046>"@,
        108 => "<:underlord:958251187369549844>"@,
        109 => "<:terrorblade:958251187382153226>"@,
        110 => "<:phoenix:958251187214381096>"@,
        111 => "<:oracle:958251187306627072>"@,
        112 => "<:winter_wyvern:958251187281489980>"@,
        113 => "<:arc_warden:958251187340197898>"@,
        114 => "<:monkey_king:958251187205992469>"@,
        119 => "<:dark_willow:958251187591868446>"@,
        120 => "<:pangolier:958251187470233631>"@,
        121 => "<:grimstroke:958251187709304862>"@,
        123 => "<:hoodwink:958251187856105532>"@,
        126 => "<:void_spirit:958251187772215386>"@,
        128 => "<:snapfire:958251188023873587>"@,
        129 => "<:mars:958251187696726016>"@,
        135 => "<:dawnbreaker:958251187608645633>"@,
        136 => "<:marci:958254609397334026>"@,
        137 => "<:primal_beast:958254609397342258>"@,
        _ => ":grey_question:"@,
    }
}

/// The chat icon of a hero; heroes without one get a question mark.
pub fn match_hero_emoji(hero_id: i16) -> (r: &'static str)
    ensures
        r@ == hero_emoji(hero_id),
{
    match hero_id {
        1 => "<:antimage:958248644652458005>",
        2 => "<:axe:958248644547608586>",
        3 => "<:bane:958249951480123394>",
        4 => "<:bloodseeker:958248644585332796>",
        5 => "<:crystal_maiden:958248644606320680>",
        6 => "<:drow_ranger:958248644799238194>",
        7 => "<:earthshaker:958248644748922900>",
        8 => "<:juggernaut:958248644853760052>",
        9 => "<:mirana:958248645038325771>",
        10 => "<:morphling:958248645025759282>",
        11 => "<:shadow_fiend:958248645147385866>",
        12 => "<:phantom_lancer:958249951857610772>",
        13 => "<:puck:958248645013147648>",
        14 => "<:pudge:958248645088645160>",
        15 => "<:razor:958248645134794762>",
        16 => "<:sand_king:958248645113815080>",
        17 => "<:storm_spirit:958249951262031934>",
        18 => "<:sven:958249951467548682>",
        19 => "<:tiny:958249951681450035>",
        20 => "<:vengeful_spirit:958249951710826516>",
        21 => "<:windranger:958249951652106310>",
        22 => "<:zeus:958249951459168288>",
        23 => "<:kunkka:958248645059313694>",
        25 => "<:lina:958248645000560660>",
        26 => "<:lion:958248644971229194>",
        27 => "<:shadow_shaman:958248645193502771>",
        28 => "<:slardar:958248645214486578>",
        29 => "<:tidehunter:958249951228469269>",
        30 => "<:witch_doctor:958249951715004446>",
        31 => "<:lich:958248644992172032>",
        32 => "<:riki:958248645138980914>",
        33 => "<:enigma:958248644954456094>",
        34 => "<:tinker:958249951480127518>",
        35 => "<:sniper:958248645155762196>",
        36 => "<:necrophos:958248644698595379>",
        37 => "<:warlock:958249951740182569>",
        38 => "<:beastmaster:958248644581146644>",
        39 => "<:queen_of_pain:958248644736331829>",
        40 => "<:venomancer:958249951580815400>",
        41 => "<:faceless_void:958248644912484382>",
        42 => "<:wraith_king:958248645239664700>",
        43 => "<:death_prophet:958248644740517910>",
        44 => "<:phantom_assassin:958249951941500938>",
        45 => "<:pugna:958248644937662465>",
        46 => "<:templar_assassin:958249952050544691>",
        47 => "<:viper:958249951207497769>",
        48 => "<:luna:958249951966674995>",
        49 => "<:dragon_knight:958248644803436544>",
        50 => "<:dazzle:958248644476301324>",
        51 => "<:clockwerk:958248645210284032>",
        52 => "<:leshrac:958248644912504883>",
        53 => "<:natures_prophet:958248644560162888>",
        54 => "<:lifestealer:958248645084467240>",
        55 => "<:dark_seer:958248644644073502>",
        56 => "<:clinkz:958249951735980042>",
        57 => "<:omniknight:958248645080252426>",
        58 => "<:enchantress:958248644853764097>",
        59 => "<:huskar:958248644967022642>",
        60 => "<:night_stalker:958248645004767282>",
        61 => "<:broodmother:958248644702777364>",
        62 => "<:bounty_hunter:958248644627271690>",
        63 => "<:weaver:958249951429812266>",
        64 => "<:jakiro:958249951568220190>",
        65 => "<:batrider:958248644560191589>",
        66 => "<:chen:958248644644057149>",
        67 => "<:spectre:958248645235474473>",
        69 => "<:doom:958248644698591232>",
        68 => "<:ancient_apparition:958248644572762153>",
        70 => "<:ursa:958249951845027860>",
        71 => "<:spirit_breaker:958249951492730900>",
        72 => "<:gyrocopter:958249951983456276>",
        73 => "<:alchemist:958248644719558716>",
        74 => "<:invoker:958249951429800009>",
        75 => "<:silencer:958248645143199774>",
        76 => "<:outworld_destroyer:958249951702441994>",
        77 => "<:lycan:958249951958290432>",
        78 => "<:brewmaster:958249951840854026>",
        79 => "<:shadow_demon:958249951454982187>",
        80 => "<:lone_druid:958249951798886400>",
        81 => "<:chaos_knight:958249951840845894>",
        82 => "<:meepo:958249952218345482>",
        83 => "<:treant_protector:958249951626924073>",
        84 => "<:ogre_magi:958249952000233472>",
        85 => "<:undying:958249951987634176>",
        86 => "<:rubick:958249951895388192>",
        87 => "<:disruptor:958249952256086046>",
        88 => "<:nyx_assassin:958249952130240562>",
        89 => "<:naga_siren:958249952100904990>",
        90 => "<:keeper_of_the_light:958249952105095218>",
        91 => "<:io:958249952054759424>",
        92 => "<:visage:958249952113459321>",
        93 => "<:slark:958249952218325002>",
        94 => "<:medusa:958249952193155092>",
        95 => "<:troll_warlord:958249952201564210>",
        96 => "<:centaur_warrunner:958249952184782848>",
        97 => "<:magnus:958249952226738196>",
        98 => "<:timbersaw:958249952251904050>",
        99 => "<:bristleback:958251187243745280>",
        100 => "<:tusk:958251186950111253>",
        101 => "<:skywrath_mage:958251187260502036>",
        102 => "<:abaddon:958251187180806146>",
        103 => "<:elder_titan:958251187289878598>",
        104 => "<:legion_commander:958251187117908018>",
        105 => "<:techies:958251187222740992>",
        106 => "<:ember_spirit:958251187143065610>",
        107 => "<:earth_spirit:958251187172438046>",
        108 => "<:underlord:958251187369549844>",
        109 => "<:terrorblade:958251187382153226>",
        110 => "<:phoenix:958251187214381096>",
        111 => "<:oracle:958251187306627072>",
        112 => "<:winter_wyvern:958251187281489980>",
        113 => "<:arc_warden:958251187340197898>",
        114 => "<:monkey_king:958251187205992469>",
        119 => "<:dark_willow:958251187591868446>",
        120 => "<:pangolier:958251187470233631>",
        121 => "<:grimstroke:958251187709304862>",
        123 => "<:hoodwink:958251187856105532>",
        126 => "<:void_spirit:958251187772215386>",
        128 => "<:snapfire:958251188023873587>",
        129 => "<:mars:958251187696726016>",
        135 => "<:dawnbreaker:958251187608645633>",
        136 => "<:marci:958254609397334026>",
        137 => "<:primal_beast:958254609397342258>",
        _ => ":grey_question:",
    }
}

} // verus!

verus! {

/// Who an embed is from: a name, a link and an icon.
#[derive(Clone, Debug)]
pub struct EmbedAuthor {
    pub name: String,
    pub url: String,
    pub icon_url: String,
}

/// A titled block of an embed; inline fields may sit side by side.
#[derive(Clone, Debug)]
pub struct EmbedField {
    pub name: String,
    pub value: String,
    pub inline: bool,
}

#[derive(Clone, Debug)]
pub struct Embed {
    pub author: EmbedAuthor,
    pub title: String,
    pub fields: Vec<EmbedField>,
    pub footer_text: String,
    pub footer_icon_url: String,
    /// RFC 3339 text of the match end.
    pub timestamp: String,
}

/// A webhook message: a line of text and one embed.
#[derive(Clone, Debug)]
pub struct WebhookMessage {
    pub content: String,
    pub embed: Embed,
}

/// Renders notifications as webhook embeds.
pub struct WebhookPublisher;

/// 9999-12-31T23:59:59Z, in seconds since the Unix epoch.
pub const LAST_SECOND_OF_9999: i64 = 253402300799;

/// The RFC 3339 text of an instant given in seconds since the Unix epoch (UTC).
pub uninterp spec fn rfc3339_of(secs: int) -> Seq<char>;

/// Relies on chrono's `DateTime::<Utc>::from_timestamp`, which gives `None` only for an
/// instant outside its date range (about years -262143 to 262142), so every instant from
/// 1970 through the end of 9999 is accepted; and on `DateTime::to_rfc3339`, whose text
/// depends on the instant alone.
#[verifier::external_body]
fn utc_rfc3339(secs: i64) -> (r: Option<String>)
    ensures
        0 <= secs <= LAST_SECOND_OF_9999 ==> r is Some,
        r matches Some(t) ==> t@ == rfc3339_of(secs as int),
{
    match chrono::DateTime::from_timestamp(secs, 0) {
        Some(t) => Some(t.to_rfc3339()),
        None => None,
    }
}

pub open spec fn radiant_title() -> Seq<char> {
    "<:radiant:958274781919207505> Radiant"@
}

pub open spec fn dire_title() -> Seq<char> {
    "<:dire:958274694203719740> Dire"@
}

pub open spec fn duration_title() -> Seq<char> {
    ":clock3: Duration"@
}

pub open spec fn logo_url(logo: Seq<char>) -> Seq<char> {
    "https://steamusercontent-a.akamaihd.net/ugc/"@ + logo + "/"@
}

pub open spec fn footer_icon() -> Seq<char> {
    "https://cdn.discordapp.com/icons/268890221943324677/12b63c55a83a715ec569e91e40641db0.webp?size=96"@
}

/// One participant line of an embed: icon, name, then `[k/d/a]`.
pub open spec fn player_line(s: PlayerStats) -> Seq<char> {
    hero_emoji(s.hero_id) + " "@ + s.name@ + " "@ + kda(s) + "\n"@
}

pub open spec fn player_lines(ss: Seq<PlayerStats>) -> Seq<char>
    decreases ss.len(),
{
    if ss.len() == 0 {
        seq![]
    } else {
        player_lines(ss.drop_last()) + player_line(ss.last())
    }
}

/// A field as name, value and whether it is inline.
pub open spec fn field_view(f: EmbedField) -> (Seq<char>, Seq<char>, bool) {
    (f.name@, f.value@, f.inline)
}

/// A side's field, left out when the side has no participants.
pub open spec fn side_field(title: Seq<char>, lines: Seq<char>) -> Seq<(Seq<char>, Seq<char>, bool)> {
    if lines.len() > 0 {
        seq![(title, lines, true)]
    } else {
        seq![]
    }
}

/// The fields of a record's embed: the two sides, then the duration.
pub open spec fn embed_fields(r: PublishRecord) -> Seq<(Seq<char>, Seq<char>, bool)> {
    side_field(radiant_title(), player_lines(r.player_stats_radiant@)) + side_field(
        dire_title(),
        player_lines(r.player_stats_dire@),
    ) + seq![(duration_title(), r.duration_field@, false)]
}

pub open spec fn embed_title(r: PublishRecord) -> Seq<char> {
    match_result_label(r.match_result) + " - "@ + lobby_label(r.lobby_type) + " - "@
        + game_mode_label(r.game_mode)
}

/// `m` announces record `r`, stamped with the text `timestamp`.
pub open spec fn is_message_of(m: WebhookMessage, r: PublishRecord, timestamp: Seq<char>) -> bool {
    &&& m.content@ == match_link(r.match_id@)
    &&& m.embed.author.name@ == r.guild_name@
    &&& m.embed.author.url@ == guild_link(r.guild_id@)
    &&& m.embed.author.icon_url@ == logo_url(r.guild_logo@)
    &&& m.embed.title@ == embed_title(r)
    &&& m.embed.fields@.map_values(|f: EmbedField| field_view(f)) == embed_fields(r)
    &&& m.embed.footer_text@ == "Powered by STRATZ"@
    &&& m.embed.footer_icon_url@ == footer_icon()
    &&& m.embed.timestamp@ == timestamp
}

/// One line per participant: `icon name [k/d/a]`.
pub fn get_players_field(players_stats: &Vec<PlayerStats>) -> (r: String)
    ensures
        r@ == player_lines(players_stats@),
{
    let mut result = String::new();
    let mut i: usize = 0;
    while i < players_stats.len()
        invariant
            i <= players_stats.len(),
            result@ == player_lines(players_stats@.take(i as int)),
        decreases players_stats.len() - i,
    {
        let player_stats = &players_stats[i];
        let ghost before = result@;
        result.append(match_hero_emoji(player_stats.hero_id));
        result.append(" ");
        result.append(player_stats.name.as_str());
        result.append(" ");
        push_kda(&mut result, player_stats);
        result.append("\n");
        assert(players_stats@.take(i + 1).drop_last() == players_stats@.take(i as int));
        assert(result@ =~= before + player_line(players_stats@[i as int]));
        i += 1;
    }
    assert(players_stats@.take(players_stats@.len() as int) == players_stats@);
    result
}

fn joined(a: &str, b: &str, c: &str) -> (r: String)
    ensures
        r@ == a@ + b@ + c@,
{
    let mut s = String::from_str(a);
    s.append(b);
    s.append(c);
    s
}

impl WebhookPublisher {
    /// The message announcing `publish_record`, stamped with `timestamp`.
    pub fn embed_message(&self, publish_record: &PublishRecord, timestamp: &str) -> (r: WebhookMessage)
        ensures
            is_message_of(r, *publish_record, timestamp@),
    {
        let author = EmbedAuthor {
            name: publish_record.guild_name.clone(),
            url: concat_link("https://stratz.com/guilds/", &publish_record.guild_id),
            icon_url: joined(
                "https://steamusercontent-a.akamaihd.net/ugc/",
                publish_record.guild_logo.as_str(),
                "/",
            ),
        };
        let mut title = transform_match_result(&publish_record.match_result);
        title.append(" - ");
        title.append(transform_lobby_type(&publish_record.lobby_type).as_str());
        title.append(" - ");
        title.append(transform_game_mode(&publish_record.game_mode).as_str());

        let radiant_field = get_players_field(&publish_record.player_stats_radiant);
        let dire_field = get_players_field(&publish_record.player_stats_dire);
        let mut fields: Vec<EmbedField> = Vec::new();
        if radiant_field.unicode_len() > 0 {
            fields.push(
                EmbedField {
                    name: String::from_str("<:radiant:958274781919207505> Radiant"),
                    value: radiant_field,
                    inline: true,
                },
            );
        }
        if dire_field.unicode_len() > 0 {
            fields.push(
                EmbedField {
                    name: String::from_str("<:dire:958274694203719740> Dire"),
                    value: dire_field,
                    inline: true,
                },
            );
        }
        fields.push(
            EmbedField {
                name: String::from_str(":clock3: Duration"),
                value: publish_record.duration_field.clone(),
                inline: false,
            },
        );
        assert(fields@.map_values(|f: EmbedField| field_view(f)) =~= embed_fields(*publish_record));
        let embed = Embed {
            author,
            title,
            fields,
            footer_text: String::from_str("Powered by STRATZ"),
            footer_icon_url: String::from_str(
                "https://cdn.discordapp.com/icons/268890221943324677/12b63c55a83a715ec569e91e40641db0.webp?size=96",
            ),
            timestamp: String::from_str(timestamp),
        };
        WebhookMessage {
            content: concat_link("https://stratz.com/matches/", &publish_record.match_id),
            embed,
        }
    }

    /// The message announcing `publish_record`, stamped with its end time; fails with
    /// `Discord` when that instant cannot be written as a date, which never happens for
    /// an end time from 1970 through 9999.
    pub fn message(&self, publish_record: &PublishRecord) -> (r: Result<WebhookMessage, PublisherError>)
        ensures
            r matches Ok(m) ==> is_message_of(m, *publish_record, rfc3339_of(publish_record.end as int)),
            r matches Err(e) ==> e == PublisherError::Discord,
            0 <= publish_record.end <= LAST_SECOND_OF_9999 ==> r is Ok,
    {
        match utc_rfc3339(publish_record.end) {
            Some(timestamp) => Ok(self.embed_message(publish_record, timestamp.as_str())),
            None => Err(PublisherError::Discord),
        }
    }
}

} // verus!
