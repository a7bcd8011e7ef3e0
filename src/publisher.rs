use vstd::prelude::*;

use crate::errors::ParserError;
use crate::stratz::{GameMode, LobbyType, Match, Player};
use crate::text::{decimal, push_decimal, push_signed_decimal, signed_decimal};

verus! {

/// A match needs at least this many participants to be announced.
pub const MINIMUM_PLAYERS: usize = 1;

/// How a match ended for the tracked guild's players.
#[derive(Clone, Copy, Debug, PartialEq, Eq, Hash, Structural)]
pub enum MatchResult {
    /// No participant reported a win or a loss.
    Cancelled,
    /// Every participant won.
    Victory,
    /// Every participant lost.
    Defeat,
    /// Some participants won and some lost.
    Both,
}

/// One participant's line of a notification.
#[derive(Clone, Debug)]
pub struct PlayerStats {
    pub hero_id: i16,
    pub hero_display_name: String,
    pub name: String,
    pub kills: u8,
    pub deaths: u8,
    pub assists: u8,
    /// The performance rating, shown only when the provider has one.
    pub imp: Option<i16>,
}

/// The participants of a match split by side, each side in provider order.
#[derive(Clone, Debug)]
pub struct Teams {
    pub radiant: Vec<Player>,
    pub dire: Vec<Player>,
}

/// A fully populated notification about one match.
#[derive(Clone, Debug)]
pub struct PublishRecord {
    pub match_id: String,
    pub guild_id: String,
    pub guild_name: String,
    pub guild_logo: String,
    pub match_result: MatchResult,
    pub lobby_type: LobbyType,
    pub game_mode: GameMode,
    pub player_stats_radiant: Vec<PlayerStats>,
    pub player_stats_dire: Vec<PlayerStats>,
    pub duration_field: String,
    /// End of the match, in seconds since the Unix epoch (UTC).
    pub end: i64,
}

/// Turns provider matches into notifications.
pub struct Publisher;

/// The player carries everything its stats line needs.
pub open spec fn stats_complete(p: Player) -> bool {
    &&& p.kills is Some
    &&& p.deaths is Some
    &&& p.assists is Some
    &&& (p.hero matches Some(h) && h.id is Some && h.display_name is Some)
    &&& (p.steam_account matches Some(s) && s.name is Some)
}

/// The entry is a player with a side, an outcome and a complete stats line.
pub open spec fn player_complete(p: Option<Player>) -> bool {
    p matches Some(pl) && pl.is_radiant is Some && pl.is_victory is Some && stats_complete(pl)
}

pub open spec fn players_complete(ps: Seq<Option<Player>>) -> bool {
    forall|i: int| 0 <= i < ps.len() ==> player_complete(#[trigger] ps[i])
}

/// `s` is the stats line of `p`.
pub open spec fn stats_of(p: Player, s: PlayerStats) -> bool {
    &&& s.hero_id == p.hero->0.id->0
    &&& s.hero_display_name@ == p.hero->0.display_name->0@
    &&& s.name@ == p.steam_account->0.name->0@
    &&& s.kills == p.kills->0
    &&& s.deaths == p.deaths->0
    &&& s.assists == p.assists->0
    &&& s.imp == p.imp
}

/// `ss` holds the stats lines of `ps`, in the same order.
pub open spec fn stats_list(ss: Seq<PlayerStats>, ps: Seq<Player>) -> bool {
    &&& ss.len() == ps.len()
    &&& forall|i: int| 0 <= i < ps.len() ==> stats_of(#[trigger] ps[i], ss[i])
}

/// The players on one side, in provider order.
pub open spec fn side(ps: Seq<Option<Player>>, radiant: bool) -> Seq<Player>
    decreases ps.len(),
{
    if ps.len() == 0 {
        seq![]
    } else {
        let rest = side(ps.drop_last(), radiant);
        match ps.last() {
            Some(p) => if p.is_radiant == Some(radiant) {
                rest.push(p)
            } else {
                rest
            },
            None => rest,
        }
    }
}

/// The entry is a player whose win flag is `v`.
pub open spec fn flag_is(p: Option<Player>, v: bool) -> bool {
    p matches Some(pl) && pl.is_victory == Some(v)
}

/// Every entry is a player with a win flag.
pub open spec fn outcome_known(ps: Seq<Option<Player>>) -> bool {
    forall|i: int| 0 <= i < ps.len() ==> (#[trigger] ps[i] matches Some(p) && p.is_victory is Some)
}

/// The outcome is a fold over the win flags: a mix of wins and losses is `Both`.
pub open spec fn outcome(ps: Seq<Option<Player>>) -> MatchResult {
    let won = exists|i: int| 0 <= i < ps.len() && #[trigger] flag_is(ps[i], true);
    let lost = exists|i: int| 0 <= i < ps.len() && #[trigger] flag_is(ps[i], false);
    if won && lost {
        MatchResult::Both
    } else if won {
        MatchResult::Victory
    } else if lost {
        MatchResult::Defeat
    } else {
        MatchResult::Cancelled
    }
}

/// Minutes of a duration, truncated toward zero.
pub open spec fn minutes_part(s: int) -> int {
    if s >= 0 {
        s / 60
    } else {
        -((-s) / 60)
    }
}

/// Seconds left over after the whole minutes, with the sign of the duration.
pub open spec fn seconds_part(s: int) -> int {
    if s >= 0 {
        s % 60
    } else {
        -((-s) % 60)
    }
}

/// At least two characters: a single digit gets a leading zero.
pub open spec fn two_digits(r: int) -> Seq<char> {
    if 0 <= r < 10 {
        seq!['0'] + decimal(r as nat)
    } else {
        signed_decimal(r)
    }
}

/// A duration written as `minutes:seconds`, without hours.
pub open spec fn duration_text(s: int) -> Seq<char> {
    signed_decimal(minutes_part(s)) + seq![':'] + two_digits(seconds_part(s))
}

/// The match-level fields are present and it has at least one participant.
pub open spec fn match_complete(m: Match) -> bool {
    &&& m.id is Some
    &&& (m.players matches Some(ps) && ps@.len() >= MINIMUM_PLAYERS)
    &&& m.duration_seconds is Some
    &&& m.end_date_time is Some
    &&& m.lobby_type is Some
    &&& m.game_mode is Some
}

/// The match can be turned into a notification.
pub open spec fn prepared(m: Match) -> bool {
    match_complete(m) && players_complete(m.players->0@)
}

impl PublishRecord {
    /// The record is the notification of match `m` of the given guild.
    pub open spec fn describes(self, guild_id: i64, guild_name: Seq<char>, guild_logo: Seq<char>, m: Match) -> bool {
        &&& self.match_id@ == signed_decimal(m.id->0 as int)
        &&& self.guild_id@ == signed_decimal(guild_id as int)
        &&& self.guild_name@ == guild_name
        &&& self.guild_logo@ == guild_logo
        &&& self.match_result == outcome(m.players->0@)
        &&& self.lobby_type == m.lobby_type->0
        &&& self.game_mode == m.game_mode->0
        &&& stats_list(self.player_stats_radiant@, side(m.players->0@, true))
        &&& stats_list(self.player_stats_dire@, side(m.players->0@, false))
        &&& self.duration_field@ == duration_text(m.duration_seconds->0 as int)
        &&& self.end == m.end_date_time->0
    }
}

/// Writes a duration in seconds as `minutes:seconds`.
pub fn format_duration(secs: i64) -> (r: String)
    ensures
        r@ == duration_text(secs as int),
{
    let mins: i64;
    let rest: i64;
    if secs >= 0 {
        let u = secs as u64;
        mins = (u / 60) as i64;
        rest = (u % 60) as i64;
    } else {
        let u = (0 - (secs as i128)) as u64;
        mins = 0 - ((u / 60) as i64);
        rest = 0 - ((u % 60) as i64);
    }
    let mut out = String::new();
    push_signed_decimal(&mut out, mins);
    out.append(":");
    proof {
        reveal_strlit(":");
        reveal_strlit("0");
    }
    if 0 <= rest && rest < 10 {
        out.append("0");
        push_decimal(&mut out, rest as u64);
    } else {
        push_signed_decimal(&mut out, rest);
    }
    assert(out@ == duration_text(secs as int));
    out
}

/// Derives the outcome from the participants' win flags.
pub fn get_match_result(players: &Vec<Option<Player>>) -> (r: Result<MatchResult, ParserError>)
    ensures
        r is Ok <==> outcome_known(players@),
        r matches Ok(m) ==> m == outcome(players@),
        r matches Err(e) ==> e == ParserError::Player,
{
    let mut is_victory = false;
    let mut is_defeat = false;
    let mut i: usize = 0;
    while i < players.len()
        invariant
            i <= players.len(),
            forall|j: int| 0 <= j < i ==> (#[trigger] players@[j] matches Some(p) && p.is_victory is Some),
            is_victory <==> exists|j: int| 0 <= j < i && #[trigger] flag_is(players@[j], true),
            is_defeat <==> exists|j: int| 0 <= j < i && #[trigger] flag_is(players@[j], false),
        decreases players.len() - i,
    {
        match &players[i] {
            Some(p) => match p.is_victory {
                Some(true) => {
                    assert(flag_is(players@[i as int], true));
                    is_victory = true;
                },
                Some(false) => {
                    assert(flag_is(players@[i as int], false));
                    is_defeat = true;
                },
                None => {
                    return Err(ParserError::Player);
                },
            },
            None => {
                return Err(ParserError::Player);
            },
        }
        i += 1;
    }
    if is_victory && is_defeat {
        Ok(MatchResult::Both)
    } else if is_victory {
        Ok(MatchResult::Victory)
    } else if is_defeat {
        Ok(MatchResult::Defeat)
    } else {
        Ok(MatchResult::Cancelled)
    }
}

/// Every entry is a player with a side flag.
pub open spec fn sides_known(ps: Seq<Option<Player>>) -> bool {
    forall|i: int| 0 <= i < ps.len() ==> (#[trigger] ps[i] matches Some(p) && p.is_radiant is Some)
}

pub open spec fn all_stats_complete(ps: Seq<Player>) -> bool {
    forall|i: int| 0 <= i < ps.len() ==> stats_complete(#[trigger] ps[i])
}

pub open spec fn entries_stats_complete(ps: Seq<Option<Player>>) -> bool {
    forall|i: int| 0 <= i < ps.len() ==> stats_complete(#[trigger] ps[i]->0)
}

proof fn lemma_sides_cover(ps: Seq<Option<Player>>)
    requires
        sides_known(ps),
    ensures
        entries_stats_complete(ps) == (all_stats_complete(side(ps, true)) && all_stats_complete(
            side(ps, false),
        )),
    decreases ps.len(),
{
    if ps.len() > 0 {
        let rest = ps.drop_last();
        assert(sides_known(rest)) by {
            assert forall|i: int| 0 <= i < rest.len() implies (#[trigger] rest[i] matches Some(
                p,
            ) && p.is_radiant is Some) by {
                assert(rest[i] == ps[i]);
            }
        }
        lemma_sides_cover(rest);
        let x = ps.last()->0;
        assert(ps[ps.len() - 1] matches Some(p) && p.is_radiant is Some);
        assert(ps.last() == Some(x));
        assert(x.is_radiant is Some);
        assert(entries_stats_complete(ps) == (entries_stats_complete(rest) && stats_complete(x)))
            by {
            if entries_stats_complete(rest) && stats_complete(x) {
                assert forall|i: int| 0 <= i < ps.len() implies stats_complete(#[trigger] ps[i]->0) by {
                    if i < rest.len() {
                        assert(rest[i] == ps[i]);
                    }
                }
            }
            if entries_stats_complete(ps) {
                assert forall|i: int| 0 <= i < rest.len() implies stats_complete(#[trigger] rest[i]->0) by {
                    assert(rest[i] == ps[i]);
                }
                assert(stats_complete(ps[ps.len() - 1]->0));
            }
        }
        assert forall|b: bool| all_stats_complete(#[trigger] side(ps, b)) == (all_stats_complete(
            side(rest, b),
        ) && (x.is_radiant == Some(b) ==> stats_complete(x))) by {
            let sr = side(rest, b);
            if x.is_radiant == Some(b) {
                assert(side(ps, b) == sr.push(x));
                if all_stats_complete(sr) && stats_complete(x) {
                    assert forall|i: int| 0 <= i < sr.push(x).len() implies stats_complete(
                        #[trigger] sr.push(x)[i],
                    ) by {
                        if i < sr.len() {
                            assert(sr.push(x)[i] == sr[i]);
                        }
                    }
                }
                if all_stats_complete(sr.push(x)) {
                    assert forall|i: int| 0 <= i < sr.len() implies stats_complete(#[trigger] sr[i]) by {
                        assert(sr.push(x)[i] == sr[i]);
                    }
                    assert(sr.push(x)[sr.len() as int] == x);
                }
            } else {
                assert(side(ps, b) == sr);
            }
        }
        let t = all_stats_complete(side(ps, true));
        let f = all_stats_complete(side(ps, false));
        assert(t == (all_stats_complete(side(rest, true)) && (x.is_radiant == Some(true)
            ==> stats_complete(x))));
        assert(f == (all_stats_complete(side(rest, false)) && (x.is_radiant == Some(false)
            ==> stats_complete(x))));
        if x.is_radiant == Some(true) {
            assert(f == all_stats_complete(side(rest, false)));
            assert(t == (all_stats_complete(side(rest, true)) && stats_complete(x)));
        } else {
            assert(x.is_radiant == Some(false));
            assert(t == all_stats_complete(side(rest, true)));
        }
    }
}

/// Splits the participants by side flag, each side keeping provider order. Fails only on
/// an entry that is missing or has no side flag.
pub fn get_players_by_team(entries: Vec<Option<Player>>) -> (r: Result<Teams, ParserError>)
    ensures
        r is Ok <==> sides_known(entries@),
        r matches Ok(t) ==> t.radiant@ == side(entries@, true) && t.dire@ == side(entries@, false),
        r matches Err(e) ==> e == ParserError::Player,
{
    let ghost all = entries@;
    let mut players = entries;
    let mut radiant: Vec<Player> = Vec::new();
    let mut dire: Vec<Player> = Vec::new();
    let mut i: usize = 0;
    let total: usize = players.len();
    while players.len() > 0
        invariant
            i <= all.len(),
            all == entries@,
            all.len() == total,
            players@ == all.subrange(i as int, all.len() as int),
            forall|j: int| 0 <= j < i ==> (#[trigger] all[j] matches Some(p) && p.is_radiant is Some),
            radiant@ == side(all.take(i as int), true),
            dire@ == side(all.take(i as int), false),
        decreases players.len(),
    {
        assert(all.take(i + 1).drop_last() == all.take(i as int));
        assert(players@[0] == all[i as int]);
        let entry = players.remove(0);
        let ghost e = entry;
        assert(players@ == all.subrange(i + 1, all.len() as int));
        let player = match entry {
            Some(p) => p,
            None => {
                assert(all[i as int] is None);
                assert(!sides_known(all));
                return Err(ParserError::Player);
            },
        };
        match player.is_radiant {
            Some(true) => radiant.push(player),
            Some(false) => dire.push(player),
            None => {
                assert(!(all[i as int] matches Some(p) && p.is_radiant is Some));
                assert(!sides_known(all));
                return Err(ParserError::Player);
            },
        }
        i += 1;
    }
    assert(all.take(all.len() as int) == all);
    Ok(Teams { radiant, dire })
}

/// The stats lines of one side's players, in order.
pub fn get_side_stats(players: &Vec<Player>) -> (r: Result<Vec<PlayerStats>, ParserError>)
    ensures
        r is Ok <==> all_stats_complete(players@),
        r matches Ok(ss) ==> stats_list(ss@, players@),
        r matches Err(e) ==> e == ParserError::Player,
{
    let mut stats: Vec<PlayerStats> = Vec::new();
    let mut i: usize = 0;
    while i < players.len()
        invariant
            i <= players.len(),
            forall|j: int| 0 <= j < i ==> stats_complete(#[trigger] players@[j]),
            stats@.len() == i,
            forall|j: int| 0 <= j < i ==> stats_of(#[trigger] players@[j], stats@[j]),
        decreases players.len() - i,
    {
        let s = match get_player_stats(&players[i]) {
            Ok(s) => s,
            Err(e) => {
                return Err(e);
            },
        };
        stats.push(s);
        i += 1;
    }
    Ok(stats)
}

/// The stats line of one participant.
pub fn get_player_stats(player: &Player) -> (r: Result<PlayerStats, ParserError>)
    ensures
        r is Ok <==> stats_complete(*player),
        r matches Ok(s) ==> stats_of(*player, s),
        r matches Err(e) ==> e == ParserError::Player,
{
    let hero = match &player.hero {
        Some(h) => h,
        None => {
            return Err(ParserError::Player);
        },
    };
    let hero_id = match hero.id {
        Some(id) => id,
        None => {
            return Err(ParserError::Player);
        },
    };
    let hero_display_name = match &hero.display_name {
        Some(n) => n.clone(),
        None => {
            return Err(ParserError::Player);
        },
    };
    let name = match &player.steam_account {
        Some(s) => match &s.name {
            Some(n) => n.clone(),
            None => {
                return Err(ParserError::Player);
            },
        },
        None => {
            return Err(ParserError::Player);
        },
    };
    let kills = match player.kills {
        Some(k) => k,
        None => {
            return Err(ParserError::Player);
        },
    };
    let deaths = match player.deaths {
        Some(d) => d,
        None => {
            return Err(ParserError::Player);
        },
    };
    let assists = match player.assists {
        Some(a) => a,
        None => {
            return Err(ParserError::Player);
        },
    };
    Ok(PlayerStats { hero_id, hero_display_name, name, kills, deaths, assists, imp: player.imp })
}

fn decimal_string(n: i64) -> (r: String)
    ensures
        r@ == signed_decimal(n as int),
{
    let mut s = String::new();
    push_signed_decimal(&mut s, n);
    s
}

impl Publisher {
    /// Validates a provider match and builds its notification. Missing match-level
    /// fields, or no participants, give `Match`; an incomplete participant gives `Player`.
    pub fn prepare(guild_id: i64, guild_name: &str, guild_logo: &str, guild_match: Match) -> (r: Result<PublishRecord, ParserError>)
        ensures
            r is Ok <==> prepared(guild_match),
            r matches Err(e) ==> e == (if match_complete(guild_match) {
                ParserError::Player
            } else {
                ParserError::Match
            }),
            r matches Ok(rec) ==> rec.describes(guild_id, guild_name@, guild_logo@, guild_match),
    {
        let ghost m = guild_match;
        let Match { id, players, duration_seconds, end_date_time, lobby_type, game_mode } = guild_match;
        let match_id = match id {
            Some(i) => i,
            None => {
                return Err(ParserError::Match);
            },
        };
        let players = match players {
            Some(p) => p,
            None => {
                return Err(ParserError::Match);
            },
        };
        if players.len() < MINIMUM_PLAYERS {
            return Err(ParserError::Match);
        }
        let duration = match duration_seconds {
            Some(d) => d,
            None => {
                return Err(ParserError::Match);
            },
        };
        let end = match end_date_time {
            Some(e) => e,
            None => {
                return Err(ParserError::Match);
            },
        };
        let lobby_type = match lobby_type {
            Some(l) => l,
            None => {
                return Err(ParserError::Match);
            },
        };
        let game_mode = match game_mode {
            Some(g) => g,
            None => {
                return Err(ParserError::Match);
            },
        };
        assert(match_complete(m));
        let match_result = match get_match_result(&players) {
            Ok(r) => r,
            Err(e) => {
                assert(!players_complete(players@));
                return Err(e);
            },
        };
        let ghost entries = players@;
        let teams = match get_players_by_team(players) {
            Ok(t) => t,
            Err(e) => {
                return Err(e);
            },
        };
        proof {
            lemma_sides_cover(entries);
        }
        let radiant = match get_side_stats(&teams.radiant) {
            Ok(ss) => ss,
            Err(e) => {
                return Err(e);
            },
        };
        let dire = match get_side_stats(&teams.dire) {
            Ok(ss) => ss,
            Err(e) => {
                return Err(e);
            },
        };
        Ok(PublishRecord {
            match_id: decimal_string(match_id),
            guild_id: decimal_string(guild_id),
            guild_name: String::from_str(guild_name),
            guild_logo: String::from_str(guild_logo),
            match_result,
            lobby_type,
            game_mode,
            player_stats_radiant: radiant,
            player_stats_dire: dire,
            duration_field: format_duration(duration),
            end,
        })
    }
}

} // verus!

verus! {

/// The performance rating after a stats line, signed; nothing when absent.
pub open spec fn imp_suffix(imp: Option<i16>) -> Seq<char> {
    match imp {
        Some(v) => if v >= 0 {
            " +"@ + decimal(v as nat)
        } else {
            " "@ + signed_decimal(v as int)
        },
        None => seq![],
    }
}

/// `[kills/deaths/assists]`, then the performance rating if there is one.
pub open spec fn kda(s: PlayerStats) -> Seq<char> {
    "["@ + decimal(s.kills as nat) + "/"@ + decimal(s.deaths as nat) + "/"@ + decimal(
        s.assists as nat,
    ) + "]"@ + imp_suffix(s.imp)
}

/// Appends the `[kills/deaths/assists]` part of a stats line to `out`.
pub fn push_kda(out: &mut String, s: &PlayerStats)
    ensures
        final(out)@ == old(out)@ + kda(*s),
{
    let ghost start = out@;
    out.append("[");
    push_decimal(out, s.kills as u64);
    out.append("/");
    push_decimal(out, s.deaths as u64);
    out.append("/");
    push_decimal(out, s.assists as u64);
    out.append("]");
    match s.imp {
        Some(v) => {
            if v >= 0 {
                out.append(" +");
                push_decimal(out, v as u64);
            } else {
                out.append(" ");
                push_signed_decimal(out, v as i64);
            }
        },
        None => {},
    }
    assert(out@ =~= start + kda(*s));
}

} // verus!
