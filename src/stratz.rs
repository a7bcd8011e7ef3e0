use vstd::prelude::*;

verus! {

/// Lobby kinds reported by the match provider.
#[allow(non_camel_case_types)]
#[derive(Clone, Debug, PartialEq, Eq)]
pub enum LobbyType {
    UNRANKED,
    PRACTICE,
    TOURNAMENT,
    TUTORIAL,
    COOP_VS_BOTS,
    TEAM_MATCH,
    SOLO_QUEUE,
    RANKED,
    SOLO_MID,
    BATTLE_CUP,
    EVENT,
    /// A value that this library does not know by name.
    Other(String),
}

/// Game modes reported by the match provider.
#[allow(non_camel_case_types)]
#[derive(Clone, Debug, PartialEq, Eq)]
pub enum GameMode {
    NONE,
    ALL_PICK,
    CAPTAINS_MODE,
    RANDOM_DRAFT,
    SINGLE_DRAFT,
    ALL_RANDOM,
    INTRO,
    THE_DIRETIDE,
    REVERSE_CAPTAINS_MODE,
    THE_GREEVILING,
    TUTORIAL,
    MID_ONLY,
    LEAST_PLAYED,
    NEW_PLAYER_POOL,
    COMPENDIUM_MATCHMAKING,
    CUSTOM,
    CAPTAINS_DRAFT,
    BALANCED_DRAFT,
    ABILITY_DRAFT,
    EVENT,
    ALL_RANDOM_DEATH_MATCH,
    SOLO_MID,
    ALL_PICK_RANKED,
    TURBO,
    MUTATION,
    /// A value that this library does not know by name.
    Other(String),
}

/// The hero a player picked.
#[derive(Clone, Debug)]
pub struct Hero {
    pub id: Option<i16>,
    pub display_name: Option<String>,
}

/// The account a player used.
#[derive(Clone, Debug)]
pub struct Steam {
    pub name: Option<String>,
}

/// One participant of a match, as the provider reports it.
#[derive(Clone, Debug)]
pub struct Player {
    pub is_radiant: Option<bool>,
    pub is_victory: Option<bool>,
    pub kills: Option<u8>,
    pub deaths: Option<u8>,
    pub assists: Option<u8>,
    /// The provider's performance rating, if it has one.
    pub imp: Option<i16>,
    pub hero: Option<Hero>,
    pub steam_account: Option<Steam>,
}

/// One match, as the provider reports it.
#[derive(Clone, Debug)]
pub struct Match {
    pub id: Option<i64>,
    pub players: Option<Vec<Option<Player>>>,
    pub duration_seconds: Option<i64>,
    /// End of the match, in seconds since the Unix epoch (UTC).
    pub end_date_time: Option<i64>,
    pub lobby_type: Option<LobbyType>,
    pub game_mode: Option<GameMode>,
}

/// The tracked guild with its latest matches, newest first.
#[derive(Clone, Debug)]
pub struct Guild {
    pub id: Option<i64>,
    pub name: Option<String>,
    pub logo: Option<String>,
    pub matches: Option<Vec<Option<Match>>>,
}

#[derive(Clone, Debug)]
pub struct ResponseData {
    pub guild: Option<Guild>,
}

/// A provider answer: data, or a list of error messages, or both.
#[derive(Clone, Debug)]
pub struct Response {
    pub data: Option<ResponseData>,
    pub errors: Option<Vec<String>>,
}

/// The query arguments: which guild, and how many of its latest matches.
#[derive(Clone, Copy, Debug, PartialEq, Eq)]
pub struct Variable {
    pub guild_id: i64,
    pub take: i64,
}

/// The provider's endpoint, authenticated by `jwt`.
pub fn api_url(jwt: &str) -> (r: String)
    ensures
        r@ == "https://api.stratz.com/graphql?jwt="@ + jwt@,
{
    let mut url = String::from_str("https://api.stratz.com/graphql?jwt=");
    url.append(jwt);
    url
}

} // verus!
