use vstd::prelude::*;

use crate::publisher::MatchResult;
use crate::stratz::{GameMode, LobbyType};

verus! {

/// Display label of a match outcome.
pub open spec fn match_result_label(r: MatchResult) -> Seq<char> {
    match r {
        MatchResult::Cancelled => "Cancelled"@,
        MatchResult::Victory => "Victory"@,
        MatchResult::Defeat => "Defeat"@,
        MatchResult::Both => "Clash"@,
    }
}

/// Display label of a lobby kind; kinds without a label read "Unknown".
pub open spec fn lobby_label(l: LobbyType) -> Seq<char> {
    match l {
        LobbyType::UNRANKED => "Unranked"@,
        LobbyType::PRACTICE => "Lobby"@,
        LobbyType::TOURNAMENT => "The International"@,
        LobbyType::TUTORIAL => "Tutorial"@,
        LobbyType::COOP_VS_BOTS => "Bots"@,
        LobbyType::TEAM_MATCH => "Guild"@,
        LobbyType::SOLO_QUEUE => "Solo Ranked"@,
        LobbyType::RANKED => "Ranked"@,
        LobbyType::SOLO_MID => "Duel"@,
        LobbyType::BATTLE_CUP => "Battle Cup"@,
        LobbyType::EVENT => "Event"@,
        LobbyType::Other(_) => "Unknown"@,
    }
}

/// Display label of a game mode; modes without a label read "Unknown".
pub open spec fn game_mode_label(g: GameMode) -> Seq<char> {
    match g {
        GameMode::NONE => "None"@,
        GameMode::ALL_PICK => "All Pick"@,
        GameMode::CAPTAINS_MODE => "Captains Mode"@,
        GameMode::RANDOM_DRAFT => "Random Draft"@,
        GameMode::SINGLE_DRAFT => "Single Draft"@,
        GameMode::ALL_RANDOM => "All Random"@,
        GameMode::INTRO => "Intro"@,
        GameMode::THE_DIRETIDE => "Diretide"@,
        GameMode::REVERSE_CAPTAINS_MODE => "Reverse Captains Mode"@,
        GameMode::THE_GREEVILING => "Greeviling"@,
        GameMode::TUTORIAL => "Tutorial"@,
        GameMode::MID_ONLY => "Mid Only"@,
        GameMode::LEAST_PLAYED => "Least Played"@,
        GameMode::NEW_PLAYER_POOL => "Limited Heroes"@,
        GameMode::COMPENDIUM_MATCHMAKING => "Compendium"@,
        GameMode::CUSTOM => "Custom"@,
        GameMode::CAPTAINS_DRAFT => "Captains Draft"@,
        GameMode::BALANCED_DRAFT => "Balanced Draft"@,
        GameMode::ABILITY_DRAFT => "Ability Draft"@,
        GameMode::EVENT => "Event"@,
        GameMode::ALL_RANDOM_DEATH_MATCH => "All Random Deathmatch"@,
        GameMode::SOLO_MID => "Solo Mid"@,
        GameMode::ALL_PICK_RANKED => "All Draft"@,
        GameMode::TURBO => "Turbo"@,
        GameMode::MUTATION => "Mutation"@,
        GameMode::Other(_) => "Unknown"@,
    }
}

/// The display label of an outcome.
pub fn transform_match_result(match_result: &MatchResult) -> (r: String)
    ensures
        r@ == match_result_label(*match_result),
{
    let result = match match_result {
        MatchResult::Cancelled => "Cancelled",
        MatchResult::Victory => "Victory",
        MatchResult::Defeat => "Defeat",
        MatchResult::Both => "Clash",
    };
    String::from_str(result)
}

/// The display label of a lobby kind.
pub fn transform_lobby_type(lobby_type: &LobbyType) -> (r: String)
    ensures
        r@ == lobby_label(*lobby_type),
{
    let result = match lobby_type {
        LobbyType::UNRANKED => "Unranked",
        LobbyType::PRACTICE => "Lobby",
        LobbyType::TOURNAMENT => "The International",
        LobbyType::TUTORIAL => "Tutorial",
        LobbyType::COOP_VS_BOTS => "Bots",
        LobbyType::TEAM_MATCH => "Guild",
        LobbyType::SOLO_QUEUE => "Solo Ranked",
        LobbyType::RANKED => "Ranked",
        LobbyType::SOLO_MID => "Duel",
        LobbyType::BATTLE_CUP => "Battle Cup",
        LobbyType::EVENT => "Event",
        LobbyType::Other(_) => "Unknown",
    };
    String::from_str(result)
}

/// The display label of a game mode.
pub fn transform_game_mode(game_mode: &GameMode) -> (r: String)
    ensures
        r@ == game_mode_label(*game_mode),
{
    let result = match game_mode {
        GameMode::NONE => "None",
        GameMode::ALL_PICK => "All Pick",
        GameMode::CAPTAINS_MODE => "Captains Mode",
        GameMode::RANDOM_DRAFT => "Random Draft",
        GameMode::SINGLE_DRAFT => "Single Draft",
        GameMode::ALL_RANDOM => "All Random",
        GameMode::INTRO => "Intro",
        GameMode::THE_DIRETIDE => "Diretide",
        GameMode::REVERSE_CAPTAINS_MODE => "Reverse Captains Mode",
        GameMode::THE_GREEVILING => "Greeviling",
        GameMode::TUTORIAL => "Tutorial",
        GameMode::MID_ONLY => "Mid Only",
        GameMode::LEAST_PLAYED => "Least Played",
        GameMode::NEW_PLAYER_POOL => "Limited Heroes",
        GameMode::COMPENDIUM_MATCHMAKING => "Compendium",
        GameMode::CUSTOM => "Custom",
        GameMode::CAPTAINS_DRAFT => "Captains Draft",
        GameMode::BALANCED_DRAFT => "Balanced Draft",
        GameMode::ABILITY_DRAFT => "Ability Draft",
        GameMode::EVENT => "Event",
        GameMode::ALL_RANDOM_DEATH_MATCH => "All Random Deathmatch",
        GameMode::SOLO_MID => "Solo Mid",
        GameMode::ALL_PICK_RANKED => "All Draft",
        GameMode::TURBO => "Turbo",
        GameMode::MUTATION => "Mutation",
        GameMode::Other(_) => "Unknown",
    };
    String::from_str(result)
}

} // verus!
