use vstd::prelude::*;

use crate::publisher::{MatchResult, PlayerStats, PublishRecord};
use crate::webhook::{get_players_field, player_lines};
use crate::utils::{
    game_mode_label, lobby_label, match_result_label, transform_game_mode, transform_lobby_type,
    transform_match_result,
};

verus! {

/// One element of a card module.
#[derive(Clone, Debug)]
pub struct Element {
    pub element_type: String,
    pub content: String,
}

/// The text of a card module.
#[derive(Clone, Debug)]
pub struct Text {
    pub text_type: String,
    pub content: String,
}

/// One module of a card: a section, a divider or a context line.
#[derive(Clone, Debug)]
pub struct Module {
    pub module_type: String,
    pub text: Option<Text>,
    pub elements: Vec<Element>,
}

#[derive(Clone, Debug)]
pub struct Card {
    pub card_type: String,
    pub theme: String,
    pub size: String,
    pub modules: Vec<Module>,
}

/// The cards of one chat message.
#[derive(Clone, Debug)]
pub struct CardMessage {
    pub cards: Vec<Card>,
}

/// The values shown in a card's header.
pub struct HeaderModuleData<'a> {
    guild_name: &'a String,
    guild_link: &'a String,
    match_id: &'a String,
    match_link: &'a String,
    match_result: &'a String,
    lobby_type: &'a String,
    game_mode: &'a String,
    duration: &'a String,
}

/// The per-side participant lines shown in a card's body.
pub struct BodyModuleData<'a> {
    radiant: &'a String,
    dire: &'a String,
}

/// Renders notifications as chat cards.
pub struct KookPublisher;

pub open spec fn guild_link(guild_id: Seq<char>) -> Seq<char> {
    "https://stratz.com/guilds/"@ + guild_id
}

pub open spec fn match_link(match_id: Seq<char>) -> Seq<char> {
    "https://stratz.com/matches/"@ + match_id
}

/// Header: guild and match links, then outcome, lobby, mode and duration.
pub open spec fn header_content(r: PublishRecord) -> Seq<char> {
    "["@ + r.guild_name@ + "]("@ + guild_link(r.guild_id@) + ") - ["@ + r.match_id@ + "]("@
        + match_link(r.match_id@) + ")"@ + "**"@ + match_result_label(r.match_result) + " - "@
        + lobby_label(r.lobby_type) + " - "@ + game_mode_label(r.game_mode) + "** *"@
        + r.duration_field@ + "*\n"@
}

/// A titled block of participant lines, left out when the side has no participants.
pub open spec fn side_block(title: Seq<char>, lines: Seq<char>) -> Seq<char> {
    if lines.len() > 0 {
        title + lines
    } else {
        seq![]
    }
}

pub open spec fn body_content(r: PublishRecord) -> Seq<char> {
    side_block("**Radiant**\n"@, player_lines(r.player_stats_radiant@)) + side_block(
        "**Dire**\n"@,
        player_lines(r.player_stats_dire@),
    )
}

pub open spec fn card_theme(r: MatchResult) -> Seq<char> {
    match r {
        MatchResult::Victory => "success"@,
        MatchResult::Defeat => "danger"@,
        MatchResult::Both => "warning"@,
        MatchResult::Cancelled => "none"@,
    }
}

/// A section module holding markdown text `content`.
pub open spec fn is_section(m: Module, content: Seq<char>) -> bool {
    &&& m.module_type@ == "section"@
    &&& (m.text matches Some(t) && t.text_type@ == "kmarkdown"@ && t.content@ == content)
    &&& m.elements@.len() == 0
}

pub open spec fn is_divider(m: Module) -> bool {
    &&& m.module_type@ == "divider"@
    &&& m.text is None
    &&& m.elements@.len() == 0
}

/// The footer: one plain-text element crediting the data provider.
pub open spec fn is_footer(m: Module) -> bool {
    &&& m.module_type@ == "context"@
    &&& m.text is None
    &&& m.elements@.len() == 1
    &&& m.elements@[0].element_type@ == "plain-text"@
    &&& m.elements@[0].content@ == "Powered by Stratz"@
}

/// The card announcing record `r`.
pub open spec fn is_card_of(c: Card, r: PublishRecord) -> bool {
    &&& c.card_type@ == "card"@
    &&& c.theme@ == card_theme(r.match_result)
    &&& c.size@ == "lg"@
    &&& c.modules@.len() == 5
    &&& is_section(c.modules@[0], header_content(r))
    &&& is_divider(c.modules@[1])
    &&& is_section(c.modules@[2], body_content(r))
    &&& is_divider(c.modules@[3])
    &&& is_footer(c.modules@[4])
}

pub(crate) fn concat_link(prefix: &str, id: &String) -> (r: String)
    ensures
        r@ == prefix@ + id@,
{
    let mut s = String::from_str(prefix);
    s.append(id.as_str());
    s
}

impl KookPublisher {
    /// The card message announcing `publish_record`.
    pub fn card_message(&self, publish_record: &PublishRecord) -> (r: CardMessage)
        ensures
            r.cards@.len() == 1,
            is_card_of(r.cards@[0], *publish_record),
    {
        let guild_link = concat_link("https://stratz.com/guilds/", &publish_record.guild_id);
        let match_link = concat_link("https://stratz.com/matches/", &publish_record.match_id);
        let match_result = transform_match_result(&publish_record.match_result);
        let lobby_type = transform_lobby_type(&publish_record.lobby_type);
        let game_mode = transform_game_mode(&publish_record.game_mode);
        let header_module_data = HeaderModuleData {
            guild_name: &publish_record.guild_name,
            guild_link: &guild_link,
            match_id: &publish_record.match_id,
            match_link: &match_link,
            match_result: &match_result,
            lobby_type: &lobby_type,
            game_mode: &game_mode,
            duration: &publish_record.duration_field,
        };
        let radiant = self.get_players_stats(&publish_record.player_stats_radiant);
        let dire = self.get_players_stats(&publish_record.player_stats_dire);
        let body_module_data = BodyModuleData { radiant: &radiant, dire: &dire };
        let mut modules: Vec<Module> = Vec::new();
        modules.push(self.get_header_module(&header_module_data));
        modules.push(self.get_divider_module());
        modules.push(self.get_body_module(&body_module_data));
        modules.push(self.get_divider_module());
        modules.push(self.get_footer_module());
        let card = Card {
            card_type: String::from_str("card"),
            theme: self.match_card_theme(&publish_record.match_result),
            size: String::from_str("lg"),
            modules,
        };
        let mut cards: Vec<Card> = Vec::new();
        cards.push(card);
        CardMessage { cards }
    }

    fn get_header_content(&self, data: &HeaderModuleData) -> (r: String)
        ensures
            r@ == "["@ + data.guild_name@ + "]("@ + data.guild_link@ + ") - ["@ + data.match_id@
                + "]("@ + data.match_link@ + ")"@ + "**"@ + data.match_result@ + " - "@
                + data.lobby_type@ + " - "@ + data.game_mode@ + "** *"@ + data.duration@
                + "*\n"@,
    {
        let mut header_content = String::new();
        header_content.append("[");
        header_content.append(data.guild_name.as_str());
        header_content.append("](");
        header_content.append(data.guild_link.as_str());
        header_content.append(") - [");
        header_content.append(data.match_id.as_str());
        header_content.append("](");
        header_content.append(data.match_link.as_str());
        header_content.append(")");
        header_content.append("**");
        header_content.append(data.match_result.as_str());
        header_content.append(" - ");
        header_content.append(data.lobby_type.as_str());
        header_content.append(" - ");
        header_content.append(data.game_mode.as_str());
        header_content.append("** *");
        header_content.append(data.duration.as_str());
        header_content.append("*\n");
        header_content
    }

    fn get_header_text(&self, data: &HeaderModuleData) -> (r: Text)
        ensures
            r.text_type@ == "kmarkdown"@,
            r.content@ == "["@ + data.guild_name@ + "]("@ + data.guild_link@ + ") - ["@
                + data.match_id@ + "]("@ + data.match_link@ + ")"@ + "**"@ + data.match_result@
                + " - "@ + data.lobby_type@ + " - "@ + data.game_mode@ + "** *"@ + data.duration@
                + "*\n"@,
    {
        Text { text_type: String::from_str("kmarkdown"), content: self.get_header_content(data) }
    }

    fn get_header_module(&self, data: &HeaderModuleData) -> (r: Module)
        ensures
            is_section(
                r,
                "["@ + data.guild_name@ + "]("@ + data.guild_link@ + ") - ["@ + data.match_id@
                    + "]("@ + data.match_link@ + ")"@ + "**"@ + data.match_result@ + " - "@
                    + data.lobby_type@ + " - "@ + data.game_mode@ + "** *"@ + data.duration@
                    + "*\n"@,
            ),
    {
        Module {
            module_type: String::from_str("section"),
            text: Some(self.get_header_text(data)),
            elements: Vec::new(),
        }
    }

    fn get_body_content(&self, data: &BodyModuleData) -> (r: String)
        ensures
            r@ == side_block("**Radiant**\n"@, data.radiant@) + side_block(
                "**Dire**\n"@,
                data.dire@,
            ),
    {
        let mut body_content = String::new();
        if data.radiant.unicode_len() > 0 {
            body_content.append("**Radiant**\n");
            body_content.append(data.radiant.as_str());
        }
        if data.dire.unicode_len() > 0 {
            body_content.append("**Dire**\n");
            body_content.append(data.dire.as_str());
        }
        body_content
    }

    fn get_body_text(&self, data: &BodyModuleData) -> (r: Text)
        ensures
            r.text_type@ == "kmarkdown"@,
            r.content@ == side_block("**Radiant**\n"@, data.radiant@) + side_block(
                "**Dire**\n"@,
                data.dire@,
            ),
    {
        Text { text_type: String::from_str("kmarkdown"), content: self.get_body_content(data) }
    }

    fn get_body_module(&self, data: &BodyModuleData) -> (r: Module)
        ensures
            is_section(
                r,
                side_block("**Radiant**\n"@, data.radiant@) + side_block(
                    "**Dire**\n"@,
                    data.dire@,
                ),
            ),
    {
        Module {
            module_type: String::from_str("section"),
            text: Some(self.get_body_text(data)),
            elements: Vec::new(),
        }
    }

    fn get_divider_module(&self) -> (r: Module)
        ensures
            is_divider(r),
    {
        Module { module_type: String::from_str("divider"), text: None, elements: Vec::new() }
    }

    fn get_stratz_appriciation_element(&self) -> (r: Element)
        ensures
            r.element_type@ == "plain-text"@,
            r.content@ == "Powered by Stratz"@,
    {
        Element {
            element_type: String::from_str("plain-text"),
            content: String::from_str("Powered by Stratz"),
        }
    }

    fn get_footer_module(&self) -> (r: Module)
        ensures
            is_footer(r),
    {
        let mut elements: Vec<Element> = Vec::new();
        elements.push(self.get_stratz_appriciation_element());
        Module { module_type: String::from_str("context"), text: None, elements }
    }

    fn match_card_theme(&self, match_result: &MatchResult) -> (r: String)
        ensures
            r@ == card_theme(*match_result),
    {
        let card_theme = match match_result {
            MatchResult::Victory => "success",
            MatchResult::Defeat => "danger",
            MatchResult::Both => "warning",
            MatchResult::Cancelled => "none",
        };
        String::from_str(card_theme)
    }

    /// One line per participant: `icon name [k/d/a]`.
    pub fn get_players_stats(&self, players_stats: &Vec<PlayerStats>) -> (r: String)
        ensures
            r@ == player_lines(players_stats@),
    {
        get_players_field(players_stats)
    }
}

} // verus!
