use vstd::prelude::*;

verus! {

/// Kinds of chat message, as the chat service numbers them.
#[allow(non_camel_case_types, clippy::upper_case_acronyms)]
#[derive(Clone, Copy, Debug, PartialEq, Eq, Structural)]
pub enum MessageType {
    TEXT,
    KMARKDOWN,
    CARD,
}

impl MessageType {
    pub open spec fn code(self) -> Seq<char> {
        match self {
            MessageType::TEXT => "1"@,
            MessageType::KMARKDOWN => "9"@,
            MessageType::CARD => "10"@,
        }
    }

    /// The number the chat service uses for this kind, as text.
    pub fn to_value(&self) -> (r: &'static str)
        ensures
            r@ == self.code(),
    {
        match self {
            MessageType::TEXT => "1",
            MessageType::KMARKDOWN => "9",
            MessageType::CARD => "10",
        }
    }
}

/// The authorization header value for a bot token.
pub fn authorization_value(token: &str) -> (r: String)
    ensures
        r@ == "Bot "@ + token@,
{
    let mut value = String::from_str("Bot ");
    value.append(token);
    value
}

} // verus!
