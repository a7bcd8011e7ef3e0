use vstd::prelude::*;

verus! {

/// Any failure of a polling run.
#[derive(Clone, Debug, PartialEq, Eq, Structural)]
pub enum PollerError {
    Publisher(PublisherError),
    Provider(ProviderError),
    Parser(ParserError),
}

/// A provider record lacked a field that a notification needs.
#[derive(Clone, Copy, Debug, PartialEq, Eq, Structural)]
pub enum ParserError {
    Player,
    Guild,
    Match,
}

/// The match provider or the watermark store failed.
#[derive(Clone, Copy, Debug, PartialEq, Eq, Structural)]
pub enum ProviderError {
    Stratz,
    Dynamo,
}

/// A destination did not accept a notification.
#[derive(Clone, Copy, Debug, PartialEq, Eq, Structural)]
pub enum PublisherError {
    Discord,
    Kook,
}

impl ParserError {
    pub open spec fn text(self) -> Seq<char> {
        match self {
            ParserError::Player => "ParserError.Player"@,
            ParserError::Guild => "ParserError.Guild"@,
            ParserError::Match => "ParserError.Match"@,
        }
    }

    /// The operator-facing description of the error.
    pub fn to_text(&self) -> (r: String)
        ensures
            r@ == self.text(),
    {
        match self {
            ParserError::Player => String::from_str("ParserError.Player"),
            ParserError::Guild => String::from_str("ParserError.Guild"),
            ParserError::Match => String::from_str("ParserError.Match"),
        }
    }
}

impl ProviderError {
    pub open spec fn text(self) -> Seq<char> {
        match self {
            ProviderError::Stratz => "ProviderError.Player"@,
            ProviderError::Dynamo => "ProviderDyanmo"@,
        }
    }

    /// The operator-facing description of the error.
    pub fn to_text(&self) -> (r: String)
        ensures
            r@ == self.text(),
    {
        match self {
            ProviderError::Stratz => String::from_str("ProviderError.Player"),
            ProviderError::Dynamo => String::from_str("ProviderDyanmo"),
        }
    }
}

impl PublisherError {
    pub open spec fn text(self) -> Seq<char> {
        match self {
            PublisherError::Discord => "PublisherError.Discord"@,
            PublisherError::Kook => "PublisherError.Kook"@,
        }
    }

    /// The operator-facing description of the error.
    pub fn to_text(&self) -> (r: String)
        ensures
            r@ == self.text(),
    {
        match self {
            PublisherError::Discord => String::from_str("PublisherError.Discord"),
            PublisherError::Kook => String::from_str("PublisherError.Kook"),
        }
    }
}

impl PollerError {
    /// A run error reads as the error it wraps.
    pub open spec fn text(self) -> Seq<char> {
        match self {
            PollerError::Publisher(e) => e.text(),
            PollerError::Provider(e) => e.text(),
            PollerError::Parser(e) => e.text(),
        }
    }

    /// The operator-facing description of the error.
    pub fn to_text(&self) -> (r: String)
        ensures
            r@ == self.text(),
    {
        match self {
            PollerError::Publisher(e) => e.to_text(),
            PollerError::Provider(e) => e.to_text(),
            PollerError::Parser(e) => e.to_text(),
        }
    }
}

} // verus!
