//! The ways in which a call on the client can fail.

use vstd::prelude::*;

verus! {

/// A failure of the client. Each variant carries the transport's own words.
#[derive(Debug, Clone, PartialEq, Eq)]
pub enum NewsError {
    /// The transport could not be set up; no client was made.
    Setup(String),
    /// The exchange with the service failed: no reply arrived that could be read.
    Transport(String),
    /// A reply arrived, but its body did not have the shape of the feed that was asked.
    Decode(String),
}

impl NewsError {
    /// The failure of an exchange: a decode failure where `decode` is set, a
    /// transport failure where it is not.
    pub open spec fn exchange(decode: bool, detail: String) -> NewsError {
        if decode {
            NewsError::Decode(detail)
        } else {
            NewsError::Transport(detail)
        }
    }

    /// Names the failure of an exchange from what the transport reports of it:
    /// whether the body was at fault, and the transport's message.
    pub fn from_exchange(decode: bool, detail: String) -> (error: NewsError)
        ensures
            error == NewsError::exchange(decode, detail),
    {
        if decode {
            NewsError::Decode(detail)
        } else {
            NewsError::Transport(detail)
        }
    }

    /// Whether the transport could not be set up.
    pub fn is_setup(&self) -> (yes: bool)
        ensures
            yes == (self is Setup),
    {
        match self {
            NewsError::Setup(_) => true,
            _ => false,
        }
    }

    /// Whether the exchange itself failed.
    pub fn is_transport(&self) -> (yes: bool)
        ensures
            yes == (self is Transport),
    {
        match self {
            NewsError::Transport(_) => true,
            _ => false,
        }
    }

    /// Whether the reply's body could not be decoded.
    pub fn is_decode(&self) -> (yes: bool)
        ensures
            yes == (self is Decode),
    {
        match self {
            NewsError::Decode(_) => true,
            _ => false,
        }
    }

    /// The words that came with the failure.
    pub open spec fn detail(&self) -> Seq<char> {
        match self {
            NewsError::Setup(detail) => detail@,
            NewsError::Transport(detail) => detail@,
            NewsError::Decode(detail) => detail@,
        }
    }

    /// Returns the words that came with the failure.
    pub fn message(&self) -> (text: &str)
        ensures
            text@ == self.detail(),
    {
        match self {
            NewsError::Setup(detail) => detail.as_str(),
            NewsError::Transport(detail) => detail.as_str(),
            NewsError::Decode(detail) => detail.as_str(),
        }
    }
}

/// A failed exchange is either a transport failure or a decode failure, never
/// both and never a setup failure, and which of the two it is follows `decode`
/// alone: the two kinds cannot be taken for one another.
pub proof fn lemma_exchange_kinds_distinct(decode: bool, detail: String)
    ensures
        NewsError::exchange(decode, detail) is Decode <==> decode,
        NewsError::exchange(decode, detail) is Transport <==> !decode,
        !(NewsError::exchange(decode, detail) is Setup),
        NewsError::exchange(decode, detail).detail() == detail@,
{
}

} // verus!
