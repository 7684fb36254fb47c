use vstd::prelude::*;

verus! {

/// Why an operation returned no value.
#[derive(Clone, Copy, Debug, PartialEq, Eq, Structural)]
pub enum ClientError {
    /// The body is not JSON, or lacks a field that the response needs.
    Decode,
    /// The team query returned no team.
    TeamNotFound,
    /// The schedule query returned no date.
    NoGames,
}

impl ClientError {
    /// The message that describes the error.
    pub fn message(&self) -> (r: String)
        ensures
            r@ == (match *self {
                ClientError::Decode => "Failed to decode response."@,
                ClientError::TeamNotFound => "Failed to get team response."@,
                ClientError::NoGames => "No games for today."@,
            }),
    {
        match self {
            ClientError::Decode => String::from_str("Failed to decode response."),
            ClientError::TeamNotFound => String::from_str("Failed to get team response."),
            ClientError::NoGames => String::from_str("No games for today."),
        }
    }
}

} // verus!
