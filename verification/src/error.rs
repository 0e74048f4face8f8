//! What can go wrong while serving a game.
use vstd::prelude::*;

verus! {

/// The errors of the server.
#[derive(Clone, Copy, Debug, PartialEq, Eq, Structural)]
pub enum BidError {
    ErrorBindingToInterface,
    ErrorProtobufEncoding,
    ErrorOnSend,
    ErrorOnRead,
    ProtoParseError,
    PlayerManagerSendFailed,
    PlayerNotFoundByName,
    MaxBidErrorsReached,
    UnexpectedResponseTypeFromClient,
    PlayerTimedOut,
    DbCannotPrepStatement,
    DbCannotOpenDatabase,
    DbCannotExecuteQuery,
    PlayerAAbandoned,
    PlayerBAbandoned,
}

impl BidError {
    /// The text that a reader of the log is shown.
    pub open spec fn spec_message(self) -> Seq<char> {
        match self {
            BidError::ErrorProtobufEncoding => "Protobuf Encoding Error."@,
            BidError::ErrorOnSend => "Error sending data"@,
            BidError::ErrorOnRead => "Error reading from socket."@,
            BidError::ProtoParseError => "Error parsing bytes of protobuffer."@,
            BidError::PlayerManagerSendFailed => "Error sending information to the player manager."@,
            BidError::PlayerNotFoundByName => "Could not find the player by their name in our players list."@,
            BidError::MaxBidErrorsReached => "Maximum number of client bid errors reached."@,
            BidError::UnexpectedResponseTypeFromClient => "Unexpected response type received from the client."@,
            BidError::PlayerTimedOut => "The player has timed out."@,
            BidError::DbCannotOpenDatabase => "Could not open database file."@,
            BidError::DbCannotPrepStatement => "Could not prepare statement for database."@,
            BidError::DbCannotExecuteQuery => "Could not execute query on database."@,
            BidError::ErrorBindingToInterface => "Error binding interface / port."@,
            BidError::PlayerAAbandoned => "Player A abandoned the game."@,
            BidError::PlayerBAbandoned => "Player B abandoned the game."@,
        }
    }

    /// The error in words.
    pub fn message(&self) -> (text: &'static str)
        ensures
            text@ == self.spec_message(),
    {
        match self {
            BidError::ErrorProtobufEncoding => "Protobuf Encoding Error.",
            BidError::ErrorOnSend => "Error sending data",
            BidError::ErrorOnRead => "Error reading from socket.",
            BidError::ProtoParseError => "Error parsing bytes of protobuffer.",
            BidError::PlayerManagerSendFailed => "Error sending information to the player manager.",
            BidError::PlayerNotFoundByName => "Could not find the player by their name in our players list.",
            BidError::MaxBidErrorsReached => "Maximum number of client bid errors reached.",
            BidError::UnexpectedResponseTypeFromClient => "Unexpected response type received from the client.",
            BidError::PlayerTimedOut => "The player has timed out.",
            BidError::DbCannotOpenDatabase => "Could not open database file.",
            BidError::DbCannotPrepStatement => "Could not prepare statement for database.",
            BidError::DbCannotExecuteQuery => "Could not execute query on database.",
            BidError::ErrorBindingToInterface => "Error binding interface / port.",
            BidError::PlayerAAbandoned => "Player A abandoned the game.",
            BidError::PlayerBAbandoned => "Player B abandoned the game.",
        }
    }
}

} // verus!
