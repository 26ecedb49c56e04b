//! The structures shared by the players' clients and the WebSocket server.

use vstd::prelude::*;

verus! {

/// Messages sent over the WebSocket.
///
/// Fields that hold a vector (the players, the card grid) carry it as JSON
/// text, so that the server can route a message without knowing its payload.
#[derive(Debug, Clone)]
pub enum WsMessage {
    /// A message without meaning; also what an unreadable message becomes.
    MsgDummy {
        /// anything
        dummy: String,
    },
    /// First message to the WebSocket server: asks for this client's uid.
    MsgRequestWsUid {
        /// anything
        test: String,
    },
    /// The server's answer to `MsgRequestWsUid`.
    MsgResponseWsUid {
        /// the uid the server gave this client
        your_ws_uid: usize,
        /// server version
        server_version: String,
    },
    /// Invitation to play.
    MsgInvite {
        /// uid of the sender, so that it does not act on its own echo
        my_ws_uid: usize,
        /// nickname of the sender
        my_nickname: String,
        /// content folder of the game
        asked_folder_name: String,
    },
    /// Acceptance of an invitation.
    MsgPlayAccept {
        /// uid of the sender
        my_ws_uid: usize,
        /// JSON of the uids of the players, for the server to know whom to send to
        players_ws_uid: String,
        /// nickname of the sender
        my_nickname: String,
    },
    /// Player 1 initializes the game data and sends it to all players.
    MsgGameDataInit {
        /// uid of the sender
        my_ws_uid: usize,
        /// JSON of the uids of the players
        players_ws_uid: String,
        /// JSON of the players with nicknames and order
        players: String,
        /// JSON of the card grid
        card_grid_data: String,
        /// JSON of the game configuration
        game_config: String,
    },
    /// A player turned the first card of a turn.
    MsgPlayerClick1stCard {
        /// uid of the sender's device (not the player in turn)
        my_ws_uid: usize,
        /// JSON of the uids of the players
        players_ws_uid: String,
        /// status of the game after the click
        game_status: GameStatus,
        /// JSON of the card grid after the click
        card_grid_data: String,
        /// index of the first card of the turn
        card_index_of_first_click: usize,
        /// index of the second card of the turn
        card_index_of_second_click: usize,
    },
    /// A player turned the second card and the pair matched: a point.
    MsgPlayerClick2ndCardPoint {
        /// uid of the sender's device
        my_ws_uid: usize,
        /// JSON of the uids of the players
        players_ws_uid: String,
        /// JSON of the players with their points
        players: String,
        /// status of the game after the click
        game_status: GameStatus,
        /// JSON of the card grid after the click
        card_grid_data: String,
        /// index of the first card of the turn
        card_index_of_first_click: usize,
        /// index of the second card of the turn
        card_index_of_second_click: usize,
    },
    /// A player turned the second card and the pair did not match: the turn passes.
    MsgPlayerClick2ndCardTakeTurnBegin {
        /// uid of the sender's device
        my_ws_uid: usize,
        /// JSON of the uids of the players
        players_ws_uid: String,
        /// status of the game after the click
        game_status: GameStatus,
        /// JSON of the card grid after the click
        card_grid_data: String,
        /// index of the first card of the turn
        card_index_of_first_click: usize,
        /// index of the second card of the turn
        card_index_of_second_click: usize,
    },
    /// The last pair was found: the game is over and can be played again.
    MsgPlayerClick2ndCardGameOverPlayAgainBegin {
        /// uid of the sender's device
        my_ws_uid: usize,
        /// JSON of the uids of the players
        players_ws_uid: String,
        /// JSON of the players with their points
        players: String,
        /// status of the game after the click
        game_status: GameStatus,
        /// JSON of the card grid after the click
        card_grid_data: String,
        /// index of the first card of the turn
        card_index_of_first_click: usize,
        /// index of the second card of the turn
        card_index_of_second_click: usize,
    },
    /// The next player took the turn.
    MsgTakeTurnEnd {
        /// uid of the sender's device
        my_ws_uid: usize,
        /// JSON of the uids of the players
        players_ws_uid: String,
    },
    /// After a reconnection, the whole game data, sent to resynchronize a player.
    MsgAllGameData {
        /// uid of the sender's device
        my_ws_uid: usize,
        /// JSON of the uids of the players that reconnected
        players_ws_uid: String,
        /// JSON of the players with nicknames and order
        players: String,
        /// JSON of the card grid
        card_grid_data: String,
        /// index of the first card of the turn
        card_index_of_first_click: usize,
        /// index of the second card of the turn
        card_index_of_second_click: usize,
        /// number of the player in turn
        player_turn: usize,
        /// status of the game
        game_status: GameStatus,
    },
}

/// The status of the game; it decides the user interface and the actions.
/// All players have the same game status.
#[derive(Debug, Clone, Copy, PartialEq, Eq, Structural)]
pub enum GameStatus {
    /// invite ask begin
    StatusInviteAskBegin,
    /// player 1 is asking others to play
    StatusInviteAsking,
    /// player 2 was asked to play
    StatusInviteAsked,
    /// the invitation was accepted
    StatusPlayAccepted,
    /// play, before the first card of a turn
    StatusPlayBefore1stCard,
    /// play, before the second card of a turn
    StatusPlayBefore2ndCard,
    /// take turn begin
    StatusTakeTurnBegin,
    /// take turn end
    StatusTakeTurnEnd,
    /// end of the game
    StatusGameOverPlayAgainBegin,
    /// reconnect after a lost connection
    StatusReconnect,
}

/// The text of a status: the name of its variant.
pub open spec fn status_name(s: GameStatus) -> Seq<char> {
    match s {
        GameStatus::StatusInviteAskBegin => "StatusInviteAskBegin"@,
        GameStatus::StatusInviteAsking => "StatusInviteAsking"@,
        GameStatus::StatusInviteAsked => "StatusInviteAsked"@,
        GameStatus::StatusPlayAccepted => "StatusPlayAccepted"@,
        GameStatus::StatusPlayBefore1stCard => "StatusPlayBefore1stCard"@,
        GameStatus::StatusPlayBefore2ndCard => "StatusPlayBefore2ndCard"@,
        GameStatus::StatusTakeTurnBegin => "StatusTakeTurnBegin"@,
        GameStatus::StatusTakeTurnEnd => "StatusTakeTurnEnd"@,
        GameStatus::StatusGameOverPlayAgainBegin => "StatusGameOverPlayAgainBegin"@,
        GameStatus::StatusReconnect => "StatusReconnect"@,
    }
}

impl GameStatus {
    /// The name of the status, as its `Display` and `AsRef<str>` give it.
    pub fn as_str(&self) -> (s: &'static str)
        ensures
            s@ == status_name(*self),
    {
        match self {
            GameStatus::StatusInviteAskBegin => "StatusInviteAskBegin",
            GameStatus::StatusInviteAsking => "StatusInviteAsking",
            GameStatus::StatusInviteAsked => "StatusInviteAsked",
            GameStatus::StatusPlayAccepted => "StatusPlayAccepted",
            GameStatus::StatusPlayBefore1stCard => "StatusPlayBefore1stCard",
            GameStatus::StatusPlayBefore2ndCard => "StatusPlayBefore2ndCard",
            GameStatus::StatusTakeTurnBegin => "StatusTakeTurnBegin",
            GameStatus::StatusTakeTurnEnd => "StatusTakeTurnEnd",
            GameStatus::StatusGameOverPlayAgainBegin => "StatusGameOverPlayAgainBegin",
            GameStatus::StatusReconnect => "StatusReconnect",
        }
    }

    /// The name of the status as an owned string (what `to_string` gives).
    pub fn to_string(&self) -> (s: String)
        ensures
            s@ == status_name(*self),
    {
        String::from_str(self.as_str())
    }
}

/// Data of one player.
#[derive(Debug, Clone)]
pub struct Player {
    /// uid of the player's WebSocket connection
    pub ws_uid: usize,
    /// nickname
    pub nickname: String,
    /// points scored
    pub points: usize,
}

} // verus!
