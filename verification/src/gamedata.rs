//! The data of one game, as each player's client holds it.

use vstd::prelude::*;
use crate::common::{GameStatus, Player, WsMessage};

verus! {

/// Which face of a card is shown.
#[derive(Debug, Clone, Copy, PartialEq, Eq, Structural)]
pub enum CardStatusCardFace {
    /// the back of the card is shown
    Down,
    /// turned up during the current turn
    UpTemporary,
    /// turned up for good: its pair was found
    UpPermanently,
}

/// One card of the grid.
#[derive(Debug, Clone, Copy, PartialEq, Eq, Structural)]
pub struct Card {
    /// which face is shown
    pub status: CardStatusCardFace,
    /// the number of the card's picture; two cards share each number
    pub card_number_and_img_src: usize,
    /// position of the card in the grid
    pub card_index_and_id: usize,
}

/// The game data of a client, except its WebSocket connection.
#[derive(Debug)]
pub struct GameData {
    /// uid of this client's WebSocket connection
    pub my_ws_uid: usize,
    /// JSON of the uids of the players
    pub players_ws_uid: String,
    /// the players, in the order of their turns
    pub players: Vec<Player>,
    /// this client's player number, from 1
    pub my_player_number: usize,
    /// number of the player in turn, from 1
    pub player_turn: usize,
    /// the cards
    pub card_grid_data: Vec<Card>,
    /// index of the first card turned in this turn
    pub card_index_of_first_click: usize,
    /// index of the second card turned in this turn
    pub card_index_of_second_click: usize,
    /// status of the game
    pub game_status: GameStatus,
    /// the connection was lost: the client offers to reconnect
    pub is_reconnect: bool,
    /// the client reconnected and waits for the game data of the other
    /// players: only the first answer is taken over
    pub awaiting_resync: bool,
    /// text of the last WebSocket error
    pub error_text: String,
    /// messages sent and not yet acknowledged
    pub msgs_waiting_ack: Vec<WsMessage>,
    /// address of the page, from which the WebSocket address is made
    pub href: String,
}

/// The mathematical value of a `GameData`.
#[verifier::ext_equal]
pub struct GameState {
    pub my_ws_uid: usize,
    pub players_ws_uid: Seq<char>,
    pub players: Seq<Player>,
    pub my_player_number: usize,
    pub player_turn: usize,
    pub card_grid_data: Seq<Card>,
    pub card_index_of_first_click: usize,
    pub card_index_of_second_click: usize,
    pub game_status: GameStatus,
    pub is_reconnect: bool,
    pub awaiting_resync: bool,
    pub error_text: Seq<char>,
    pub msgs_waiting_ack: Seq<WsMessage>,
    pub href: Seq<char>,
}

impl View for GameData {
    type V = GameState;

    open spec fn view(&self) -> GameState {
        GameState {
            my_ws_uid: self.my_ws_uid,
            players_ws_uid: self.players_ws_uid@,
            players: self.players@,
            my_player_number: self.my_player_number,
            player_turn: self.player_turn,
            card_grid_data: self.card_grid_data@,
            card_index_of_first_click: self.card_index_of_first_click,
            card_index_of_second_click: self.card_index_of_second_click,
            game_status: self.game_status,
            is_reconnect: self.is_reconnect,
            awaiting_resync: self.awaiting_resync,
            error_text: self.error_text@,
            msgs_waiting_ack: self.msgs_waiting_ack@,
            href: self.href@,
        }
    }
}

} // verus!
