//! Game state and message protocol of a multiplayer memory card game played
//! over WebSocket: the messages players exchange, the game's status and data,
//! and the rules that each message and event apply to that data.

mod common;
mod gamedata;
mod statustaketurnbegin;
mod text;
mod websocketcommunication;
mod websocketreconnectmod;

pub use common::{status_name, GameStatus, Player, WsMessage};
pub use gamedata::{Card, CardStatusCardFace, GameData, GameState};
pub use statustaketurnbegin::{
    can_end_turn, face_down, next_player_turn, next_turn, on_msg_take_turn_begin, on_msg_take_turn_end,
    take_turn_begin_spec, take_turn_end, take_turn_end_spec, take_turn_begin_prompt, take_turn_prompt, prompt_text,
    TakeTurnPrompt, turn_after, take_turns, lemma_turn_after, lemma_take_turns, lemma_turns_go_round,
    lemma_every_player_gets_turn, lemma_take_turn_end_agrees, lemma_turn_end_repeatable,
    turn_end_effect, lemma_take_turn_end_effect, take_turn_begin_effect, lemma_take_turn_begin_effect, player_after,
    prompt_addresses_next_player, lemma_take_turn_prompt,
};
pub use text::{
    decimal, decimal_string, digit_char, digit_value, numeral_value, lemma_decimal_denotes, lemma_digit_value, lemma_ordinal_suffix, lemma_ws_url_parts, lemma_decimal_injective, lemma_decimal_len, lemma_ws_url_identifies_client,
    ordinal, ordinal_number, ordinal_suffix, replace_all, replace_str, ws_url, ws_url_string,
};
pub use websocketcommunication::{
    admits_invite, gated_routes, lemma_gated_routes, msg_route, on_ws_close, on_ws_error, request_ws_uid_msg, route_message, MsgRoute,
};
pub use websocketreconnectmod::{
    all_game_data_spec, is_resync_msg, lemma_resync_first_answer_only, lemma_resync_restores, on_msg_all_game_data,
    on_reconnected, resync_answer_spec, resync_msg, single_uid_json, resync_msg_fields, lemma_resync_msg_fields,
};
