//! Resynchronization after a lost connection: the player that reconnects
//! asks the others, each of them sends it the whole game data, and it takes
//! over only the data of the first answer it receives and ignores the others.

use vstd::prelude::*;
use crate::common::{GameStatus, Player, WsMessage};
use crate::gamedata::{Card, GameData, GameState};
use crate::text::{decimal, decimal_string};

verus! {

/// What taking over the whole game data of another player makes of the game:
/// its players, cards, clicks, player in turn and status replace this
/// client's, the client no longer offers to reconnect nor waits for game
/// data, and no sent message waits for an acknowledgement any more. What
/// belongs to this client (its uid, player number, address, last error)
/// stays.
pub open spec fn all_game_data_spec(
    s: GameState,
    players: Seq<Player>,
    card_grid_data: Seq<Card>,
    card_index_of_first_click: usize,
    card_index_of_second_click: usize,
    player_turn: usize,
    game_status: GameStatus,
) -> GameState {
    GameState {
        is_reconnect: false,
        awaiting_resync: false,
        players,
        card_grid_data,
        card_index_of_first_click,
        card_index_of_second_click,
        player_turn,
        game_status,
        msgs_waiting_ack: Seq::empty(),
        ..s
    }
}

/// What an answer with the whole game data makes of the game: while the
/// client waits for game data, the answer is taken over
/// (`all_game_data_spec`); otherwise, as after the first answer, it is
/// ignored and nothing changes.
pub open spec fn resync_answer_spec(
    s: GameState,
    players: Seq<Player>,
    card_grid_data: Seq<Card>,
    card_index_of_first_click: usize,
    card_index_of_second_click: usize,
    player_turn: usize,
    game_status: GameStatus,
) -> GameState {
    if s.awaiting_resync {
        all_game_data_spec(
            s,
            players,
            card_grid_data,
            card_index_of_first_click,
            card_index_of_second_click,
            player_turn,
            game_status,
        )
    } else {
        s
    }
}

/// The JSON list of uids that addresses only the player `ws_uid`.
pub open spec fn single_uid_json(ws_uid: nat) -> Seq<char> {
    "["@ + decimal(ws_uid) + "]"@
}

/// The message with the whole game data that resynchronizes the player
/// `reconnected_ws_uid`, made from this client's game data and the JSON of
/// its players and of its cards: it is addressed only to the player that
/// reconnected.
pub open spec fn is_resync_msg(
    msg: WsMessage,
    s: GameState,
    reconnected_ws_uid: nat,
    players_json: Seq<char>,
    card_grid_json: Seq<char>,
) -> bool {
    msg matches WsMessage::MsgAllGameData {
        my_ws_uid,
        players_ws_uid,
        players,
        card_grid_data,
        card_index_of_first_click,
        card_index_of_second_click,
        player_turn,
        game_status,
    } && my_ws_uid == s.my_ws_uid && players_ws_uid@ == single_uid_json(reconnected_ws_uid)
        && players@ == players_json && card_grid_data@ == card_grid_json
        && card_index_of_first_click == s.card_index_of_first_click && card_index_of_second_click
        == s.card_index_of_second_click && player_turn == s.player_turn && game_status
        == s.game_status
}

/// What the resync message says, field by field: it comes from the sending
/// client (its own uid, whoever the players are), it is addressed to the
/// reconnected player alone, and it carries the sender's clicks, player in
/// turn, status, and the given JSON of the players and of the cards.
pub open spec fn resync_msg_fields(
    msg: WsMessage,
    s: GameState,
    reconnected_ws_uid: nat,
    players_json: Seq<char>,
    card_grid_json: Seq<char>,
) -> bool {
    &&& msg is MsgAllGameData
    &&& msg->MsgAllGameData_my_ws_uid == s.my_ws_uid
    &&& msg->MsgAllGameData_players_ws_uid@ == "["@ + decimal(reconnected_ws_uid) + "]"@
    &&& msg->MsgAllGameData_players@ == players_json
    &&& msg->MsgAllGameData_card_grid_data@ == card_grid_json
    &&& msg->MsgAllGameData_card_index_of_first_click == s.card_index_of_first_click
    &&& msg->MsgAllGameData_card_index_of_second_click == s.card_index_of_second_click
    &&& msg->MsgAllGameData_player_turn == s.player_turn
    &&& msg->MsgAllGameData_game_status == s.game_status
}

/// Every resync message that `is_resync_msg` allows has the fields that
/// `resync_msg_fields` says.
pub proof fn lemma_resync_msg_fields(
    msg: WsMessage,
    s: GameState,
    reconnected_ws_uid: nat,
    players_json: Seq<char>,
    card_grid_json: Seq<char>,
)
    requires
        is_resync_msg(msg, s, reconnected_ws_uid, players_json, card_grid_json),
    ensures
        resync_msg_fields(msg, s, reconnected_ws_uid, players_json, card_grid_json),
{
}

/// The message that sends the whole game data to the player
/// `reconnected_ws_uid` (see `is_resync_msg`); `players_json` and
/// `card_grid_json` are the JSON of the players and of the cards.
pub fn resync_msg(
    game_data: &GameData,
    reconnected_ws_uid: usize,
    players_json: String,
    card_grid_json: String,
) -> (msg: WsMessage)
    ensures
        is_resync_msg(msg, game_data@, reconnected_ws_uid as nat, players_json@, card_grid_json@),
        resync_msg_fields(msg, game_data@, reconnected_ws_uid as nat, players_json@, card_grid_json@),
{
    let mut players_ws_uid = String::from_str("[");
    let uid = decimal_string(reconnected_ws_uid);
    players_ws_uid.append(uid.as_str());
    players_ws_uid.append("]");
    let msg = WsMessage::MsgAllGameData {
        my_ws_uid: game_data.my_ws_uid,
        players_ws_uid,
        players: players_json,
        card_grid_data: card_grid_json,
        card_index_of_first_click: game_data.card_index_of_first_click,
        card_index_of_second_click: game_data.card_index_of_second_click,
        player_turn: game_data.player_turn,
        game_status: game_data.game_status,
    };
    proof {
        lemma_resync_msg_fields(msg, game_data@, reconnected_ws_uid as nat, players_json@, card_grid_json@);
    }
    msg
}

/// On the message `MsgAllGameData`: takes over the whole game data if the
/// client waits for it, and ignores it otherwise (see `resync_answer_spec`).
pub fn on_msg_all_game_data(
    game_data: &mut GameData,
    players: Vec<Player>,
    card_grid_data: Vec<Card>,
    card_index_of_first_click: usize,
    card_index_of_second_click: usize,
    player_turn: usize,
    game_status: GameStatus,
)
    ensures
        final(game_data)@ == resync_answer_spec(
            old(game_data)@,
            players@,
            card_grid_data@,
            card_index_of_first_click,
            card_index_of_second_click,
            player_turn,
            game_status,
        ),
{
    if !game_data.awaiting_resync {
        return;
    }
    game_data.is_reconnect = false;
    game_data.awaiting_resync = false;
    game_data.players = players;
    game_data.card_grid_data = card_grid_data;
    game_data.card_index_of_first_click = card_index_of_first_click;
    game_data.card_index_of_second_click = card_index_of_second_click;
    game_data.player_turn = player_turn;
    game_data.game_status = game_status;
    game_data.msgs_waiting_ack.clear();
    assert(game_data@ =~= all_game_data_spec(
        old(game_data)@,
        players@,
        card_grid_data@,
        card_index_of_first_click,
        card_index_of_second_click,
        player_turn,
        game_status,
    ));
}

/// After the client reconnected and asked the others for the game data: it
/// no longer offers to reconnect and waits for their answers; nothing else
/// changes.
pub fn on_reconnected(game_data: &mut GameData)
    ensures
        final(game_data)@ == (GameState {
            is_reconnect: false,
            awaiting_resync: true,
            ..old(game_data)@
        }),
{
    game_data.is_reconnect = false;
    game_data.awaiting_resync = true;
    assert(game_data@ =~= (GameState { is_reconnect: false, awaiting_resync: true, ..old(game_data)@ }));
}

/// Only the first answer counts: once an answer was taken over, a second
/// one, whatever data it holds, changes nothing.
pub proof fn lemma_resync_first_answer_only(
    s: GameState,
    players: Seq<Player>,
    card_grid_data: Seq<Card>,
    card_index_of_first_click: usize,
    card_index_of_second_click: usize,
    player_turn: usize,
    game_status: GameStatus,
    players2: Seq<Player>,
    card_grid_data2: Seq<Card>,
    card_index_of_first_click2: usize,
    card_index_of_second_click2: usize,
    player_turn2: usize,
    game_status2: GameStatus,
)
    ensures
        ({
            let first = resync_answer_spec(
                s,
                players,
                card_grid_data,
                card_index_of_first_click,
                card_index_of_second_click,
                player_turn,
                game_status,
            );
            resync_answer_spec(
                first,
                players2,
                card_grid_data2,
                card_index_of_first_click2,
                card_index_of_second_click2,
                player_turn2,
                game_status2,
            ) == first
        }),
{
}

/// Resynchronization restores the game: when player A sends its game data
/// to player B, which reconnected and waits for it, and B decodes from the
/// message the players and cards that A encoded, then B ends with A's
/// players, cards, clicks, player in turn and status, keeps what belongs to
/// itself, and waits for nothing.
pub proof fn lemma_resync_restores(
    a: GameState,
    b: GameState,
    msg: WsMessage,
    reconnected_ws_uid: nat,
    players_json: Seq<char>,
    card_grid_json: Seq<char>,
    decoded_players: Seq<Player>,
    decoded_cards: Seq<Card>,
)
    requires
        is_resync_msg(msg, a, reconnected_ws_uid, players_json, card_grid_json),
        b.awaiting_resync,
        decoded_players == a.players,
        decoded_cards == a.card_grid_data,
    ensures
        msg matches WsMessage::MsgAllGameData {
            card_index_of_first_click,
            card_index_of_second_click,
            player_turn,
            game_status,
            ..
        } && ({
            let r = resync_answer_spec(
                b,
                decoded_players,
                decoded_cards,
                card_index_of_first_click,
                card_index_of_second_click,
                player_turn,
                game_status,
            );
            &&& r.players == a.players
            &&& r.card_grid_data == a.card_grid_data
            &&& r.card_index_of_first_click == a.card_index_of_first_click
            &&& r.card_index_of_second_click == a.card_index_of_second_click
            &&& r.player_turn == a.player_turn
            &&& r.game_status == a.game_status
            &&& !r.is_reconnect
            &&& !r.awaiting_resync
            &&& r.msgs_waiting_ack.len() == 0
            &&& r.my_ws_uid == b.my_ws_uid
            &&& r.my_player_number == b.my_player_number
            &&& r.href == b.href
        }),
{
}

} // verus!
