//! What the client does with the WebSocket: the messages it sends first, how
//! it routes each message it receives, and what a WebSocket error or the
//! loss of the connection changes in the game data.

use vstd::prelude::*;
use crate::common::{GameStatus, WsMessage};
use crate::gamedata::{GameData, GameState};

verus! {

/// What the client does with a message it received.
#[derive(Debug, Clone, Copy, PartialEq, Eq, Structural)]
pub enum MsgRoute {
    /// write the message's text to the console (`MsgDummy`, `MsgRequestWsUid`)
    Log,
    /// take the uid that the server gave this client
    ResponseWsUid,
    /// show the invitation to play
    Invite,
    /// add the player that accepted the invitation
    PlayAccept,
    /// take the game data of player 1
    GameDataInit,
    /// show the first card that the player in turn turned
    PlayerClick1stCard,
    /// show the pair that the player in turn found
    PlayerClick2ndCardPoint,
    /// the pair did not match: the turn passes
    TakeTurnBegin,
    /// the next player took the turn
    TakeTurnEnd,
    /// the game is over
    PlayAgain,
    /// take the whole game data after a reconnection
    AllGameData,
    /// the message does not fit the game's status: nothing is done
    Ignore,
}

/// How a message is routed while the game has the status `status`: an
/// invitation is taken only at the start or the end of a game, or while
/// already invited; the game data of player 1 only once the invitation was
/// accepted; every other message always.
pub open spec fn msg_route(status: GameStatus, msg: WsMessage) -> MsgRoute {
    match msg {
        WsMessage::MsgDummy { .. } => MsgRoute::Log,
        WsMessage::MsgRequestWsUid { .. } => MsgRoute::Log,
        WsMessage::MsgResponseWsUid { .. } => MsgRoute::ResponseWsUid,
        WsMessage::MsgInvite { .. } => {
            if status == GameStatus::StatusGameOverPlayAgainBegin || status
                == GameStatus::StatusInviteAskBegin || status == GameStatus::StatusInviteAsked {
                MsgRoute::Invite
            } else {
                MsgRoute::Ignore
            }
        },
        WsMessage::MsgPlayAccept { .. } => MsgRoute::PlayAccept,
        WsMessage::MsgGameDataInit { .. } => {
            if status == GameStatus::StatusPlayAccepted {
                MsgRoute::GameDataInit
            } else {
                MsgRoute::Ignore
            }
        },
        WsMessage::MsgPlayerClick1stCard { .. } => MsgRoute::PlayerClick1stCard,
        WsMessage::MsgPlayerClick2ndCardPoint { .. } => MsgRoute::PlayerClick2ndCardPoint,
        WsMessage::MsgPlayerClick2ndCardTakeTurnBegin { .. } => MsgRoute::TakeTurnBegin,
        WsMessage::MsgPlayerClick2ndCardGameOverPlayAgainBegin { .. } => MsgRoute::PlayAgain,
        WsMessage::MsgTakeTurnEnd { .. } => MsgRoute::TakeTurnEnd,
        WsMessage::MsgAllGameData { .. } => MsgRoute::AllGameData,
    }
}

/// The statuses that admit an invitation: before a game (asking, or already
/// invited) and after one.
pub open spec fn admits_invite(status: GameStatus) -> bool {
    ||| status == GameStatus::StatusInviteAskBegin
    ||| status == GameStatus::StatusInviteAsked
    ||| status == GameStatus::StatusGameOverPlayAgainBegin
}

/// The guards on the routes, status by status: an invitation is acted on
/// in the statuses that admit one and ignored in every other (a running
/// game, the inviting player waiting for an answer, an accepted invitation,
/// a reconnection); player 1's game data is taken only once the invitation
/// was accepted and ignored in every other status; no other message is ever
/// ignored, and each goes to its own handler.
pub open spec fn gated_routes(status: GameStatus, msg: WsMessage, route: MsgRoute) -> bool {
    &&& (msg is MsgInvite ==> (route == MsgRoute::Invite <==> admits_invite(status)))
    &&& (msg is MsgInvite ==> (route == MsgRoute::Ignore <==> !admits_invite(status)))
    &&& (msg is MsgInvite && (status == GameStatus::StatusInviteAsking || status
        == GameStatus::StatusPlayAccepted || status == GameStatus::StatusPlayBefore1stCard || status
        == GameStatus::StatusPlayBefore2ndCard || status == GameStatus::StatusTakeTurnBegin || status
        == GameStatus::StatusTakeTurnEnd || status == GameStatus::StatusReconnect) ==> route
        == MsgRoute::Ignore)
    &&& (msg is MsgGameDataInit ==> (route == MsgRoute::GameDataInit <==> status
        == GameStatus::StatusPlayAccepted))
    &&& (msg is MsgGameDataInit ==> (route == MsgRoute::Ignore <==> status
        != GameStatus::StatusPlayAccepted))
    &&& (!(msg is MsgInvite) && !(msg is MsgGameDataInit) ==> route != MsgRoute::Ignore)
    &&& (msg is MsgDummy || msg is MsgRequestWsUid <==> route == MsgRoute::Log)
    &&& (msg is MsgResponseWsUid <==> route == MsgRoute::ResponseWsUid)
    &&& (msg is MsgPlayAccept <==> route == MsgRoute::PlayAccept)
    &&& (msg is MsgPlayerClick1stCard <==> route == MsgRoute::PlayerClick1stCard)
    &&& (msg is MsgPlayerClick2ndCardPoint <==> route == MsgRoute::PlayerClick2ndCardPoint)
    &&& (msg is MsgPlayerClick2ndCardTakeTurnBegin <==> route == MsgRoute::TakeTurnBegin)
    &&& (msg is MsgTakeTurnEnd <==> route == MsgRoute::TakeTurnEnd)
    &&& (msg is MsgPlayerClick2ndCardGameOverPlayAgainBegin <==> route == MsgRoute::PlayAgain)
    &&& (msg is MsgAllGameData <==> route == MsgRoute::AllGameData)
}

/// The routing keeps the guards of `gated_routes`, for every status and
/// message.
pub proof fn lemma_gated_routes(status: GameStatus, msg: WsMessage)
    ensures
        gated_routes(status, msg, msg_route(status, msg)),
{
}

/// Routes a received message (see `msg_route`).
pub fn route_message(status: GameStatus, msg: &WsMessage) -> (route: MsgRoute)
    ensures
        route == msg_route(status, *msg),
        gated_routes(status, *msg, route),
{
    proof {
        lemma_gated_routes(status, *msg);
    }
    match msg {
        WsMessage::MsgDummy { .. } => MsgRoute::Log,
        WsMessage::MsgRequestWsUid { .. } => MsgRoute::Log,
        WsMessage::MsgResponseWsUid { .. } => MsgRoute::ResponseWsUid,
        WsMessage::MsgInvite { .. } => {
            match status {
                GameStatus::StatusGameOverPlayAgainBegin
                | GameStatus::StatusInviteAskBegin
                | GameStatus::StatusInviteAsked => MsgRoute::Invite,
                _ => MsgRoute::Ignore,
            }
        },
        WsMessage::MsgPlayAccept { .. } => MsgRoute::PlayAccept,
        WsMessage::MsgGameDataInit { .. } => {
            match status {
                GameStatus::StatusPlayAccepted => MsgRoute::GameDataInit,
                _ => MsgRoute::Ignore,
            }
        },
        WsMessage::MsgPlayerClick1stCard { .. } => MsgRoute::PlayerClick1stCard,
        WsMessage::MsgPlayerClick2ndCardPoint { .. } => MsgRoute::PlayerClick2ndCardPoint,
        WsMessage::MsgPlayerClick2ndCardTakeTurnBegin { .. } => MsgRoute::TakeTurnBegin,
        WsMessage::MsgPlayerClick2ndCardGameOverPlayAgainBegin { .. } => MsgRoute::PlayAgain,
        WsMessage::MsgTakeTurnEnd { .. } => MsgRoute::TakeTurnEnd,
        WsMessage::MsgAllGameData { .. } => MsgRoute::AllGameData,
    }
}

/// The first message sent on a new connection: it asks the server for this
/// client's uid.
pub fn request_ws_uid_msg() -> (msg: WsMessage)
    ensures
        msg matches WsMessage::MsgRequestWsUid { test } && test@ == "test"@,
{
    WsMessage::MsgRequestWsUid { test: String::from_str("test") }
}

/// On a WebSocket error: its text is kept to be shown; nothing else changes.
pub fn on_ws_error(game_data: &mut GameData, err_text: String)
    ensures
        final(game_data)@ == (GameState { error_text: err_text@, ..old(game_data)@ }),
{
    game_data.error_text = err_text;
    assert(game_data@ =~= (GameState { error_text: err_text@, ..old(game_data)@ }));
}

/// When the connection closes: the client offers to reconnect; nothing else
/// changes.
pub fn on_ws_close(game_data: &mut GameData)
    ensures
        final(game_data)@ == (GameState { is_reconnect: true, ..old(game_data)@ }),
{
    game_data.is_reconnect = true;
    assert(game_data@ =~= (GameState { is_reconnect: true, ..old(game_data)@ }));
}

} // verus!
