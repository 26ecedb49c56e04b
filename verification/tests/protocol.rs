use mem5::{request_ws_uid_msg, route_message, GameStatus, MsgRoute, WsMessage};

fn s(t: &str) -> String {
    t.to_string()
}

#[test]
fn routes_every_message() {
    let st = GameStatus::StatusPlayBefore1stCard;
    assert_eq!(route_message(st, &WsMessage::MsgDummy { dummy: s("x") }), MsgRoute::Log);
    assert_eq!(route_message(st, &WsMessage::MsgRequestWsUid { test: s("test") }), MsgRoute::Log);
    assert_eq!(
        route_message(st, &WsMessage::MsgResponseWsUid { your_ws_uid: 7, server_version: s("1") }),
        MsgRoute::ResponseWsUid
    );
    assert_eq!(
        route_message(st, &WsMessage::MsgPlayAccept { my_ws_uid: 1, players_ws_uid: s("[]"), my_nickname: s("a") }),
        MsgRoute::PlayAccept
    );
    let click1 = WsMessage::MsgPlayerClick1stCard {
        my_ws_uid: 1,
        players_ws_uid: s("[]"),
        game_status: st,
        card_grid_data: s("[]"),
        card_index_of_first_click: 1,
        card_index_of_second_click: 0,
    };
    assert_eq!(route_message(st, &click1), MsgRoute::PlayerClick1stCard);
    let point = WsMessage::MsgPlayerClick2ndCardPoint {
        my_ws_uid: 1,
        players_ws_uid: s("[]"),
        players: s("[]"),
        game_status: st,
        card_grid_data: s("[]"),
        card_index_of_first_click: 1,
        card_index_of_second_click: 2,
    };
    assert_eq!(route_message(st, &point), MsgRoute::PlayerClick2ndCardPoint);
    let begin = WsMessage::MsgPlayerClick2ndCardTakeTurnBegin {
        my_ws_uid: 1,
        players_ws_uid: s("[]"),
        game_status: GameStatus::StatusTakeTurnBegin,
        card_grid_data: s("[]"),
        card_index_of_first_click: 1,
        card_index_of_second_click: 2,
    };
    assert_eq!(route_message(st, &begin), MsgRoute::TakeTurnBegin);
    let again = WsMessage::MsgPlayerClick2ndCardGameOverPlayAgainBegin {
        my_ws_uid: 1,
        players_ws_uid: s("[]"),
        players: s("[]"),
        game_status: GameStatus::StatusGameOverPlayAgainBegin,
        card_grid_data: s("[]"),
        card_index_of_first_click: 1,
        card_index_of_second_click: 2,
    };
    assert_eq!(route_message(st, &again), MsgRoute::PlayAgain);
    assert_eq!(
        route_message(st, &WsMessage::MsgTakeTurnEnd { my_ws_uid: 1, players_ws_uid: s("[]") }),
        MsgRoute::TakeTurnEnd
    );
    let all = WsMessage::MsgAllGameData {
        my_ws_uid: 1,
        players_ws_uid: s("[]"),
        players: s("[]"),
        card_grid_data: s("[]"),
        card_index_of_first_click: 0,
        card_index_of_second_click: 0,
        player_turn: 1,
        game_status: st,
    };
    assert_eq!(route_message(GameStatus::StatusReconnect, &all), MsgRoute::AllGameData);
}

#[test]
fn invite_only_before_or_after_a_game() {
    let invite = WsMessage::MsgInvite { my_ws_uid: 1, my_nickname: s("a"), asked_folder_name: s("alphabet") };
    assert_eq!(route_message(GameStatus::StatusInviteAskBegin, &invite), MsgRoute::Invite);
    assert_eq!(route_message(GameStatus::StatusInviteAsked, &invite), MsgRoute::Invite);
    assert_eq!(route_message(GameStatus::StatusGameOverPlayAgainBegin, &invite), MsgRoute::Invite);
    assert_eq!(route_message(GameStatus::StatusPlayBefore1stCard, &invite), MsgRoute::Ignore);
    assert_eq!(route_message(GameStatus::StatusInviteAsking, &invite), MsgRoute::Ignore);
}

#[test]
fn game_data_init_only_after_accept() {
    let init = WsMessage::MsgGameDataInit {
        my_ws_uid: 1,
        players_ws_uid: s("[]"),
        players: s("[]"),
        card_grid_data: s("[]"),
        game_config: s("{}"),
    };
    assert_eq!(route_message(GameStatus::StatusPlayAccepted, &init), MsgRoute::GameDataInit);
    assert_eq!(route_message(GameStatus::StatusInviteAsking, &init), MsgRoute::Ignore);
    assert_eq!(route_message(GameStatus::StatusPlayBefore1stCard, &init), MsgRoute::Ignore);
}

#[test]
fn first_message_asks_for_uid() {
    match request_ws_uid_msg() {
        WsMessage::MsgRequestWsUid { test } => assert_eq!(test, "test"),
        other => panic!("unexpected {:?}", other),
    }
}

#[test]
fn status_names() {
    assert_eq!(GameStatus::StatusInviteAskBegin.as_str(), "StatusInviteAskBegin");
    assert_eq!(GameStatus::StatusPlayBefore1stCard.to_string(), "StatusPlayBefore1stCard");
    assert_eq!(GameStatus::StatusGameOverPlayAgainBegin.as_str(), "StatusGameOverPlayAgainBegin");
    assert_eq!(GameStatus::StatusReconnect.to_string(), "StatusReconnect");
}
