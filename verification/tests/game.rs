use mem5::{
    next_player_turn, on_msg_all_game_data, on_msg_take_turn_begin, on_msg_take_turn_end, on_reconnected,
    on_ws_close, on_ws_error, resync_msg, take_turn_begin_prompt, take_turn_end, Card, CardStatusCardFace,
    GameData, GameStatus, Player, TakeTurnPrompt, WsMessage,
};

fn player(ws_uid: usize, nickname: &str, points: usize) -> Player {
    Player { ws_uid, nickname: nickname.to_string(), points }
}

fn card(status: CardStatusCardFace, number: usize, index: usize) -> Card {
    Card { status, card_number_and_img_src: number, card_index_and_id: index }
}

fn game(players: usize, turn: usize, me: usize) -> GameData {
    let names = ["Ann", "Bob", "Cid", "Dan"];
    GameData {
        my_ws_uid: 100 + me,
        players_ws_uid: "[101,102]".to_string(),
        players: (0..players).map(|i| player(101 + i, names[i % 4], 0)).collect(),
        my_player_number: me,
        player_turn: turn,
        card_grid_data: vec![
            card(CardStatusCardFace::UpTemporary, 1, 0),
            card(CardStatusCardFace::UpPermanently, 2, 1),
            card(CardStatusCardFace::Down, 2, 2),
            card(CardStatusCardFace::UpTemporary, 3, 3),
        ],
        card_index_of_first_click: 0,
        card_index_of_second_click: 3,
        game_status: GameStatus::StatusTakeTurnBegin,
        is_reconnect: false,
        awaiting_resync: false,
        error_text: String::new(),
        msgs_waiting_ack: vec![],
        href: "http://localhost:4000/".to_string(),
    }
}

#[test]
fn next_player_turn_goes_round() {
    assert_eq!(next_player_turn(1, 3), 2);
    assert_eq!(next_player_turn(2, 3), 3);
    assert_eq!(next_player_turn(3, 3), 1);
    assert_eq!(next_player_turn(7, 3), 1);
    assert_eq!(next_player_turn(0, 3), 1);
    assert_eq!(next_player_turn(5, 0), 1);
}

#[test]
fn take_turn_end_passes_turn_and_turns_cards_down() {
    let mut g = game(2, 1, 1);
    take_turn_end(&mut g);
    assert_eq!(g.player_turn, 2);
    assert_eq!(g.card_grid_data[0].status, CardStatusCardFace::Down);
    assert_eq!(g.card_grid_data[3].status, CardStatusCardFace::Down);
    assert_eq!(g.card_grid_data[1].status, CardStatusCardFace::UpPermanently);
    assert_eq!(g.card_grid_data[3].card_number_and_img_src, 3);
    assert_eq!(g.card_index_of_first_click, 0);
    assert_eq!(g.card_index_of_second_click, 0);
    assert_eq!(g.game_status, GameStatus::StatusPlayBefore1stCard);
    take_turn_end(&mut g);
    assert_eq!(g.player_turn, 1);
}

#[test]
fn take_turn_end_message_agrees_with_click() {
    let mut sender = game(3, 2, 3);
    let mut receiver = game(3, 2, 1);
    take_turn_end(&mut sender);
    on_msg_take_turn_end(&mut receiver);
    assert_eq!(sender.player_turn, receiver.player_turn);
    assert_eq!(sender.card_grid_data, receiver.card_grid_data);
    assert_eq!(sender.game_status, receiver.game_status);
    assert_eq!(receiver.player_turn, 3);
}

#[test]
fn turns_go_round_the_players() {
    let mut g = game(3, 2, 1);
    let mut seen = vec![];
    for _ in 0..3 {
        take_turn_end(&mut g);
        seen.push(g.player_turn);
    }
    assert_eq!(seen, vec![3, 1, 2]);
}

#[test]
fn take_turn_begin_takes_over_sender_data() {
    let mut g = game(2, 1, 2);
    let grid = vec![card(CardStatusCardFace::UpTemporary, 5, 0), card(CardStatusCardFace::UpTemporary, 6, 1)];
    on_msg_take_turn_begin(&mut g, GameStatus::StatusTakeTurnBegin, grid.clone(), 1, 0);
    assert_eq!(g.card_grid_data, grid);
    assert_eq!(g.card_index_of_first_click, 1);
    assert_eq!(g.card_index_of_second_click, 0);
    assert_eq!(g.game_status, GameStatus::StatusTakeTurnBegin);
    assert_eq!(g.player_turn, 1);
}

#[test]
fn prompt_for_next_player_and_others() {
    let g = game(2, 1, 2);
    match take_turn_begin_prompt(&g) {
        TakeTurnPrompt::TakeYourTurn { nickname } => assert_eq!(nickname, "Bob"),
        other => panic!("unexpected {:?}", other),
    }
    assert_eq!(take_turn_begin_prompt(&g).text(), "Bob, click here to take your turn !");
    let g = game(3, 1, 1);
    match take_turn_begin_prompt(&g) {
        TakeTurnPrompt::WaitFor { nickname, player_number } => {
            assert_eq!(nickname, "Bob");
            assert_eq!(player_number, 2);
        }
        other => panic!("unexpected {:?}", other),
    }
    assert_eq!(take_turn_begin_prompt(&g).text(), "Wait for Bob 2nd !");
    let g = game(3, 3, 2);
    assert_eq!(take_turn_begin_prompt(&g).text(), "Wait for Ann 1st !");
}

#[test]
fn resync_message_carries_game_data() {
    let g = game(2, 2, 1);
    let msg = resync_msg(&g, 102, "[players]".to_string(), "[cards]".to_string());
    match msg {
        WsMessage::MsgAllGameData {
            my_ws_uid,
            players_ws_uid,
            players,
            card_grid_data,
            card_index_of_first_click,
            card_index_of_second_click,
            player_turn,
            game_status,
        } => {
            assert_eq!(my_ws_uid, 101);
            assert_eq!(players_ws_uid, "[102]");
            assert_eq!(players, "[players]");
            assert_eq!(card_grid_data, "[cards]");
            assert_eq!(card_index_of_first_click, 0);
            assert_eq!(card_index_of_second_click, 3);
            assert_eq!(player_turn, 2);
            assert_eq!(game_status, GameStatus::StatusTakeTurnBegin);
        }
        other => panic!("unexpected {:?}", other),
    }
}

#[test]
fn all_game_data_takes_over_only_the_first_answer() {
    let other = game(3, 3, 2);
    let mut g = game(2, 1, 1);
    on_ws_close(&mut g);
    g.msgs_waiting_ack.push(WsMessage::MsgTakeTurnEnd { my_ws_uid: 1, players_ws_uid: String::new() });
    on_reconnected(&mut g);
    assert!(g.awaiting_resync);
    assert!(!g.is_reconnect);
    on_msg_all_game_data(
        &mut g,
        other.players.clone(),
        other.card_grid_data.clone(),
        2,
        1,
        other.player_turn,
        GameStatus::StatusPlayBefore2ndCard,
    );
    assert!(!g.awaiting_resync);
    assert!(g.msgs_waiting_ack.is_empty());
    assert_eq!(g.players.len(), 3);
    assert_eq!(g.players[2].nickname, "Cid");
    assert_eq!(g.card_grid_data, other.card_grid_data);
    assert_eq!(g.card_index_of_first_click, 2);
    assert_eq!(g.card_index_of_second_click, 1);
    assert_eq!(g.player_turn, 3);
    assert_eq!(g.game_status, GameStatus::StatusPlayBefore2ndCard);
    assert_eq!(g.my_ws_uid, 101);
    assert_eq!(g.my_player_number, 1);
    // a second, different answer is ignored
    let later = game(2, 1, 1);
    on_msg_all_game_data(
        &mut g,
        later.players.clone(),
        vec![],
        0,
        0,
        1,
        GameStatus::StatusPlayBefore1stCard,
    );
    assert_eq!(g.players.len(), 3);
    assert_eq!(g.card_grid_data, other.card_grid_data);
    assert_eq!(g.card_index_of_first_click, 2);
    assert_eq!(g.player_turn, 3);
    assert_eq!(g.game_status, GameStatus::StatusPlayBefore2ndCard);
}

#[test]
fn all_game_data_ignored_when_not_waiting() {
    let mut g = game(2, 1, 1);
    on_msg_all_game_data(&mut g, vec![], vec![], 1, 1, 2, GameStatus::StatusReconnect);
    assert_eq!(g.players.len(), 2);
    assert_eq!(g.card_grid_data.len(), 4);
    assert_eq!(g.player_turn, 1);
    assert_eq!(g.card_index_of_second_click, 3);
    assert_eq!(g.game_status, GameStatus::StatusTakeTurnBegin);
}

#[test]
fn close_error_and_reconnect() {
    let mut g = game(2, 1, 1);
    on_ws_close(&mut g);
    assert!(g.is_reconnect);
    on_ws_error(&mut g, "error event x".to_string());
    assert_eq!(g.error_text, "error event x");
    assert!(g.is_reconnect);
    on_reconnected(&mut g);
    assert!(!g.is_reconnect);
    assert!(g.awaiting_resync);
    assert_eq!(g.player_turn, 1);
}
