//! The end of a turn: the next player takes it, on the device that clicked
//! and, through the message `MsgTakeTurnEnd`, on every other device.

use vstd::prelude::*;
use vstd::arithmetic::div_mod::{lemma_fundamental_div_mod, lemma_fundamental_div_mod_converse, lemma_mod_pos_bound};
use vstd::arithmetic::mul::{lemma_mul_is_commutative, lemma_mul_is_distributive_add_other_way};
use crate::common::GameStatus;
use crate::gamedata::{Card, CardStatusCardFace, GameData, GameState};
use crate::text::{ordinal, ordinal_number};

verus! {

/// The number of the player in turn after `turn`, among `n` players numbered
/// from 1: the next one, and after the last one the first.
pub open spec fn next_turn(turn: int, n: int) -> int {
    if turn < n {
        turn + 1
    } else {
        1
    }
}

/// A card with its back shown.
pub open spec fn face_down(c: Card) -> Card {
    Card { status: CardStatusCardFace::Down, ..c }
}

/// What the end of a turn makes of the game: the next player is in turn, the
/// two cards turned in this turn are shown face down, the clicks are
/// forgotten, and play waits for the first card.
pub open spec fn take_turn_end_spec(s: GameState) -> GameState {
    let x1 = s.card_index_of_first_click as int;
    let x2 = s.card_index_of_second_click as int;
    let grid1 = s.card_grid_data.update(x1, face_down(s.card_grid_data[x1]));
    let grid2 = grid1.update(x2, face_down(grid1[x2]));
    GameState {
        player_turn: next_turn(s.player_turn as int, s.players.len() as int) as usize,
        card_grid_data: grid2,
        card_index_of_first_click: 0,
        card_index_of_second_click: 0,
        game_status: GameStatus::StatusPlayBefore1stCard,
        ..s
    }
}

/// The end of a turn can be applied to `s`: both clicked cards are in the grid.
pub open spec fn can_end_turn(s: GameState) -> bool {
    &&& s.card_index_of_first_click < s.card_grid_data.len()
    &&& s.card_index_of_second_click < s.card_grid_data.len()
}

/// What the message `MsgPlayerClick2ndCardTakeTurnBegin` makes of the game:
/// the sender's status, card grid and clicks are taken over.
pub open spec fn take_turn_begin_spec(
    s: GameState,
    game_status: GameStatus,
    card_grid_data: Seq<Card>,
    card_index_of_first_click: usize,
    card_index_of_second_click: usize,
) -> GameState {
    GameState { game_status, card_grid_data, card_index_of_first_click, card_index_of_second_click, ..s }
}

/// The number of the player in turn after `turn`, among `players_len` players.
pub fn next_player_turn(turn: usize, players_len: usize) -> (r: usize)
    ensures
        r == next_turn(turn as int, players_len as int),
        players_len >= 1 ==> 1 <= r <= players_len,
{
    if turn < players_len {
        turn + 1
    } else {
        1
    }
}

/// Ends the turn: the next player takes it (see `take_turn_end_spec`).
pub fn take_turn_end(game_data: &mut GameData)
    requires
        can_end_turn(old(game_data)@),
    ensures
        final(game_data)@ == take_turn_end_spec(old(game_data)@),
        turn_end_effect(old(game_data)@, final(game_data)@),
{
    game_data.player_turn = next_player_turn(game_data.player_turn, game_data.players.len());
    let x1 = game_data.card_index_of_first_click;
    let x2 = game_data.card_index_of_second_click;
    let mut card1 = game_data.card_grid_data[x1];
    card1.status = CardStatusCardFace::Down;
    game_data.card_grid_data.set(x1, card1);
    let mut card2 = game_data.card_grid_data[x2];
    card2.status = CardStatusCardFace::Down;
    game_data.card_grid_data.set(x2, card2);
    game_data.card_index_of_first_click = 0;
    game_data.card_index_of_second_click = 0;
    game_data.game_status = GameStatus::StatusPlayBefore1stCard;
    assert(game_data@ =~= take_turn_end_spec(old(game_data)@));
    proof {
        assert(old(game_data)@.players.len() <= usize::MAX);
        lemma_take_turn_end_effect(old(game_data)@);
    }
}

/// On the message `MsgTakeTurnEnd`: the same end of the turn as on the device
/// of the player that took the turn.
pub fn on_msg_take_turn_end(game_data: &mut GameData)
    requires
        can_end_turn(old(game_data)@),
    ensures
        final(game_data)@ == take_turn_end_spec(old(game_data)@),
        turn_end_effect(old(game_data)@, final(game_data)@),
{
    take_turn_end(game_data);
}

/// On the message `MsgPlayerClick2ndCardTakeTurnBegin`: takes over the
/// sender's status, card grid and clicks.
pub fn on_msg_take_turn_begin(
    game_data: &mut GameData,
    game_status: GameStatus,
    card_grid_data: Vec<Card>,
    card_index_of_first_click: usize,
    card_index_of_second_click: usize,
)
    ensures
        final(game_data)@ == take_turn_begin_spec(
            old(game_data)@,
            game_status,
            card_grid_data@,
            card_index_of_first_click,
            card_index_of_second_click,
        ),
        take_turn_begin_effect(
            old(game_data)@,
            final(game_data)@,
            game_status,
            card_grid_data@,
            card_index_of_first_click,
            card_index_of_second_click,
        ),
{
    game_data.game_status = game_status;
    game_data.card_grid_data = card_grid_data;
    game_data.card_index_of_first_click = card_index_of_first_click;
    game_data.card_index_of_second_click = card_index_of_second_click;
    assert(game_data@ =~= take_turn_begin_spec(
        old(game_data)@,
        game_status,
        card_grid_data@,
        card_index_of_first_click,
        card_index_of_second_click,
    ));    proof {
        lemma_take_turn_begin_effect(
            old(game_data)@,
            game_status,
            card_grid_data@,
            card_index_of_first_click,
            card_index_of_second_click,
        );
    }
}

/// The number of the player in turn after `k` ends of turn, from `turn`.
pub open spec fn turn_after(turn: int, n: int, k: nat) -> int
    decreases k,
{
    if k == 0 {
        turn
    } else {
        next_turn(turn_after(turn, n, (k - 1) as nat), n)
    }
}

/// The game after `k` ends of turn, from `s`.
pub open spec fn take_turns(s: GameState, k: nat) -> GameState
    decreases k,
{
    if k == 0 {
        s
    } else {
        take_turn_end_spec(take_turns(s, (k - 1) as nat))
    }
}

/// Among `n` players, `k` ends of turn from player `t` lead to player
/// `(t - 1 + k) % n + 1`: the turn goes round the players in order.
pub proof fn lemma_turn_after(t: int, n: int, k: nat)
    requires
        1 <= t <= n,
    ensures
        turn_after(t, n, k) == (t - 1 + k) % n + 1,
    decreases k,
{
    if k == 0 {
        lemma_fundamental_div_mod_converse(t - 1, n, 0, t - 1);
    } else {
        let a = t - 1 + (k - 1);
        lemma_turn_after(t, n, (k - 1) as nat);
        let q = a / n;
        let r = a % n;
        lemma_fundamental_div_mod(a, n);
        lemma_mul_is_commutative(n, q);
        lemma_mod_pos_bound(a, n);
        if r + 1 < n {
            assert(a + 1 == q * n + (r + 1));
            lemma_fundamental_div_mod_converse(a + 1, n, q, r + 1);
        } else {
            assert(a + 1 == (q + 1) * n + 0) by {
                lemma_mul_is_distributive_add_other_way(n, q, 1);
            };
            lemma_fundamental_div_mod_converse(a + 1, n, q + 1, 0);
        }
    }
}

/// The ends of turn change the player in turn as `turn_after` says, and leave
/// the players as they are.
pub proof fn lemma_take_turns(s: GameState, k: nat)
    requires
        1 <= s.player_turn <= s.players.len() <= usize::MAX,
    ensures
        take_turns(s, k).player_turn == turn_after(s.player_turn as int, s.players.len() as int, k),
        take_turns(s, k).players == s.players,
    decreases k,
{
    if k > 0 {
        lemma_take_turns(s, (k - 1) as nat);
        lemma_turn_after(s.player_turn as int, s.players.len() as int, (k - 1) as nat);
        lemma_mod_pos_bound(
            s.player_turn - 1 + (k - 1),
            s.players.len() as int,
        );
    }
}

/// With `n` players, `n` ends of turn give the turn back to the player that
/// had it.
pub proof fn lemma_turns_go_round(s: GameState)
    requires
        1 <= s.player_turn <= s.players.len() <= usize::MAX,
    ensures
        take_turns(s, s.players.len()).player_turn == s.player_turn,
{
    let n = s.players.len() as int;
    let t = s.player_turn as int;
    lemma_take_turns(s, s.players.len());
    lemma_turn_after(t, n, s.players.len());
    lemma_fundamental_div_mod_converse(t - 1 + n, n, 1, t - 1);
}

/// Every player gets the turn within fewer ends of turn than there are
/// players: player `p` after `(p - t + n) % n` of them, from player `t`.
pub proof fn lemma_every_player_gets_turn(s: GameState, p: int)
    requires
        1 <= s.player_turn <= s.players.len() <= usize::MAX,
        1 <= p <= s.players.len(),
    ensures
        ({
            let k = (p - s.player_turn + s.players.len()) % (s.players.len() as int);
            &&& 0 <= k < s.players.len()
            &&& take_turns(s, k as nat).player_turn == p
        }),
{
    let n = s.players.len() as int;
    let t = s.player_turn as int;
    let a = p - t + n;
    if a < n {
        lemma_fundamental_div_mod_converse(a, n, 0, a);
        lemma_fundamental_div_mod_converse(t - 1 + a, n, 1, p - 1);
    } else {
        lemma_fundamental_div_mod_converse(a, n, 1, a - n);
        lemma_fundamental_div_mod_converse(t - 1 + (a - n), n, 0, p - 1);
    }
    let k = a % n;
    lemma_take_turns(s, k as nat);
    lemma_turn_after(t, n, k as nat);
}

/// All players keep the same game: two clients that agree on the player in
/// turn, the number of players, the cards and the clicks still agree on
/// them, and on the status, after each ends the turn (the one that clicked
/// by `take_turn_end`, the other on `MsgTakeTurnEnd`); both wait for the
/// first card with no click. This holds of every game, not only of those
/// whose clicks lie in the grid.
pub proof fn lemma_take_turn_end_agrees(a: GameState, b: GameState)
    requires
        a.player_turn == b.player_turn,
        a.players.len() == b.players.len(),
        a.card_grid_data == b.card_grid_data,
        a.card_index_of_first_click == b.card_index_of_first_click,
        a.card_index_of_second_click == b.card_index_of_second_click,
    ensures
        take_turn_end_spec(a).player_turn == take_turn_end_spec(b).player_turn,
        take_turn_end_spec(a).card_grid_data == take_turn_end_spec(b).card_grid_data,
        take_turn_end_spec(a).card_index_of_first_click == 0,
        take_turn_end_spec(b).card_index_of_first_click == 0,
        take_turn_end_spec(a).card_index_of_second_click == 0,
        take_turn_end_spec(b).card_index_of_second_click == 0,
        take_turn_end_spec(a).game_status == GameStatus::StatusPlayBefore1stCard,
        take_turn_end_spec(b).game_status == GameStatus::StatusPlayBefore1stCard,
{
}

/// After the end of a turn the next one can end too: the grid keeps its
/// cards and the clicks point at its first card.
pub proof fn lemma_turn_end_repeatable(s: GameState)
    requires
        can_end_turn(s),
    ensures
        can_end_turn(take_turn_end_spec(s)),
        take_turn_end_spec(s).card_grid_data.len() == s.card_grid_data.len(),
        take_turn_end_spec(s).players == s.players,
{
}

/// What the end of a turn does, said card by card and field by field: the
/// player after the one in turn takes it, the player after the last one
/// being player 1; the two cards clicked in the turn (at the click indices
/// before the end) are face down, keeping their picture and position; every
/// other card is as it was; the clicks are 0; play waits for the first card;
/// everything else is as it was.
pub open spec fn turn_end_effect(s: GameState, r: GameState) -> bool {
    let x1 = s.card_index_of_first_click as int;
    let x2 = s.card_index_of_second_click as int;
    let n = s.players.len();
    &&& (1 <= s.player_turn < n ==> r.player_turn == s.player_turn + 1)
    &&& (s.player_turn >= n ==> r.player_turn == 1)
    &&& r.card_grid_data.len() == s.card_grid_data.len()
    &&& r.card_grid_data[x1].status == CardStatusCardFace::Down
    &&& r.card_grid_data[x2].status == CardStatusCardFace::Down
    &&& forall|i: int|
        0 <= i < s.card_grid_data.len() ==> {
            &&& #[trigger] r.card_grid_data[i].card_number_and_img_src
                == s.card_grid_data[i].card_number_and_img_src
            &&& r.card_grid_data[i].card_index_and_id == s.card_grid_data[i].card_index_and_id
        }
    &&& forall|i: int|
        0 <= i < s.card_grid_data.len() && i != x1 && i != x2 ==> #[trigger] r.card_grid_data[i]
            == s.card_grid_data[i]
    &&& r.card_index_of_first_click == 0
    &&& r.card_index_of_second_click == 0
    &&& r.game_status == GameStatus::StatusPlayBefore1stCard
    &&& r.players == s.players
    &&& r.my_player_number == s.my_player_number
    &&& r.my_ws_uid == s.my_ws_uid
    &&& r.players_ws_uid == s.players_ws_uid
    &&& r.is_reconnect == s.is_reconnect
    &&& r.awaiting_resync == s.awaiting_resync
    &&& r.error_text == s.error_text
    &&& r.msgs_waiting_ack == s.msgs_waiting_ack
    &&& r.href == s.href
}

/// The end of a turn does what `turn_end_effect` says, in every game whose
/// clicks lie in the grid (and whose number of players fits a `usize`, as
/// that of every `GameData` does).
pub proof fn lemma_take_turn_end_effect(s: GameState)
    requires
        can_end_turn(s),
        s.players.len() <= usize::MAX,
    ensures
        turn_end_effect(s, take_turn_end_spec(s)),
{
    let r = take_turn_end_spec(s);
    let x1 = s.card_index_of_first_click as int;
    let x2 = s.card_index_of_second_click as int;
    assert(r.card_grid_data[x1].status == CardStatusCardFace::Down);
    assert forall|i: int|
        0 <= i < s.card_grid_data.len() implies #[trigger] r.card_grid_data[i].card_number_and_img_src
        == s.card_grid_data[i].card_number_and_img_src && r.card_grid_data[i].card_index_and_id
        == s.card_grid_data[i].card_index_and_id by {}
}

/// What the message `MsgPlayerClick2ndCardTakeTurnBegin` does, field by
/// field: the status, the card grid and the clicks are the sender's; the
/// player in turn does not change (it changes only with `MsgTakeTurnEnd`),
/// nor does anything else.
pub open spec fn take_turn_begin_effect(
    s: GameState,
    r: GameState,
    game_status: GameStatus,
    card_grid_data: Seq<Card>,
    card_index_of_first_click: usize,
    card_index_of_second_click: usize,
) -> bool {
    &&& r.game_status == game_status
    &&& r.card_grid_data == card_grid_data
    &&& r.card_index_of_first_click == card_index_of_first_click
    &&& r.card_index_of_second_click == card_index_of_second_click
    &&& r.player_turn == s.player_turn
    &&& r.players == s.players
    &&& r.my_player_number == s.my_player_number
    &&& r.my_ws_uid == s.my_ws_uid
    &&& r.players_ws_uid == s.players_ws_uid
    &&& r.is_reconnect == s.is_reconnect
    &&& r.awaiting_resync == s.awaiting_resync
    &&& r.error_text == s.error_text
    &&& r.msgs_waiting_ack == s.msgs_waiting_ack
    &&& r.href == s.href
}

/// The message `MsgPlayerClick2ndCardTakeTurnBegin` does what
/// `take_turn_begin_effect` says, in every game.
pub proof fn lemma_take_turn_begin_effect(
    s: GameState,
    game_status: GameStatus,
    card_grid_data: Seq<Card>,
    card_index_of_first_click: usize,
    card_index_of_second_click: usize,
)
    ensures
        take_turn_begin_effect(
            s,
            take_turn_begin_spec(
                s,
                game_status,
                card_grid_data,
                card_index_of_first_click,
                card_index_of_second_click,
            ),
            game_status,
            card_grid_data,
            card_index_of_first_click,
            card_index_of_second_click,
        ),
{
}

/// The number of the player that takes the turn after player `t` of `n`:
/// `t + 1`, or player 1 after the last one.
pub open spec fn player_after(t: int, n: int) -> int {
    if 1 <= t < n {
        t + 1
    } else {
        1
    }
}

/// Whom the prompt addresses: the client of the player that takes the turn
/// next (the one after the player in turn, player 1 after the last) is asked
/// to take it, with its own nickname; every other client is asked to wait
/// for that player, with its nickname and number.
pub open spec fn prompt_addresses_next_player(s: GameState, p: TakeTurnPrompt) -> bool {
    let next = player_after(s.player_turn as int, s.players.len() as int);
    1 <= s.player_turn <= s.players.len() ==> {
        &&& (p is TakeYourTurn <==> s.my_player_number == next)
        &&& (p matches TakeTurnPrompt::TakeYourTurn { nickname } ==> nickname@
            == s.players[s.my_player_number - 1].nickname@)
        &&& (p matches TakeTurnPrompt::WaitFor { nickname, player_number } ==> {
            &&& player_number == next
            &&& player_number != s.my_player_number
            &&& 1 <= player_number <= s.players.len()
            &&& nickname@ == s.players[player_number - 1].nickname@
        })
    }
}

/// Every prompt that `take_turn_prompt` allows addresses the next player as
/// `prompt_addresses_next_player` says.
pub proof fn lemma_take_turn_prompt(s: GameState, p: TakeTurnPrompt)
    requires
        take_turn_prompt(s, p),
    ensures
        prompt_addresses_next_player(s, p),
{
}

/// What the screen asks of the player while the turn passes.
#[derive(Debug)]
pub enum TakeTurnPrompt {
    /// this player is next: a click takes the turn
    TakeYourTurn {
        /// this player's nickname
        nickname: String,
    },
    /// another player is next: wait for them
    WaitFor {
        /// the next player's nickname
        nickname: String,
        /// the next player's number, from 1
        player_number: usize,
    },
}

/// The prompt while the turn passes from the player in turn to the next one:
/// the next player is asked to take the turn, every other one to wait for it.
pub open spec fn take_turn_prompt(s: GameState, p: TakeTurnPrompt) -> bool {
    let next = next_turn(s.player_turn as int, s.players.len() as int);
    if s.my_player_number == next {
        p matches TakeTurnPrompt::TakeYourTurn { nickname } && nickname@
            == s.players[next - 1].nickname@
    } else {
        p matches TakeTurnPrompt::WaitFor { nickname, player_number } && nickname@
            == s.players[next - 1].nickname@ && player_number == next
    }
}

/// The prompt while the turn passes (see `take_turn_prompt`).
pub fn take_turn_begin_prompt(game_data: &GameData) -> (p: TakeTurnPrompt)
    requires
        game_data.players.len() > 0,
    ensures
        take_turn_prompt(game_data@, p),
        prompt_addresses_next_player(game_data@, p),
{
    let next_player = next_player_turn(game_data.player_turn, game_data.players.len());
    let nickname = game_data.players[next_player - 1].nickname.clone();
    let p = if game_data.my_player_number == next_player {
        TakeTurnPrompt::TakeYourTurn { nickname }
    } else {
        TakeTurnPrompt::WaitFor { nickname, player_number: next_player }
    };
    proof {
        lemma_take_turn_prompt(game_data@, p);
    }
    p
}

/// The text of a prompt.
pub open spec fn prompt_text(p: TakeTurnPrompt) -> Seq<char> {
    match p {
        TakeTurnPrompt::TakeYourTurn { nickname } => nickname@ + ", click here to take your turn !"@,
        TakeTurnPrompt::WaitFor { nickname, player_number } => "Wait for "@ + nickname@ + " "@
            + ordinal(player_number as nat) + " !"@,
    }
}

impl TakeTurnPrompt {
    /// The text of the prompt (see `prompt_text`).
    pub fn text(&self) -> (t: String)
        ensures
            t@ == prompt_text(*self),
    {
        match self {
            TakeTurnPrompt::TakeYourTurn { nickname } => {
                let mut t = nickname.clone();
                t.append(", click here to take your turn !");
                t
            },
            TakeTurnPrompt::WaitFor { nickname, player_number } => {
                let mut t = String::from_str("Wait for ");
                t.append(nickname.as_str());
                t.append(" ");
                let ord = ordinal_number(*player_number);
                t.append(ord.as_str());
                t.append(" !");
                t
            },
        }
    }
}

} // verus!
