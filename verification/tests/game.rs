use bottle_bid::game::{
    Game, GameAction, GameEvent, Table, BOTTLE_MAX, BOTTLE_MIN, BOTTLE_START, MAX_GAME_ROUNDS,
    START_MONEY,
};
use bottle_bid::proto_utils::{MsgType, RoundResultType, RoundStart, ServerRequest};
use bottle_bid::{BidError, GameResultType};

fn new_game() -> Game {
    Game::new(String::from("ann"), String::from("bob"))
}

fn both_sent() -> GameEvent {
    GameEvent::SentBoth(Ok(()), Ok(()))
}

fn message(action: GameAction) -> ServerRequest {
    match action {
        GameAction::SendBoth(msg) => msg,
        other => panic!("{:?}", other),
    }
}

/// Announces a round and plays it with the given bids.
fn play(game: &mut Game, bid_a: u32, bid_b: u32) {
    assert_eq!(message(game.action()).msg_type, MsgType::RoundStart);
    game.advance(both_sent());
    assert!(matches!(game.action(), GameAction::CollectBids { .. }));
    let bids = GameEvent::Bids(Ok(bid_a), Ok(bid_b));
    assert!(game.accepts(&bids));
    game.advance(bids);
    assert!(matches!(game.action(), GameAction::SendToA(_)));
    game.advance(GameEvent::Sent(Ok(())));
    assert!(matches!(game.action(), GameAction::SendToB(_)));
    game.advance(GameEvent::Sent(Ok(())));
}

fn finish(game: &Game) -> Result<GameResultType, BidError> {
    match game.action() {
        GameAction::Finish(outcome) => outcome,
        other => panic!("{:?}", other),
    }
}

#[test]
fn constants_of_the_game() {
    assert_eq!(MAX_GAME_ROUNDS, 10);
    assert_eq!((BOTTLE_MIN, BOTTLE_START, BOTTLE_MAX), (0, 5, 10));
    assert_eq!(START_MONEY, 100);
}

#[test]
fn game_opens_with_names_and_money() {
    let game = new_game();
    let msg = message(game.action());
    assert_eq!(msg.msg_type, MsgType::GameStart);
    let start = msg.game_start.unwrap();
    assert_eq!(start.player1_name, "ann");
    assert_eq!(start.player1_start_money, 100);
    assert_eq!(start.player2_name, "bob");
    assert_eq!(start.player2_start_money, 100);
}

#[test]
fn rounds_are_announced_as_things_stand() {
    let mut game = new_game();
    game.advance(both_sent());
    let first = message(game.action()).round_start.unwrap();
    assert_eq!(
        first,
        RoundStart { round_num: 1, player_a_money: 100, player_b_money: 100, bottle_pos: 5 }
    );
    play(&mut game, 30, 20);
    let second = message(game.action()).round_start.unwrap();
    assert_eq!(
        second,
        RoundStart { round_num: 2, player_a_money: 70, player_b_money: 100, bottle_pos: 6 }
    );
    play(&mut game, 5, 40);
    let third = message(game.action()).round_start.unwrap();
    assert_eq!(
        third,
        RoundStart { round_num: 3, player_a_money: 70, player_b_money: 60, bottle_pos: 5 }
    );
}

#[test]
fn players_are_told_of_the_bids() {
    let mut game = new_game();
    game.advance(both_sent());
    game.advance(both_sent());
    match game.action() {
        GameAction::CollectBids { player_a_money_left, player_b_money_left } => {
            assert_eq!((player_a_money_left, player_b_money_left), (100, 100));
        }
        other => panic!("{:?}", other),
    }
    game.advance(GameEvent::Bids(Ok(12), Ok(34)));
    let to_a = match game.action() {
        GameAction::SendToA(msg) => msg,
        other => panic!("{:?}", other),
    };
    assert_eq!(to_a.msg_type, MsgType::BidResult);
    let result = to_a.bid_result.unwrap();
    assert_eq!((result.player_a_bid, result.player_b_bid), (12, 34));
    assert_eq!(result.winner_name, "bob");
    assert_eq!(result.result_type, RoundResultType::Win);
    game.advance(GameEvent::Sent(Ok(())));
    let to_b = match game.action() {
        GameAction::SendToB(msg) => msg,
        other => panic!("{:?}", other),
    };
    assert_eq!(to_b.bid_result.unwrap().winner_name, "bob");
}

#[test]
fn round_with_equal_bids_names_no_winner() {
    let mut game = new_game();
    game.advance(both_sent());
    game.advance(both_sent());
    game.advance(GameEvent::Bids(Ok(7), Ok(7)));
    let result = match game.action() {
        GameAction::SendToA(msg) => msg.bid_result.unwrap(),
        other => panic!("{:?}", other),
    };
    assert_eq!(result.winner_name, "");
    assert_eq!(result.result_type, RoundResultType::Draw);
}

#[test]
fn draw_advantage_alternates() {
    let start = Table {
        player_a_money_left: 100,
        player_b_money_left: 100,
        bottle_position: 5,
        draw_advantage: true,
    };
    let first = start.play_round(10, 10);
    assert_eq!(first.player_a_money_left, 90);
    assert_eq!(first.bottle_position, 6);
    assert!(!first.draw_advantage);
    let won = first.play_round(1, 2);
    assert_eq!(won.player_b_money_left, 98);
    assert_eq!(won.bottle_position, 5);
    assert!(!won.draw_advantage);
    let second = won.play_round(10, 10);
    assert_eq!(second.player_b_money_left, 88);
    assert_eq!(second.bottle_position, 4);
    assert!(second.draw_advantage);
}

#[test]
fn only_the_winner_of_a_round_pays() {
    let start = Table {
        player_a_money_left: 60,
        player_b_money_left: 50,
        bottle_position: 3,
        draw_advantage: false,
    };
    assert_eq!(
        start.play_round(21, 20),
        Table { player_a_money_left: 39, bottle_position: 4, ..start }
    );
    assert_eq!(
        start.play_round(19, 20),
        Table { player_b_money_left: 30, bottle_position: 2, ..start }
    );
}

#[test]
fn player_a_wins_at_the_upper_end() {
    let mut game = new_game();
    game.advance(both_sent());
    for _ in 0..5 {
        play(&mut game, 2, 1);
    }
    let last = message(game.action()).round_start.unwrap();
    assert_eq!(last.round_num, 6);
    assert_eq!(last.bottle_pos, 10);
    game.advance(both_sent());
    assert_eq!(finish(&game), Ok(GameResultType::PlayerAWins));
}

#[test]
fn player_b_wins_at_the_lower_end() {
    let mut game = new_game();
    game.advance(both_sent());
    for _ in 0..5 {
        play(&mut game, 1, 20);
    }
    game.advance(both_sent());
    assert_eq!(finish(&game), Ok(GameResultType::PlayerBWins));
}

#[test]
fn game_without_decision_is_a_draw() {
    let mut game = new_game();
    game.advance(both_sent());
    for _ in 0..10 {
        play(&mut game, 3, 3);
    }
    assert_eq!(finish(&game), Ok(GameResultType::Draw));
}

#[test]
fn player_who_cannot_be_reached_abandons() {
    let mut game = new_game();
    game.advance(GameEvent::SentBoth(Err(BidError::ErrorOnSend), Ok(())));
    assert_eq!(finish(&game), Err(BidError::PlayerAAbandoned));

    let mut game = new_game();
    game.advance(GameEvent::SentBoth(Ok(()), Err(BidError::ErrorOnSend)));
    assert_eq!(finish(&game), Err(BidError::PlayerBAbandoned));

    let mut game = new_game();
    game.advance(both_sent());
    game.advance(GameEvent::SentBoth(
        Err(BidError::ErrorOnSend),
        Err(BidError::ErrorOnSend),
    ));
    assert_eq!(finish(&game), Err(BidError::PlayerAAbandoned));

    let mut game = new_game();
    game.advance(both_sent());
    game.advance(GameEvent::SentBoth(Ok(()), Err(BidError::ErrorOnSend)));
    assert_eq!(finish(&game), Err(BidError::PlayerBAbandoned));
}

#[test]
fn player_who_makes_no_bid_abandons() {
    let mut game = new_game();
    game.advance(both_sent());
    game.advance(both_sent());
    game.advance(GameEvent::Bids(
        Err(BidError::MaxBidErrorsReached),
        Err(BidError::ErrorOnRead),
    ));
    assert_eq!(finish(&game), Err(BidError::PlayerAAbandoned));

    let mut game = new_game();
    game.advance(both_sent());
    game.advance(both_sent());
    game.advance(GameEvent::Bids(Ok(3), Err(BidError::ErrorOnRead)));
    assert_eq!(finish(&game), Err(BidError::PlayerBAbandoned));
}

#[test]
fn player_who_misses_the_result_abandons() {
    let mut game = new_game();
    game.advance(both_sent());
    game.advance(both_sent());
    game.advance(GameEvent::Bids(Ok(3), Ok(4)));
    game.advance(GameEvent::Sent(Err(BidError::ErrorOnSend)));
    assert_eq!(finish(&game), Err(BidError::PlayerAAbandoned));

    let mut game = new_game();
    game.advance(both_sent());
    game.advance(both_sent());
    game.advance(GameEvent::Bids(Ok(3), Ok(4)));
    game.advance(GameEvent::Sent(Ok(())));
    game.advance(GameEvent::Sent(Err(BidError::ErrorOnSend)));
    assert_eq!(finish(&game), Err(BidError::PlayerBAbandoned));
}

#[test]
fn bids_beyond_the_money_are_not_accepted() {
    let mut game = new_game();
    game.advance(both_sent());
    game.advance(both_sent());
    assert!(!game.accepts(&GameEvent::Bids(Ok(101), Ok(5))));
    assert!(!game.accepts(&GameEvent::Bids(Ok(5), Ok(101))));
    assert!(!game.accepts(&GameEvent::Bids(Ok(101), Ok(101))));
    assert!(game.accepts(&GameEvent::Bids(Ok(100), Ok(100))));
    assert!(game.accepts(&GameEvent::Bids(Err(BidError::ErrorOnRead), Ok(101))));
}

#[test]
fn events_that_are_not_due_do_not_move_a_game() {
    let mut game = new_game();
    game.advance(GameEvent::Sent(Ok(())));
    game.advance(GameEvent::Bids(Ok(101), Ok(101)));
    assert_eq!(message(game.action()).msg_type, MsgType::GameStart);
}

#[test]
fn longest_game_takes_forty_one_events() {
    let mut game = new_game();
    let mut events: u32 = 0;
    loop {
        match game.action() {
            GameAction::SendBoth(_) => game.advance(both_sent()),
            GameAction::CollectBids { .. } => game.advance(GameEvent::Bids(Ok(1), Ok(1))),
            GameAction::SendToA(_) | GameAction::SendToB(_) => {
                game.advance(GameEvent::Sent(Ok(())))
            }
            GameAction::Finish(_) => break,
        }
        events += 1;
    }
    assert_eq!(events, 41);
}

#[test]
fn game_is_decided_by_the_bids() {
    let mut game = new_game();
    game.advance(both_sent());
    let bids: Vec<(u32, u32)> =
        vec![(10, 4), (8, 8), (3, 9), (7, 7), (20, 1), (15, 2), (14, 14), (12, 0), (11, 1)];
    for (bid_a, bid_b) in bids {
        play(&mut game, bid_a, bid_b);
    }
    // A took all rounds but the third and the second tie.
    let last = message(game.action()).round_start.unwrap();
    assert_eq!(last.player_a_money, 100 - (10 + 8 + 20 + 15 + 14 + 12 + 11));
    assert_eq!(last.player_b_money, 100 - (9 + 7));
    assert_eq!(last.bottle_pos, 5 + 7 - 2);
    game.advance(both_sent());
    assert_eq!(finish(&game), Ok(GameResultType::PlayerAWins));
}
