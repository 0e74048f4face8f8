use bottle_bid::player_management::{
    get_free_players, get_player_info_for_game, send_proto_to_client_by_name, FreePlayerSearch,
    SearchAction,
};
use bottle_bid::player_table::PlayerTable;
use bottle_bid::proto_utils::{Exchange, MsgType, ServerRequest};
use bottle_bid::{BidError, Player};

fn player(name: &str, stream: u64) -> Player {
    Player {
        id: 0,
        name: String::from(name),
        wins: 0,
        losses: 0,
        in_game: false,
        stream,
        player_cooldown: 1000,
        player_wait_time: 0,
    }
}

fn pool(names: Vec<&str>) -> PlayerTable {
    let mut table = PlayerTable::new();
    let mut stream: u64 = 1;
    for name in names {
        table.insert(player(name, stream));
        stream += 1;
    }
    table
}

/// Runs a search; those on the given streams do not answer.
fn search(table: &PlayerTable, now: i64, silent: Vec<u64>, unreachable: Vec<u64>) -> FreePlayerSearch {
    let mut search = FreePlayerSearch::new(table, now);
    loop {
        match search.action() {
            SearchAction::Send(stream, msg) => {
                assert_eq!(msg.msg_type, MsgType::Alive);
                if unreachable.contains(&stream) {
                    search.advance(Exchange::Sent(Err(BidError::ErrorOnSend)));
                } else {
                    search.advance(Exchange::Sent(Ok(())));
                }
            }
            SearchAction::Receive(stream) => {
                assert!(!unreachable.contains(&stream));
                if silent.contains(&stream) {
                    search.advance(Exchange::Received(Err(BidError::PlayerTimedOut)));
                } else {
                    search.advance(Exchange::Received(Ok(ServerRequest::new(MsgType::Ack))));
                }
            }
            SearchAction::Finish => return search,
        }
    }
}

fn sorted(mut names: Vec<String>) -> Vec<String> {
    names.sort();
    names
}

#[test]
fn player_of_the_same_name_is_replaced() {
    let mut table = pool(vec!["ann", "bob"]);
    assert_eq!(table.len(), 2);
    table.insert(player("ann", 9));
    assert_eq!(table.len(), 2);
    assert_eq!(table.stream_of(&String::from("ann")), Some(9));
    assert_eq!(table.stream_of(&String::from("bob")), Some(2));
}

#[test]
fn removed_player_is_gone() {
    let mut table = pool(vec!["ann", "bob", "cid"]);
    table.remove(&String::from("bob"));
    table.remove(&String::from("nobody"));
    assert_eq!(table.len(), 2);
    assert_eq!(table.stream_of(&String::from("bob")), None);
    assert_eq!(table.stream_of(&String::from("cid")), Some(3));
}

#[test]
fn games_are_counted_for_a_player() {
    let mut table = pool(vec!["ann"]);
    let ann = String::from("ann");
    assert_eq!(table.record_of(&ann), Some((0, 0)));
    assert!(table.leave_game(&ann, true, 5000));
    assert!(table.leave_game(&ann, true, 6000));
    assert!(table.leave_game(&ann, false, 7000));
    assert_eq!(table.record_of(&ann), Some((2, 1)));
    assert_eq!(table.free_players(7000).len(), 0);
    assert_eq!(table.free_players(7001).len(), 1);
    assert!(!table.leave_game(&String::from("bob"), true, 5000));
    assert_eq!(table.record_of(&String::from("bob")), None);
}

#[test]
fn player_info_for_a_game() {
    let mut table = pool(vec!["ann", "bob"]);
    let info = get_player_info_for_game(&mut table, &String::from("bob")).unwrap();
    assert_eq!(info.name, "bob");
    assert_eq!(info.stream, 2);
    assert_eq!(table.free_players(2000).len(), 1);
    assert_eq!(table.free_players(2000)[0].name, "ann");
    assert!(get_player_info_for_game(&mut table, &String::from("cid")).is_none());
    assert_eq!(table.len(), 2);
}

#[test]
fn message_is_addressed_by_name() {
    let table = pool(vec!["ann", "bob"]);
    let alive = ServerRequest::new(MsgType::Alive);
    let (stream, msg) =
        send_proto_to_client_by_name(&table, &String::from("bob"), alive).unwrap();
    assert_eq!(stream, 2);
    assert_eq!(msg.msg_type, MsgType::Alive);
    let alive = ServerRequest::new(MsgType::Alive);
    assert_eq!(
        send_proto_to_client_by_name(&table, &String::from("cid"), alive).unwrap_err(),
        BidError::PlayerNotFoundByName
    );
}

#[test]
fn players_who_answer_are_free() {
    let mut table = pool(vec!["ann", "bob", "cid"]);
    let found = search(&table, 2000, vec![], vec![]);
    assert_eq!(sorted(get_free_players(&mut table, found)), vec!["ann", "bob", "cid"]);
    assert_eq!(table.len(), 3);
}

#[test]
fn cooldown_must_be_over() {
    let table = pool(vec!["ann"]);
    assert!(matches!(FreePlayerSearch::new(&table, 999).action(), SearchAction::Finish));
    assert!(matches!(FreePlayerSearch::new(&table, 1000).action(), SearchAction::Finish));
    assert!(matches!(FreePlayerSearch::new(&table, 1001).action(), SearchAction::Send(1, _)));
}

#[test]
fn players_in_a_game_are_not_asked() {
    let mut table = pool(vec!["ann", "bob"]);
    get_player_info_for_game(&mut table, &String::from("ann"));
    let found = search(&table, 2000, vec![1], vec![1]);
    assert_eq!(get_free_players(&mut table, found), vec!["bob"]);
    assert_eq!(table.len(), 2);
}

#[test]
fn dead_players_are_taken_out() {
    let mut table = pool(vec!["ann", "bob", "cid", "dan"]);
    let found = search(&table, 2000, vec![2], vec![4]);
    assert_eq!(sorted(get_free_players(&mut table, found)), vec!["ann", "cid"]);
    assert_eq!(table.len(), 2);
    assert_eq!(table.stream_of(&String::from("bob")), None);
    assert_eq!(table.stream_of(&String::from("dan")), None);
}

#[test]
fn exchanges_that_are_not_due_do_not_move_a_search() {
    let table = pool(vec!["ann"]);
    let mut search = FreePlayerSearch::new(&table, 2000);
    search.advance(Exchange::Received(Ok(ServerRequest::new(MsgType::Ack))));
    assert!(matches!(search.action(), SearchAction::Send(1, _)));
    search.advance(Exchange::Sent(Ok(())));
    search.advance(Exchange::Sent(Err(BidError::ErrorOnSend)));
    assert!(matches!(search.action(), SearchAction::Receive(1)));
    search.advance(Exchange::Received(Ok(ServerRequest::new(MsgType::Ack))));
    assert!(matches!(search.action(), SearchAction::Finish));
}

#[test]
fn each_player_is_asked_once() {
    let table = pool(vec!["ann", "bob", "cid"]);
    let mut search = FreePlayerSearch::new(&table, 2000);
    let mut asked: Vec<u64> = Vec::new();
    loop {
        match search.action() {
            SearchAction::Send(stream, _) => {
                asked.push(stream);
                search.advance(Exchange::Sent(Ok(())));
            }
            SearchAction::Receive(stream) => {
                assert_eq!(asked.last(), Some(&stream));
                search.advance(Exchange::Received(Err(BidError::ErrorOnRead)));
            }
            SearchAction::Finish => break,
        }
    }
    asked.sort();
    assert_eq!(asked, vec![1, 2, 3]);
}
