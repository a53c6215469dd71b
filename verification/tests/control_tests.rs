use bgtop::catalog::{Game, Temp, UserIterator};
use bgtop::control::{
    loop_gate, report_games, review_users, Config, Coordinator, EngineError, LoopGate, Message,
};
use bgtop::token::RegulationToken;

#[test]
fn coordinator_stops_both_workers_on_stabilized() {
    let mut c = Coordinator::new();
    let (broadcast, forward) = c.step(Message::Stabilized, false);
    assert!(broadcast);
    assert!(forward.is_none());
    assert!(c.draining);
    assert!(c.failure.is_none());
}

#[test]
fn coordinator_records_the_first_fatal_error() {
    let mut c = Coordinator::new();
    let (broadcast, forward) =
        c.step(Message::Fatal(EngineError::Store(String::from("locked"))), false);
    assert!(broadcast);
    assert!(forward.is_none());
    let (broadcast2, _) = c.step(Message::Fatal(EngineError::TokenStopped), false);
    assert!(broadcast2);
    // the later error does not displace the first
    assert!(matches!(c.failure, Some(EngineError::Store(_))));
}

#[test]
fn coordinator_forwards_progress_messages() {
    let mut c = Coordinator::new();
    let (broadcast, forward) = c.step(Message::UserProgress(String::from("u1")), false);
    assert!(!broadcast);
    assert!(matches!(forward, Some(Message::UserProgress(_))));
    let game = Game::new(1, String::from("A"));
    let (broadcast2, forward2) = c.step(Message::GameProgress(game), false);
    assert!(!broadcast2);
    assert!(matches!(forward2, Some(Message::GameProgress(_))));
    assert!(!c.draining);
    assert!(c.failure.is_none());
}

#[test]
fn coordinator_forwards_recoverable_notifications() {
    let mut c = Coordinator::new();
    let (broadcast, forward) =
        c.step(Message::Notification(EngineError::Fetch(String::from("timeout"))), false);
    assert!(!broadcast);
    assert!(matches!(forward, Some(Message::Notification(EngineError::Fetch(_)))));
    assert!(c.failure.is_none());
}

#[test]
fn cancellation_stops_both_workers_within_one_iteration() {
    // The cancel flag is observed while an ordinary progress message is in
    // flight: the coordinator still broadcasts stop orders, and each worker
    // halts at the very next top-of-loop check, whatever its token holds.
    let mut c = Coordinator::new();
    let (broadcast, forward) = c.step(Message::UserProgress(String::from("u1")), true);
    assert!(broadcast);
    assert!(forward.is_some());
    assert!(c.draining);

    let item_tkn = RegulationToken::new(5, 100, 1000);
    let mut rater_tkn = RegulationToken::new(5, 100, 1000);
    rater_tkn.harden();
    let stop_order_pending = broadcast;
    assert_eq!(loop_gate(stop_order_pending, &item_tkn), LoopGate::Halt);
    assert_eq!(loop_gate(stop_order_pending, &rater_tkn), LoopGate::Halt);

    // No half-finalized item: the interrupted item still holds its
    // consistent persisted cursor and accumulator pair.
    let t = Temp::new(3, 2, 900);
    assert_eq!(t.page, 3);
    assert_eq!(t.n, 2);
    assert_eq!(t.r, 900);
}

#[test]
fn loop_gate_runs_with_the_token_delay() {
    let mut tkn = RegulationToken::new(5, 100, 1000);
    assert_eq!(loop_gate(false, &tkn), LoopGate::Run(100));
    tkn.harden();
    assert_eq!(loop_gate(false, &tkn), LoopGate::Run(200));
}

#[test]
fn loop_gate_reports_an_exhausted_token_as_fatal() {
    let mut tkn = RegulationToken::new(1, 100, 1000);
    tkn.harden();
    assert_eq!(loop_gate(false, &tkn), LoopGate::FatalStop);
    // a pending stop order outranks the token
    assert_eq!(loop_gate(true, &tkn), LoopGate::Halt);
}

#[test]
fn report_is_empty_until_every_item_is_stable() {
    let games = vec![Game::new(1, String::from("A")), Game::new(2, String::from("B"))];
    let held_back = report_games(1, games.clone());
    assert!(held_back.is_empty());
    let published = report_games(0, games);
    assert_eq!(published.len(), 2);
    assert_eq!(published[0].id, 1);
    assert_eq!(published[1].id, 2);
}

#[test]
fn config_keeps_its_fields() {
    let c = Config::new(1000, 20, 500, 1000, 50000);
    assert_eq!(c.limit, 1000);
    assert_eq!(c.attempts, 20);
    assert_eq!(c.u_delay, 500);
    assert_eq!(c.g_delay, 1000);
    assert_eq!(c.prevail_for, 50000);
}

#[test]
fn review_users_is_a_noop_for_now() {
    assert!(review_users().is_ok());
}

#[test]
fn user_iterator_walks_pages_from_the_cursor() {
    let mut it = UserIterator::new(7, 3);
    assert_eq!(it.game_id, 7);
    assert_eq!(it.next_page(), 3);
    assert_eq!(it.next_page(), 4);
    assert_eq!(it.page, 5);
}

#[test]
fn new_game_has_no_rating_yet() {
    let g = Game::new(9, String::from("gamma"));
    assert_eq!(g.rating, 0);
    assert_eq!(g.votes, 0);
    assert_eq!(g.bgg_num_votes, 0);
    assert_eq!(g.bgg_geek_rating, 0);
    assert_eq!(g.bgg_avg_rating, 0);
}
