//! The synchronization core: precondition failures, pending-slot merges,
//! outcome draining, and the signed submission.

use jornet::ids::UuidBytes;
use jornet::integrity;
use jornet::ranking::{reduce, Score};
use jornet::sync::{
    done_refreshing_leaderboard, send_events, CreatePlayerEvent, Leaderboard, LeaderboardResult,
    PendingState, Player, RefreshLeaderboardEvent, ScoreInput, SendScoreEvent,
};

const ID: [u8; 16] = [0x11; 16];
const KEY: [u8; 16] = [0x22; 16];
const PID: [u8; 16] = [0x33; 16];
const PKEY: [u8; 16] = [0x44; 16];

fn board() -> Leaderboard {
    Leaderboard::with_host_and_leaderboard(
        Some("http://localhost:1234".to_string()),
        UuidBytes::from_slice(&ID).unwrap(),
        UuidBytes::from_slice(&KEY).unwrap(),
    )
}

fn player() -> Player {
    Player {
        id: UuidBytes::from_slice(&PID).unwrap(),
        key: UuidBytes::from_slice(&PKEY).unwrap(),
        name: "ada".to_string(),
    }
}

fn entry(key: u64, who: &str) -> Score {
    Score { score_key: key, player: who.to_string(), meta: None, timestamp: String::new() }
}

#[test]
fn send_score_without_player_fails_synchronously_and_queues_nothing() {
    let mut lb = board();
    let mut pending = PendingState::new();
    assert!(lb.send_score(5, 100).is_none());
    // nothing was spawned, so a full synchronization step yields no events
    done_refreshing_leaderboard(&mut lb, &mut pending);
    let events = send_events(&mut pending);
    assert!(events.is_empty());
    assert!(lb.get_player().is_none());
    assert!(lb.get_leaderboard().is_empty());
}

#[test]
fn send_score_with_player_builds_signed_request() {
    let mut lb = board();
    lb.as_player(player());
    let req = lb.send_score_with_meta(0x40a00000, "meta", 777).unwrap();
    assert_eq!(
        req.url,
        "http://localhost:1234/api/v1/scores/11111111-1111-1111-1111-111111111111"
    );
    let expected_tag =
        integrity::sign(&PKEY, &KEY, &PID, 0x40a00000, Some("meta"), 777).unwrap();
    assert_eq!(req.input.k, expected_tag);
    assert_eq!(req.input.timestamp, 777);
    assert_eq!(req.input.score_bits, 0x40a00000);
    assert_eq!(req.input.meta.as_deref(), Some("meta"));
    assert_eq!(req.input.player.bytes(), &PID);
}

#[test]
fn score_input_tag_matches_sign() {
    let input = ScoreInput::new(
        &UuidBytes::from_slice(&KEY).unwrap(),
        9,
        &player(),
        None,
        42,
    );
    let expected = integrity::sign(&PKEY, &KEY, &PID, 9, None, 42).unwrap();
    assert_eq!(input.k, expected);
    assert_eq!(input.meta, None);
}

#[test]
fn refresh_completion_and_sync_publish_reduced_batch() {
    let mut lb = board();
    let mut pending = PendingState::new();
    let batch = vec![entry(5, "a"), entry(9, "b"), entry(9, "c"), entry(1, "d")];
    let expected = reduce(vec![entry(5, "a"), entry(9, "b"), entry(9, "c"), entry(1, "d")]);
    pending.complete_refresh(Some(batch));
    done_refreshing_leaderboard(&mut lb, &mut pending);
    let view = lb.get_leaderboard();
    assert_eq!(view.len(), expected.len());
    for (got, want) in view.iter().zip(expected.iter()) {
        assert_eq!(got.score_key, want.score_key);
        assert_eq!(got.player, want.player);
    }
    // the slot is empty again: a second step changes nothing
    done_refreshing_leaderboard(&mut lb, &mut pending);
    assert_eq!(lb.get_leaderboard().len(), expected.len());
    let events = send_events(&mut pending);
    assert_eq!(
        events,
        vec![LeaderboardResult::RefreshLeaderboardEvent(RefreshLeaderboardEvent::Success)]
    );
}

#[test]
fn refresh_failure_keeps_previous_view() {
    let mut lb = board();
    let mut pending = PendingState::new();
    pending.complete_refresh(Some(vec![entry(3, "keep")]));
    done_refreshing_leaderboard(&mut lb, &mut pending);
    assert_eq!(lb.get_leaderboard().len(), 1);
    pending.complete_refresh(None);
    done_refreshing_leaderboard(&mut lb, &mut pending);
    let view = lb.get_leaderboard();
    assert_eq!(view.len(), 1);
    assert_eq!(view[0].player, "keep");
    let events = send_events(&mut pending);
    assert_eq!(
        events,
        vec![
            LeaderboardResult::RefreshLeaderboardEvent(RefreshLeaderboardEvent::Success),
            LeaderboardResult::RefreshLeaderboardEvent(RefreshLeaderboardEvent::Failure),
        ]
    );
}

#[test]
fn create_player_request_and_merge() {
    let mut lb = board();
    let mut pending = PendingState::new();
    let req = lb.create_player(Some("ada"));
    assert_eq!(req.url, "http://localhost:1234/api/v1/players");
    assert_eq!(req.name.as_deref(), Some("ada"));
    let anon = lb.create_player(None);
    assert_eq!(anon.name, None);

    pending.complete_create_player(Some(player()));
    done_refreshing_leaderboard(&mut lb, &mut pending);
    let current = lb.get_player().unwrap();
    assert_eq!(current.name, "ada");
    assert_eq!(current.id.bytes(), &PID);
    let events = send_events(&mut pending);
    assert_eq!(
        events,
        vec![LeaderboardResult::CreatePlayerEvent(CreatePlayerEvent::Success)]
    );
}

#[test]
fn create_player_failure_keeps_previous_player() {
    let mut lb = board();
    let mut pending = PendingState::new();
    lb.as_player(player());
    pending.complete_create_player(None);
    done_refreshing_leaderboard(&mut lb, &mut pending);
    assert_eq!(lb.get_player().unwrap().name, "ada");
    let events = send_events(&mut pending);
    assert_eq!(
        events,
        vec![LeaderboardResult::CreatePlayerEvent(CreatePlayerEvent::Failure)]
    );
}

#[test]
fn outcomes_drain_in_submission_order_and_empty_the_queue() {
    let mut pending = PendingState::new();
    pending.complete_send_score(true);
    pending.complete_send_score(false);
    pending.complete_refresh(None);
    let events = send_events(&mut pending);
    assert_eq!(
        events,
        vec![
            LeaderboardResult::SendScoreEvent(SendScoreEvent::Success),
            LeaderboardResult::SendScoreEvent(SendScoreEvent::Failure),
            LeaderboardResult::RefreshLeaderboardEvent(RefreshLeaderboardEvent::Failure),
        ]
    );
    assert!(send_events(&mut pending).is_empty());
}

#[test]
fn default_host_is_used_when_none_is_given() {
    let lb = Leaderboard::with_host_and_leaderboard(
        None,
        UuidBytes::from_slice(&ID).unwrap(),
        UuidBytes::from_slice(&KEY).unwrap(),
    );
    let req = lb.create_player(None);
    assert_eq!(req.url, "https://jornet.vleue.com/api/v1/players");
}
