use level_flow::game_run::{GameRun, GameRunError, LevelId, LevelStatus};
use level_flow::level::{
    required_enemy_count, EnemyDestruction, LeadOutTimer, LevelSession, LevelState, LevelStats,
    LEAD_OUT_TIME_FAIL_NS, LEAD_OUT_TIME_SUCCESS_NS,
};

use EnemyDestruction::{Optional, Required};

const MS: u64 = 1_000_000;

fn playing_session(run: GameRun, enemies: &Vec<EnemyDestruction>) -> LevelSession {
    let mut session = LevelSession::new(run);
    session.spawn_level(enemies);
    assert_eq!(session.state(), LevelState::Loading);
    session.check_load_status();
    assert_eq!(session.state(), LevelState::Ready);
    session.start_playing();
    assert_eq!(session.state(), LevelState::Playing);
    session
}

#[test]
fn fresh_level_stats() {
    let enemies = vec![Optional, Required, Optional];
    let mut session = LevelSession::new(GameRun::new_game());
    session.spawn_level(&enemies);
    assert_eq!(
        session.stats(),
        LevelStats { enemies_destroyed: 0, success: None, total_enemies: 1 }
    );
    assert_eq!(LevelStats::new(4).total_enemies, 4);
}

#[test]
fn required_enemies_are_counted() {
    assert_eq!(required_enemy_count(&vec![]), 0);
    assert_eq!(required_enemy_count(&vec![Optional, Optional]), 0);
    assert_eq!(required_enemy_count(&vec![Required, Optional, Required, Required]), 3);
}

#[test]
fn loading_only_moves_to_ready() {
    let mut session = LevelSession::new(GameRun::new_game());
    session.start_playing();
    assert_eq!(session.state(), LevelState::Loading);
    session.check_load_status();
    session.check_load_status();
    assert_eq!(session.state(), LevelState::Ready);
}

#[test]
fn completion_waits_for_required_enemies_and_explosions() {
    let mut session = playing_session(GameRun::new_game(), &vec![Required, Optional, Optional]);
    // the two optional enemies are destroyed
    session.on_enemy_destroyed();
    session.on_enemy_destroyed();
    session.check_level_complete(&vec![Required], 0);
    assert_eq!(session.state(), LevelState::Playing);
    assert_eq!(session.stats().success, None);
    // the required enemy is destroyed, its explosion still going on
    session.on_enemy_destroyed();
    session.check_level_complete(&vec![], 1);
    assert_eq!(session.state(), LevelState::Playing);
    assert_eq!(session.stats().enemies_destroyed, 3);
    // the explosion is over
    session.check_level_complete(&vec![Optional], 0);
    assert_eq!(session.state(), LevelState::Complete);
    assert_eq!(session.stats().success, Some(true));
    assert_eq!(session.run().level_status(0), LevelStatus::Completed);
    assert_eq!(session.lead_out().duration_ns(), LEAD_OUT_TIME_SUCCESS_NS);
    assert_eq!(session.lead_out().elapsed_ns(), 0);
}

#[test]
fn player_loss_ends_the_level_as_failed() {
    let mut session = playing_session(GameRun::new_game(), &vec![Required, Required]);
    session.on_player_destroyed();
    assert_eq!(session.state(), LevelState::Complete);
    assert_eq!(session.stats().success, Some(false));
    assert_eq!(session.stats().enemies_destroyed, 0);
    assert_eq!(session.run().level_status(0), LevelStatus::Tried);
    assert_eq!(session.lead_out().duration_ns(), LEAD_OUT_TIME_FAIL_NS);
}

#[test]
fn first_detector_wins() {
    let mut session = playing_session(GameRun::new_game(), &vec![Required]);
    session.on_player_destroyed();
    session.check_level_complete(&vec![], 0);
    assert_eq!(session.stats().success, Some(false));
    assert_eq!(session.run().level_status(0), LevelStatus::Tried);

    let mut session = playing_session(GameRun::new_game(), &vec![Required]);
    session.check_level_complete(&vec![], 0);
    session.on_player_destroyed();
    assert_eq!(session.stats().success, Some(true));
    assert_eq!(session.run().level_status(0), LevelStatus::Completed);
    assert_eq!(session.lead_out().duration_ns(), 1000 * MS);
}

#[test]
fn detectors_do_nothing_outside_play() {
    let mut session = LevelSession::new(GameRun::new_game());
    session.spawn_level(&vec![Required]);
    session.on_player_destroyed();
    session.check_level_complete(&vec![], 0);
    assert_eq!(session.state(), LevelState::Loading);
    assert_eq!(session.stats().success, None);
    assert_eq!(session.run().level_status(0), LevelStatus::Unplayed);
}

#[test]
fn lead_out_fires_once_after_success() {
    let mut session = playing_session(GameRun::new_game(), &vec![]);
    assert!(!session.update_lead_out_timer(5000 * MS));
    session.check_level_complete(&vec![], 0);
    assert!(!session.update_lead_out_timer(400 * MS));
    assert_eq!(session.lead_out().elapsed_ns(), 400 * MS);
    assert!(!session.update_lead_out_timer(500 * MS));
    assert_eq!(session.lead_out().elapsed_ns(), 900 * MS);
    assert!(session.update_lead_out_timer(200 * MS));
    assert_eq!(session.lead_out().elapsed_ns(), 1000 * MS);
    assert!(session.lead_out().finished());
    for _ in 0..5 {
        assert!(!session.update_lead_out_timer(1000 * MS));
    }
}

#[test]
fn lead_out_after_failure_takes_three_seconds() {
    let mut session = playing_session(GameRun::new_game(), &vec![Required]);
    session.on_player_destroyed();
    let mut edges = 0;
    let mut ticks = 0;
    for _ in 0..40 {
        ticks += 1;
        if session.update_lead_out_timer(100 * MS) {
            edges += 1;
            assert_eq!(ticks, 30);
        }
    }
    assert_eq!(edges, 1);
}

#[test]
fn timer_stops_at_its_duration() {
    let mut timer = LeadOutTimer::new();
    timer.arm(250 * MS);
    timer.tick(100 * MS);
    assert_eq!(timer.elapsed_ns(), 100 * MS);
    assert!(!timer.finished());
    assert!(!timer.just_finished());
    timer.tick(1000 * MS);
    assert_eq!(timer.elapsed_ns(), 250 * MS);
    assert!(timer.finished());
    assert!(timer.just_finished());
    timer.tick(1 * MS);
    assert!(!timer.just_finished());
    assert!(timer.finished());
    timer.arm(10 * MS);
    assert!(!timer.finished());
    assert_eq!(timer.elapsed_ns(), 0);
}

#[test]
fn timer_of_no_duration_finishes_on_first_tick() {
    let mut timer = LeadOutTimer::new();
    assert!(!timer.finished());
    timer.tick(0);
    assert!(timer.finished());
    assert!(timer.just_finished());
}

#[test]
fn next_level_after_summary() {
    let mut session = playing_session(GameRun::new_single_level(LevelId::Base), &vec![]);
    session.check_level_complete(&vec![], 0);
    assert_eq!(session.advance_current_level(), Err(GameRunError::NoMoreLevels));

    let mut session = playing_session(GameRun::new_training(), &vec![Required]);
    session.on_player_destroyed();
    assert_eq!(session.advance_current_level(), Ok(()));
    session.spawn_level(&vec![Required, Required]);
    assert_eq!(session.state(), LevelState::Loading);
    assert_eq!(session.stats().total_enemies, 2);
    assert_eq!(session.stats().success, None);
    assert_eq!(session.run().current_level_index(), 1);
    assert_eq!(session.run().level_status(0), LevelStatus::Tried);
    assert_eq!(session.run().level_status(1), LevelStatus::Unplayed);
}
