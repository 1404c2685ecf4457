//! Run progression and level lifecycle for a level-based shooter.
//!
//! `game_run` holds the ledger of a run: its ordered levels, the cursor into
//! them and the outcome recorded for each. `level` holds the lifecycle of the
//! level being played: loading, readiness, play, completion and the lead-out
//! delay before the summary is shown.
pub mod game_run;
pub mod level;
