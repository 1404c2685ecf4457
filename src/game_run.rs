use vstd::prelude::*;

verus! {

/// The recorded result of one level of a run.
#[derive(Clone, Copy, Debug, PartialEq, Eq, Structural)]
pub enum LevelStatus {
    Unplayed,
    Tried,
    Completed,
}

impl Default for LevelStatus {
    fn default() -> (r: LevelStatus)
        ensures
            r == LevelStatus::Unplayed,
    {
        LevelStatus::Unplayed
    }
}

/// The kind of run being played.
#[derive(Clone, Copy, Debug, PartialEq, Eq, Structural)]
pub enum GameRunMode {
    Training,
    Game,
    SingleLevel,
}

/// The run mode chosen in the menus, if any.
#[derive(Debug)]
pub struct SelectedGameRunMode(pub Option<GameRunMode>);

impl Default for SelectedGameRunMode {
    fn default() -> (r: SelectedGameRunMode)
        ensures
            r.0 is None,
    {
        SelectedGameRunMode(None)
    }
}

/// Identity of a level; the level content source turns it into a descriptor.
#[derive(Clone, Copy, Debug, PartialEq, Eq, Structural)]
pub enum LevelId {
    Path01,
    Corridor01,
    InYerFace1,
    Choose01,
    InYerFace2,
    Path02,
    Corridor02,
    InYerFace3,
    Choose02,
    Path03,
    Base,
    Defenders,
    Secondary,
    Shadow,
    Land,
    Wall,
}

/// The error of advancing past the last level of a run.
#[derive(Clone, Copy, Debug, PartialEq, Eq, Structural)]
pub enum GameRunError {
    NoMoreLevels,
}

/// The levels of the full game, in order of play.
pub open spec fn game_level_seq() -> Seq<LevelId> {
    seq![
        LevelId::Path01,
        LevelId::Corridor01,
        LevelId::InYerFace1,
        LevelId::Choose01,
        LevelId::InYerFace2,
        LevelId::Path02,
        LevelId::Corridor02,
        LevelId::InYerFace3,
        LevelId::Choose02,
        LevelId::Path03,
    ]
}

/// The training levels, in order of play.
pub open spec fn training_level_seq() -> Seq<LevelId> {
    seq![
        LevelId::Base,
        LevelId::Defenders,
        LevelId::Secondary,
        LevelId::Shadow,
        LevelId::Land,
        LevelId::Wall,
    ]
}

/// What a run ledger holds, as mathematical values.
pub struct GameRunView {
    pub index: nat,
    pub statuses: Seq<LevelStatus>,
    pub levels: Seq<LevelId>,
    pub mode: GameRunMode,
}

impl GameRunView {
    /// The cursor points at a level and every level has exactly one outcome.
    pub open spec fn wf(self) -> bool {
        &&& self.levels.len() > 0
        &&& self.index < self.levels.len()
        &&& self.statuses.len() == self.levels.len()
    }

    pub open spec fn has_more(self) -> bool {
        self.index < self.levels.len() - 1
    }

    /// A fresh ledger over `levels`: cursor at the start, nothing played.
    pub open spec fn fresh(levels: Seq<LevelId>, mode: GameRunMode) -> GameRunView {
        GameRunView {
            index: 0,
            statuses: Seq::new(levels.len(), |i: int| LevelStatus::Unplayed),
            levels,
            mode,
        }
    }

    /// The ledger after one call of `advance_current_level`.
    pub open spec fn advanced(self) -> GameRunView {
        if self.has_more() {
            GameRunView { index: self.index + 1, ..self }
        } else {
            self
        }
    }

    /// The ledger after `k` calls of `advance_current_level`.
    pub open spec fn advanced_times(self, k: nat) -> GameRunView
        decreases k,
    {
        if k == 0 {
            self
        } else {
            self.advanced_times((k - 1) as nat).advanced()
        }
    }
}

/// The ledger of one run: its levels, the cursor and the outcome of each level.
#[derive(Debug)]
pub struct GameRun {
    index: usize,
    level_statuses: Vec<LevelStatus>,
    levels: Vec<LevelId>,
    mode: GameRunMode,
}

impl View for GameRun {
    type V = GameRunView;

    closed spec fn view(&self) -> GameRunView {
        GameRunView {
            index: self.index as nat,
            statuses: self.level_statuses@,
            levels: self.levels@,
            mode: self.mode,
        }
    }
}

impl Clone for GameRun {
    fn clone(&self) -> (r: Self)
        ensures
            r@ == self@,
    {
        let r = GameRun {
            index: self.index,
            level_statuses: self.level_statuses.clone(),
            levels: self.levels.clone(),
            mode: self.mode,
        };
        assert(r.level_statuses@ =~= self.level_statuses@);
        assert(r.levels@ =~= self.levels@);
        r
    }
}

fn unplayed_statuses(n: usize) -> (r: Vec<LevelStatus>)
    ensures
        r@ == Seq::new(n as nat, |i: int| LevelStatus::Unplayed),
{
    let mut r: Vec<LevelStatus> = Vec::new();
    let mut i: usize = 0;
    while i < n
        invariant
            i <= n,
            r@ == Seq::new(i as nat, |j: int| LevelStatus::Unplayed),
        decreases n - i,
    {
        r.push(LevelStatus::Unplayed);
        i = i + 1;
        assert(r@ =~= Seq::new(i as nat, |j: int| LevelStatus::Unplayed));
    }
    r
}

impl GameRun {
    pub closed spec fn wf(&self) -> bool {
        self@.wf()
    }

    /// The levels of the full game, in order.
    pub fn game_levels() -> (r: Vec<LevelId>)
        ensures
            r@ == game_level_seq(),
    {
        let r = vec![
            LevelId::Path01,
            LevelId::Corridor01,
            LevelId::InYerFace1,
            LevelId::Choose01,
            LevelId::InYerFace2,
            LevelId::Path02,
            LevelId::Corridor02,
            LevelId::InYerFace3,
            LevelId::Choose02,
            LevelId::Path03,
        ];
        assert(r@ =~= game_level_seq());
        r
    }

    /// The training levels, in order.
    pub fn training_levels() -> (r: Vec<LevelId>)
        ensures
            r@ == training_level_seq(),
    {
        let r = vec![
            LevelId::Base,
            LevelId::Defenders,
            LevelId::Secondary,
            LevelId::Shadow,
            LevelId::Land,
            LevelId::Wall,
        ];
        assert(r@ =~= training_level_seq());
        r
    }

    /// A run through the ten levels of the full game.
    pub fn new_game() -> (r: Self)
        ensures
            r.wf(),
            r@ == GameRunView::fresh(game_level_seq(), GameRunMode::Game),
            r@.levels.len() == 10,
    {
        let levels = Self::game_levels();
        let level_statuses = unplayed_statuses(levels.len());
        GameRun { index: 0, level_statuses, levels, mode: GameRunMode::Game }
    }

    /// A run through the six training levels.
    pub fn new_training() -> (r: Self)
        ensures
            r.wf(),
            r@ == GameRunView::fresh(training_level_seq(), GameRunMode::Training),
            r@.levels.len() == 6,
    {
        let levels = Self::training_levels();
        let level_statuses = unplayed_statuses(levels.len());
        GameRun { index: 0, level_statuses, levels, mode: GameRunMode::Training }
    }

    /// A run of the one level given.
    pub fn new_single_level(level: LevelId) -> (r: Self)
        ensures
            r.wf(),
            r@ == GameRunView::fresh(seq![level], GameRunMode::SingleLevel),
    {
        let r = GameRun {
            index: 0,
            level_statuses: vec![LevelStatus::Unplayed],
            levels: vec![level],
            mode: GameRunMode::SingleLevel,
        };
        assert(r@.statuses =~= Seq::new(1, |i: int| LevelStatus::Unplayed));
        assert(r@.levels =~= seq![level]);
        r
    }

    pub fn mode(&self) -> (r: GameRunMode)
        ensures
            r == self@.mode,
    {
        self.mode
    }

    /// Moves the cursor to the next level; fails, changing nothing, at the last.
    pub fn advance_current_level(&mut self) -> (r: Result<(), GameRunError>)
        requires
            old(self).wf(),
        ensures
            final(self).wf(),
            r is Ok <==> old(self)@.has_more(),
            r is Err ==> r == Err::<(), GameRunError>(GameRunError::NoMoreLevels),
            final(self)@ == old(self)@.advanced(),
    {
        if self.index < self.levels.len() - 1 {
            self.index = self.index + 1;
            Ok(())
        } else {
            Err(GameRunError::NoMoreLevels)
        }
    }

    /// The level at the cursor, which the level content source turns into a descriptor.
    pub fn current_level_config(&self) -> (r: LevelId)
        requires
            self.wf(),
        ensures
            r == self@.levels[self@.index as int],
    {
        self.levels[self.index]
    }

    pub fn has_more_levels(&self) -> (r: bool)
        requires
            self.wf(),
        ensures
            r == self@.has_more(),
    {
        self.index < self.levels.len() - 1
    }

    /// Records `level_status` for the level at the cursor and for no other.
    pub fn set_current_level_status(&mut self, level_status: LevelStatus)
        requires
            old(self).wf(),
        ensures
            final(self).wf(),
            final(self)@ == (GameRunView {
                statuses: old(self)@.statuses.update(old(self)@.index as int, level_status),
                ..old(self)@
            }),
            final(self)@.statuses[old(self)@.index as int] == level_status,
            forall|j: int|
                0 <= j < old(self)@.statuses.len() && j != old(self)@.index
                    ==> final(self)@.statuses[j] == old(self)@.statuses[j],
    {
        self.level_statuses.set(self.index, level_status);
    }

    pub fn current_level_index(&self) -> (r: usize)
        ensures
            r == self@.index,
    {
        self.index
    }

    pub fn total_level_count(&self) -> (r: usize)
        ensures
            r == self@.levels.len(),
    {
        self.levels.len()
    }

    /// The outcome recorded for the level at `index`.
    pub fn level_status(&self, index: usize) -> (r: LevelStatus)
        requires
            self.wf(),
            index < self@.levels.len(),
        ensures
            r == self@.statuses[index as int],
    {
        self.level_statuses[index]
    }
}

/// From the start of a run, each of the first `total_level_count() - 1` advances
/// finds a next level and moves the cursor by one; after them the cursor stands at
/// the last level, no level is left, and one more advance changes nothing.
pub proof fn lemma_advances_reach_last_level(run: GameRunView, k: nat)
    requires
        run.wf(),
        run.index == 0,
    ensures
        k < run.levels.len() - 1 ==> run.advanced_times(k).has_more(),
        k <= run.levels.len() - 1 ==> run.advanced_times(k) == (GameRunView { index: k, ..run }),
        k == run.levels.len() - 1 ==> !run.advanced_times(k).has_more(),
        k == run.levels.len() - 1 ==> run.advanced_times(k).advanced() == run.advanced_times(k),
    decreases k,
{
    if k > 0 {
        lemma_advances_reach_last_level(run, (k - 1) as nat);
    }
}

} // verus!
