use vstd::prelude::*;

use crate::rng::rand_below;
use crate::world::Action;

verus! {

/// An exploration rate held as the exact fraction `scaled / den`, where
/// `den` is ten times the number of training epochs. It starts at 1 (that
/// is, `scaled == den`), steps down by one part in `epochs` (ten scaled
/// units) per episode, and never falls under the floor of one tenth
/// (`den / 10` scaled units).
#[derive(Debug, Clone, Copy, PartialEq, Eq, Structural)]
pub struct EpsilonSchedule {
    pub scaled: u64,
    pub den: u64,
}

/// One decay step: ten scaled units down, cut off at the floor.
pub open spec fn decay_step(scaled: int, floor: int) -> int {
    if scaled - 10 >= floor {
        scaled - 10
    } else {
        floor
    }
}

/// The rate after `n` decay steps.
pub open spec fn decayed(start: int, floor: int, n: nat) -> int
    decreases n,
{
    if n == 0 {
        start
    } else {
        decay_step(decayed(start, floor, (n - 1) as nat), floor)
    }
}

/// Linear decay keeps its floor: after any number of episodes the rate is
/// exactly the start minus ten units per episode, cut off at the floor, and
/// in particular it never falls under the floor.
pub proof fn lemma_epsilon_decay(start: int, floor: int, n: nat)
    requires
        start >= floor,
    ensures
        decayed(start, floor, n) == if start - 10 * n >= floor {
            start - 10 * n
        } else {
            floor
        },
        decayed(start, floor, n) >= floor,
    decreases n,
{
    if n > 0 {
        lemma_epsilon_decay(start, floor, (n - 1) as nat);
    }
}

impl EpsilonSchedule {
    /// The floor the rate never falls under: one tenth.
    pub open spec fn floor(self) -> int {
        self.den as int / 10
    }

    /// A denominator of ten whole parts and a rate between floor and 1.
    pub open spec fn wf(self) -> bool {
        &&& self.den >= 10
        &&& self.den % 10 == 0
        &&& self.floor() <= self.scaled <= self.den
    }

    /// The full exploration rate of 1, with one decay step per epoch.
    pub fn new(epochs: u64) -> (e: EpsilonSchedule)
        requires
            1 <= epochs <= u64::MAX / 10,
        ensures
            e.wf(),
            e.den == 10 * epochs,
            e.scaled == e.den,
    {
        let den = 10 * epochs;
        EpsilonSchedule { scaled: den, den }
    }

    /// One episode's decay: ten scaled units down, cut off at the floor.
    pub fn decay(&mut self)
        requires
            old(self).wf(),
        ensures
            final(self).wf(),
            final(self).den == old(self).den,
            final(self).scaled as int == decay_step(old(self).scaled as int, old(self).floor()),
    {
        let floor = self.den / 10;
        if self.scaled >= floor + 10 {
            self.scaled = self.scaled - 10;
        } else {
            self.scaled = floor;
        }
    }
}

/// Epsilon-greedy selection over action indices: the uniform draw under the
/// scaled rate picks the random action, any other draw keeps the greedy one.
pub fn epsilon_greedy(draw: u64, scaled: u64, greedy: u8, random_action: u8) -> (a: u8)
    ensures
        a == if draw < scaled {
            random_action
        } else {
            greedy
        },
{
    if draw < scaled {
        random_action
    } else {
        greedy
    }
}

/// The action an index selects: 0 up, 1 down, 2 left, 3 right; any other
/// index falls back to up.
pub open spec fn index_action(i: u8) -> Action {
    if i == 0 {
        Action::UP
    } else if i == 1 {
        Action::DOWN
    } else if i == 2 {
        Action::LEFT
    } else if i == 3 {
        Action::RIGHT
    } else {
        Action::UP
    }
}

/// Maps an action index to its action.
pub fn action_from_index(i: u8) -> (a: Action)
    ensures
        a == index_action(i),
{
    match i {
        0 => Action::UP,
        1 => Action::DOWN,
        2 => Action::LEFT,
        3 => Action::RIGHT,
        _ => Action::UP,
    }
}

/// What the trainer does right after one environment step: whether the
/// transition ended the episode's game, whether a mini-batch update is due,
/// whether the target network is synchronized on this step, and whether the
/// episode is over.
#[derive(Debug, Clone, Copy, PartialEq, Eq, Structural)]
pub struct StepDecision {
    pub done: bool,
    pub train: bool,
    pub sync_target: bool,
    pub episode_over: bool,
}

/// The bookkeeping of one training run: the decaying exploration rate, the
/// step counter across episodes, the move counter of the running episode,
/// and the fixed cadence parameters.
#[derive(Debug, Clone, Copy, PartialEq, Eq, Structural)]
pub struct TrainingSession {
    pub epsilon: EpsilonSchedule,
    pub total_steps: u64,
    pub moves: u64,
    pub batch_size: usize,
    pub sync_frequency: u64,
    pub max_moves: u64,
}

impl TrainingSession {
    pub open spec fn wf(self) -> bool {
        &&& self.epsilon.wf()
        &&& self.sync_frequency >= 1
    }

    /// The cadence parameters stay as configured.
    pub open spec fn same_config(self, other: TrainingSession) -> bool {
        &&& self.batch_size == other.batch_size
        &&& self.sync_frequency == other.sync_frequency
        &&& self.max_moves == other.max_moves
        &&& self.epsilon.den == other.epsilon.den
    }

    /// A fresh run: full exploration, no steps taken.
    pub fn new(epochs: u64, batch_size: usize, sync_frequency: u64, max_moves: u64) -> (s:
        TrainingSession)
        requires
            1 <= epochs <= u64::MAX / 10,
            sync_frequency >= 1,
        ensures
            s.wf(),
            s.epsilon.den == 10 * epochs,
            s.epsilon.scaled == s.epsilon.den,
            s.total_steps == 0,
            s.moves == 0,
            s.batch_size == batch_size,
            s.sync_frequency == sync_frequency,
            s.max_moves == max_moves,
    {
        TrainingSession {
            epsilon: EpsilonSchedule::new(epochs),
            total_steps: 0,
            moves: 0,
            batch_size,
            sync_frequency,
            max_moves,
        }
    }

    /// Opens an episode: the move counter starts over.
    pub fn begin_episode(&mut self)
        requires
            old(self).wf(),
        ensures
            final(self).wf(),
            final(self).same_config(*old(self)),
            final(self).epsilon == old(self).epsilon,
            final(self).total_steps == old(self).total_steps,
            final(self).moves == 0,
    {
        self.moves = 0;
    }

    /// Accounts for one environment step and says what follows it: the
    /// transition is final when the reward is positive; a mini-batch update
    /// is due when the replay store holds more records than one batch; the
    /// target network is synchronized every `sync_frequency`-th step; the
    /// episode is over when the reward left -1 or the move cap is passed.
    pub fn step_decision(&mut self, reward: i64, replay_len: usize) -> (d: StepDecision)
        requires
            old(self).wf(),
            old(self).total_steps < u64::MAX,
            old(self).moves < u64::MAX,
        ensures
            final(self).wf(),
            final(self).same_config(*old(self)),
            final(self).epsilon == old(self).epsilon,
            final(self).total_steps == old(self).total_steps + 1,
            final(self).moves == old(self).moves + 1,
            d.done == (reward > 0),
            d.train == (replay_len > old(self).batch_size),
            d.sync_target == (final(self).total_steps % old(self).sync_frequency == 0),
            d.episode_over == (reward != -1 || final(self).moves > old(self).max_moves),
    {
        self.total_steps = self.total_steps + 1;
        self.moves = self.moves + 1;
        StepDecision {
            done: reward > 0,
            train: replay_len > self.batch_size,
            sync_target: self.total_steps % self.sync_frequency == 0,
            episode_over: reward != -1 || self.moves > self.max_moves,
        }
    }

    /// Closes an episode: the exploration rate decays one step.
    pub fn end_episode(&mut self)
        requires
            old(self).wf(),
        ensures
            final(self).wf(),
            final(self).same_config(*old(self)),
            final(self).total_steps == old(self).total_steps,
            final(self).moves == old(self).moves,
            final(self).epsilon.scaled as int == decay_step(
                old(self).epsilon.scaled as int,
                old(self).epsilon.floor(),
            ),
    {
        self.epsilon.decay();
    }

    /// Picks the next action index: a uniform draw under the exploration
    /// rate picks one of the four actions at random, any other draw keeps
    /// the greedy index. Either way the index names one of the four actions.
    pub fn choose_action(&self, greedy: u8) -> (a: u8)
        requires
            self.wf(),
            greedy < 4,
        ensures
            a < 4,
    {
        let draw = rand_below(self.epsilon.den);
        let random_action = rand_below(4) as u8;
        epsilon_greedy(draw, self.epsilon.scaled, greedy, random_action)
    }
}

/// Where a greedy evaluation run stands after a step.
#[derive(Debug, Clone, Copy, PartialEq, Eq, Structural)]
pub enum EvalStatus {
    Playing,
    Won,
    Lost,
}

/// What one evaluation step concludes: a positive reward wins, any other
/// reward than -1 loses, and so does reaching the move cap without a win —
/// the cap-th move is the last one taken.
pub open spec fn eval_step_spec(reward: int, moves_taken: int, move_cap: int) -> EvalStatus {
    if reward > 0 {
        EvalStatus::Won
    } else if reward != -1 {
        EvalStatus::Lost
    } else if moves_taken >= move_cap {
        EvalStatus::Lost
    } else {
        EvalStatus::Playing
    }
}

/// The bookkeeping of one greedy evaluation run: moves taken so far and the
/// bound on them.
#[derive(Debug, Clone, Copy, PartialEq, Eq, Structural)]
pub struct EvalSession {
    pub moves: u64,
    pub move_cap: u64,
}

impl EvalSession {
    /// A fresh run with the given move bound.
    pub fn new(move_cap: u64) -> (s: EvalSession)
        ensures
            s.moves == 0,
            s.move_cap == move_cap,
    {
        EvalSession { moves: 0, move_cap }
    }

    /// Accounts for one greedy step and its reward.
    pub fn step(&mut self, reward: i64) -> (s: EvalStatus)
        requires
            old(self).moves < u64::MAX,
        ensures
            final(self).move_cap == old(self).move_cap,
            final(self).moves == old(self).moves + 1,
            s == eval_step_spec(reward as int, final(self).moves as int, old(self).move_cap as int),
    {
        self.moves = self.moves + 1;
        if reward > 0 {
            EvalStatus::Won
        } else if reward != -1 {
            EvalStatus::Lost
        } else if self.moves >= self.move_cap {
            EvalStatus::Lost
        } else {
            EvalStatus::Playing
        }
    }
}

} // verus!
