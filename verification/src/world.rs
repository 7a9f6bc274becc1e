use vstd::prelude::*;

use crate::board::{find_piece, has_piece, in_bounds, rand_pos, BoardPiece, GridBoard};
use vstd::string::StringExecFns;

verus! {

/// A grid world: one board carrying the four role pieces Player, Goal,
/// Pit and Wall, in that fixed order.
#[derive(Debug)]
pub struct GridWorld {
    pub board: GridBoard,
}

/// The four moves the player can take, one unit step each.
#[allow(non_camel_case_types)]
#[derive(Debug, Clone, Copy, PartialEq, Eq, Structural)]
pub enum Action {
    UP,
    DOWN,
    LEFT,
    RIGHT,
}

/// What a candidate move runs into: a free in-bounds cell, the wall or the
/// board's edge, or the pit.
#[derive(Debug, Clone, Copy, PartialEq, Eq, Structural)]
pub enum MoveStatus {
    Valid,
    Blocked,
    Lethal,
}

/// Failure of a randomized board setup: no valid layout was drawn within
/// the attempt bound.
#[derive(Debug, Clone, Copy, PartialEq, Eq, Structural)]
pub enum GridError {
    InvalidBoardLayout,
}

/// How many random layouts a randomized initializer draws before giving up.
pub const MAX_INIT_ATTEMPTS: u64 = 10000;

/// The unit direction a move steps along.
pub open spec fn dir_of(action: Action) -> (i64, i64) {
    match action {
        Action::UP => (-1i64, 0i64),
        Action::DOWN => (1i64, 0i64),
        Action::LEFT => (0i64, -1i64),
        Action::RIGHT => (0i64, 1i64),
    }
}

/// `d` is one of the four cardinal unit directions.
pub open spec fn is_unit_dir(d: (i64, i64)) -> bool {
    ||| d == dir_of(Action::UP)
    ||| d == dir_of(Action::DOWN)
    ||| d == dir_of(Action::LEFT)
    ||| d == dir_of(Action::RIGHT)
}

impl GridWorld {
    /// The world's shape: a board of side at least 4 whose pieces are
    /// exactly Player, Goal, Pit and Wall, in that order, all in bounds.
    pub open spec fn wf(self) -> bool {
        &&& self.board.size >= 4
        &&& self.board.wf()
        &&& self.board.components@.len() == 4
        &&& self.board.components@[0].name@ == "Player"@
        &&& self.board.components@[1].name@ == "Goal"@
        &&& self.board.components@[2].name@ == "Pit"@
        &&& self.board.components@[3].name@ == "Wall"@
    }

    pub open spec fn player_pos(self) -> (i64, i64) {
        self.board.components@[0].pos
    }

    pub open spec fn goal_pos(self) -> (i64, i64) {
        self.board.components@[1].pos
    }

    pub open spec fn pit_pos(self) -> (i64, i64) {
        self.board.components@[2].pos
    }

    pub open spec fn wall_pos(self) -> (i64, i64) {
        self.board.components@[3].pos
    }

    /// Position of the piece the given name finds.
    pub open spec fn named_pos(self, name: Seq<char>) -> (i64, i64) {
        self.board.components@[find_piece(self.board.components@, name)].pos
    }

    /// The outcome of stepping from `from` along `d`: the pit is checked
    /// first, then the wall and the board's edge; anything else is valid.
    pub open spec fn move_status_spec(self, from: (i64, i64), d: (i64, i64)) -> MoveStatus {
        let r = from.0 + d.0;
        let c = from.1 + d.1;
        if r == self.pit_pos().0 && c == self.pit_pos().1 {
            MoveStatus::Lethal
        } else if (r == self.wall_pos().0 && c == self.wall_pos().1) || !(0 <= r < self.board.size
            && 0 <= c < self.board.size) {
            MoveStatus::Blocked
        } else {
            MoveStatus::Valid
        }
    }

    /// The four role pieces stand on pairwise distinct cells.
    pub open spec fn positions_distinct(self) -> bool {
        &&& self.player_pos() != self.goal_pos()
        &&& self.player_pos() != self.pit_pos()
        &&& self.player_pos() != self.wall_pos()
        &&& self.goal_pos() != self.pit_pos()
        &&& self.goal_pos() != self.wall_pos()
        &&& self.pit_pos() != self.wall_pos()
    }

    /// `p` is one of the four corner cells of the board.
    pub open spec fn corner(self, p: (i64, i64)) -> bool {
        (p.0 == 0 || p.0 == self.board.size - 1) && (p.1 == 0 || p.1 == self.board.size - 1)
    }

    /// Some cardinal move out of `from` is valid.
    pub open spec fn has_valid_cardinal_move(self, from: (i64, i64)) -> bool {
        ||| self.move_status_spec(from, dir_of(Action::UP)) == MoveStatus::Valid
        ||| self.move_status_spec(from, dir_of(Action::DOWN)) == MoveStatus::Valid
        ||| self.move_status_spec(from, dir_of(Action::LEFT)) == MoveStatus::Valid
        ||| self.move_status_spec(from, dir_of(Action::RIGHT)) == MoveStatus::Valid
    }

    /// A playable layout: distinct positions, and neither Player nor Goal
    /// trapped in a corner with no valid cardinal move out of it.
    pub open spec fn board_valid(self) -> bool {
        &&& self.positions_distinct()
        &&& (self.corner(self.player_pos()) ==> self.has_valid_cardinal_move(self.player_pos()))
        &&& (self.corner(self.goal_pos()) ==> self.has_valid_cardinal_move(self.goal_pos()))
    }

    /// The deterministic layout: Player(0,3), Goal(0,0), Pit(0,1), Wall(1,1),
    /// with their usual one-letter codes.
    pub open spec fn is_static_layout(self) -> bool {
        &&& self.player_pos().0 == 0 && self.player_pos().1 == 3
        &&& self.goal_pos().0 == 0 && self.goal_pos().1 == 0
        &&& self.pit_pos().0 == 0 && self.pit_pos().1 == 1
        &&& self.wall_pos().0 == 1 && self.wall_pos().1 == 1
        &&& self.board.components@[0].code@ == "P"@
        &&& self.board.components@[1].code@ == "+"@
        &&& self.board.components@[2].code@ == "-"@
        &&& self.board.components@[3].code@ == "W"@
    }
}

/// The four role names read differently from one another.
proof fn lemma_role_names_distinct()
    ensures
        "Player"@ != "Goal"@,
        "Player"@ != "Pit"@,
        "Player"@ != "Wall"@,
        "Goal"@ != "Pit"@,
        "Goal"@ != "Wall"@,
        "Pit"@ != "Wall"@,
{
    reveal_strlit("Player");
    reveal_strlit("Goal");
    reveal_strlit("Pit");
    reveal_strlit("Wall");
    assert("Player"@.len() == 6);
    assert("Goal"@.len() == 4);
    assert("Pit"@.len() == 3);
    assert("Wall"@.len() == 4);
    assert("Goal"@[0] != "Wall"@[0]);
}

/// The deterministic layout is playable: positions are distinct, and a step
/// down leads Player and Goal alike onto a free in-bounds cell.
proof fn lemma_static_layout_valid(w: GridWorld)
    requires
        w.wf(),
        w.is_static_layout(),
    ensures
        w.board_valid(),
{
    assert(w.move_status_spec(w.player_pos(), dir_of(Action::DOWN)) == MoveStatus::Valid);
    assert(w.move_status_spec(w.goal_pos(), dir_of(Action::DOWN)) == MoveStatus::Valid);
}

/// No playable layout lets two pieces share a cell: whenever any two of the
/// four pieces stand on one position, the board is invalid.
pub proof fn lemma_shared_cell_invalid(w: GridWorld)
    requires
        w.wf(),
        !w.positions_distinct(),
    ensures
        !w.board_valid(),
{
}

/// A layout that leaves Player or Goal in a corner with no valid cardinal
/// move out of it is invalid.
pub proof fn lemma_corner_trap_invalid(w: GridWorld)
    requires
        w.wf(),
        (w.corner(w.player_pos()) && !w.has_valid_cardinal_move(w.player_pos())) || (w.corner(
            w.goal_pos(),
        ) && !w.has_valid_cardinal_move(w.goal_pos())),
    ensures
        !w.board_valid(),
{
}

/// The three rewards split the cells exactly, where pit and goal differ:
/// -10 exactly on the pit, 10 exactly on the goal, -1 exactly elsewhere.
pub proof fn lemma_reward_cases(w: GridWorld)
    requires
        w.wf(),
        w.pit_pos() != w.goal_pos(),
    ensures
        (w.reward_spec() == -10) <==> (w.player_pos() == w.pit_pos()),
        (w.reward_spec() == 10) <==> (w.player_pos() == w.goal_pos()),
        (w.reward_spec() == -1) <==> (w.player_pos() != w.pit_pos() && w.player_pos()
            != w.goal_pos()),
{
}

impl GridWorld {
    /// Outcome of stepping from `from` along the unit direction `d`.
    fn status_from(&self, from: (i64, i64), d: (i64, i64)) -> (st: MoveStatus)
        requires
            self.wf(),
            in_bounds(from, self.board.size),
            is_unit_dir(d),
        ensures
            st == self.move_status_spec(from, d),
    {
        let pit = self.board.components[2].pos;
        let wall = self.board.components[3].pos;
        let r = from.0 + d.0;
        let c = from.1 + d.1;
        if r == pit.0 && c == pit.1 {
            MoveStatus::Lethal
        } else if (r == wall.0 && c == wall.1) || !(r >= 0 && r <= self.board.size - 1 && c >= 0
            && c <= self.board.size - 1) {
            MoveStatus::Blocked
        } else {
            MoveStatus::Valid
        }
    }

    /// Classifies the move of the named piece along the unit direction:
    /// the pit means `Lethal`; the wall or the board's edge means `Blocked`;
    /// any other cell means `Valid`.
    pub fn validate_move(&self, piece: String, move_direction: (i64, i64)) -> (st: MoveStatus)
        requires
            self.wf(),
            has_piece(self.board.components@, piece@),
            is_unit_dir(move_direction),
        ensures
            st == self.move_status_spec(self.named_pos(piece@), move_direction),
    {
        let idx = self.board.find(&piece);
        let target = self.board.components[idx].pos;
        self.status_from(target, move_direction)
    }

    /// True exactly when the layout is playable: no two pieces share a cell,
    /// and neither Player nor Goal is trapped in a corner.
    pub fn validate_board(&self) -> (valid: bool)
        requires
            self.wf(),
        ensures
            valid == self.board_valid(),
    {
        let player = self.board.components[0].pos;
        let goal = self.board.components[1].pos;
        let pit = self.board.components[2].pos;
        let wall = self.board.components[3].pos;

        let distinct = !((player.0 == goal.0 && player.1 == goal.1) || (player.0 == pit.0
            && player.1 == pit.1) || (player.0 == wall.0 && player.1 == wall.1) || (goal.0 == pit.0
            && goal.1 == pit.1) || (goal.0 == wall.0 && goal.1 == wall.1) || (pit.0 == wall.0
            && pit.1 == wall.1));

        let player_free = !self.in_corner(player) || self.escapable(player);
        let goal_free = !self.in_corner(goal) || self.escapable(goal);
        distinct && player_free && goal_free
    }

    /// `p` stands in one of the four corners.
    fn in_corner(&self, p: (i64, i64)) -> (b: bool)
        requires
            self.wf(),
        ensures
            b == self.corner(p),
    {
        (p.0 == 0 || p.0 == self.board.size - 1) && (p.1 == 0 || p.1 == self.board.size - 1)
    }

    /// Some cardinal move out of `from` is valid.
    fn escapable(&self, from: (i64, i64)) -> (b: bool)
        requires
            self.wf(),
            in_bounds(from, self.board.size),
        ensures
            b == self.has_valid_cardinal_move(from),
    {
        matches!(self.status_from(from, (-1, 0)), MoveStatus::Valid) || matches!(
            self.status_from(from, (1, 0)),
            MoveStatus::Valid,
        ) || matches!(self.status_from(from, (0, -1)), MoveStatus::Valid) || matches!(
            self.status_from(from, (0, 1)),
            MoveStatus::Valid,
        )
    }

    /// Moves the player one step. A valid or lethal candidate cell is
    /// entered; a blocked one leaves the board exactly as it was.
    pub fn make_move(&mut self, action: Action)
        requires
            old(self).wf(),
        ensures
            final(self).wf(),
            final(self).board.size == old(self).board.size,
            ({
                let d = dir_of(action);
                let st = old(self).move_status_spec(old(self).player_pos(), d);
                if st == MoveStatus::Blocked {
                    final(self).board.components@ == old(self).board.components@
                } else {
                    final(self).board.components@ == old(self).board.components@.update(
                        0,
                        (BoardPiece {
                            name: old(self).board.components@[0].name,
                            code: old(self).board.components@[0].code,
                            pos: (
                                ((old(self).player_pos().0 + d.0) as i64),
                                ((old(self).player_pos().1 + d.1) as i64),
                            ),
                        }),
                    )
                }
            }),
    {
        let move_direction: (i64, i64) = match action {
            Action::UP => (-1, 0),
            Action::DOWN => (1, 0),
            Action::LEFT => (0, -1),
            Action::RIGHT => (0, 1),
        };
        let player = self.board.components[0].pos;
        let move_status = self.status_from(player, move_direction);
        if matches!(move_status, MoveStatus::Valid) || matches!(move_status, MoveStatus::Lethal) {
            let name = self.board.components[0].name.clone();
            let code = self.board.components[0].code.clone();
            let pos = (player.0 + move_direction.0, player.1 + move_direction.1);
            self.board.components[0] = BoardPiece { name, code, pos };
        }
    }

    /// Every piece carries its usual one-letter code.
    pub open spec fn fixed_codes(self) -> bool {
        &&& self.board.components@[0].code@ == "P"@
        &&& self.board.components@[1].code@ == "+"@
        &&& self.board.components@[2].code@ == "-"@
        &&& self.board.components@[3].code@ == "W"@
    }

    /// Lays the four pieces out on the given cells, in role order, with
    /// their usual one-letter codes. The board must still be empty.
    fn init_pieces(&mut self, player: (i64, i64), goal: (i64, i64), pit: (i64, i64), wall: (i64, i64))
        requires
            old(self).board.size >= 4,
            old(self).board.components@.len() == 0,
            in_bounds(player, old(self).board.size),
            in_bounds(goal, old(self).board.size),
            in_bounds(pit, old(self).board.size),
            in_bounds(wall, old(self).board.size),
        ensures
            final(self).wf(),
            final(self).fixed_codes(),
            final(self).player_pos() == player,
            final(self).goal_pos() == goal,
            final(self).pit_pos() == pit,
            final(self).wall_pos() == wall,
            final(self).board.size == old(self).board.size,
    {
        proof {
            lemma_role_names_distinct();
        }
        let n0 = String::from_str("Player");
        proof {
            crate::board::lemma_find_from_exact(self.board.components@, n0@, 0, 0);
        }
        self.board.add_piece(n0, String::from_str("P"), player);
        let n1 = String::from_str("Goal");
        proof {
            crate::board::lemma_find_from_exact(self.board.components@, n1@, 0, 1);
        }
        self.board.add_piece(n1, String::from_str("+"), goal);
        let n2 = String::from_str("Pit");
        proof {
            crate::board::lemma_find_from_exact(self.board.components@, n2@, 0, 2);
        }
        self.board.add_piece(n2, String::from_str("-"), pit);
        let n3 = String::from_str("Wall");
        proof {
            crate::board::lemma_find_from_exact(self.board.components@, n3@, 0, 3);
        }
        self.board.add_piece(n3, String::from_str("W"), wall);
    }

    /// Puts the piece in slot `i` on `p`, leaving everything else alone.
    fn place_piece(&mut self, i: usize, p: (i64, i64))
        requires
            old(self).wf(),
            i < 4,
            in_bounds(p, old(self).board.size),
        ensures
            final(self).wf(),
            final(self).board.size == old(self).board.size,
            final(self).board.components@ == old(self).board.components@.update(
                i as int,
                (BoardPiece {
                    name: old(self).board.components@[i as int].name,
                    code: old(self).board.components@[i as int].code,
                    pos: p,
                }),
            ),
    {
        let name = self.board.components[i].name.clone();
        let code = self.board.components[i].code.clone();
        self.board.components[i] = BoardPiece { name, code, pos: p };
    }

    /// Lays the four pieces out deterministically: Player(0,3), Goal(0,0),
    /// Pit(0,1), Wall(1,1). This layout is always playable.
    pub fn init_grid_static(&mut self)
        requires
            old(self).board.size >= 4,
            old(self).board.components@.len() == 0,
        ensures
            final(self).wf(),
            final(self).is_static_layout(),
            final(self).board_valid(),
            final(self).board.size == old(self).board.size,
    {
        self.init_pieces((0, 3), (0, 0), (0, 1), (1, 1));
        proof {
            lemma_static_layout_valid(*self);
        }
    }

    /// Places the player uniformly at random on the otherwise deterministic
    /// layout, drawing again until the board is playable; gives up with
    /// `InvalidBoardLayout` after `MAX_INIT_ATTEMPTS` draws.
    #[verifier::loop_isolation(false)]
    pub fn init_grid_player(&mut self) -> (r: Result<(), GridError>)
        requires
            old(self).board.size >= 4,
            old(self).board.components@.len() == 0,
        ensures
            final(self).wf(),
            final(self).fixed_codes(),
            final(self).goal_pos().0 == 0 && final(self).goal_pos().1 == 0,
            final(self).pit_pos().0 == 0 && final(self).pit_pos().1 == 1,
            final(self).wall_pos().0 == 1 && final(self).wall_pos().1 == 1,
            final(self).board.size == old(self).board.size,
            r is Ok ==> final(self).board_valid(),
    {
        self.init_grid_static();
        let mut attempts: u64 = MAX_INIT_ATTEMPTS;
        while attempts > 0
            invariant
                self.wf(),
                self.fixed_codes(),
                self.goal_pos().0 == 0 && self.goal_pos().1 == 0,
                self.pit_pos().0 == 0 && self.pit_pos().1 == 1,
                self.wall_pos().0 == 1 && self.wall_pos().1 == 1,
                self.board.size == old(self).board.size,
            decreases attempts,
        {
            let p = rand_pos(0, self.board.size);
            self.place_piece(0, p);
            if self.validate_board() {
                return Ok(());
            }
            attempts = attempts - 1;
        }
        Err(GridError::InvalidBoardLayout)
    }

    /// Places all four pieces uniformly at random, drawing whole layouts
    /// until one is playable; gives up with `InvalidBoardLayout` after
    /// `MAX_INIT_ATTEMPTS` draws.
    #[verifier::loop_isolation(false)]
    pub fn init_grid_rand(&mut self) -> (r: Result<(), GridError>)
        requires
            old(self).board.size >= 4,
            old(self).board.components@.len() == 0,
        ensures
            final(self).wf(),
            final(self).fixed_codes(),
            final(self).board.size == old(self).board.size,
            r is Ok ==> final(self).board_valid(),
    {
        let p0 = rand_pos(0, self.board.size);
        let p1 = rand_pos(0, self.board.size);
        let p2 = rand_pos(0, self.board.size);
        let p3 = rand_pos(0, self.board.size);
        self.init_pieces(p0, p1, p2, p3);
        let mut attempts: u64 = MAX_INIT_ATTEMPTS;
        while attempts > 0
            invariant
                self.wf(),
                self.fixed_codes(),
                self.board.size == old(self).board.size,
            decreases attempts,
        {
            if self.validate_board() {
                return Ok(());
            }
            self.place_piece(0, rand_pos(0, self.board.size));
            self.place_piece(1, rand_pos(0, self.board.size));
            self.place_piece(2, rand_pos(0, self.board.size));
            self.place_piece(3, rand_pos(0, self.board.size));
            attempts = attempts - 1;
        }
        Err(GridError::InvalidBoardLayout)
    }

    /// Builds a world of the given side (raised to at least 4) and layout
    /// mode: "static" is the deterministic layout, "player" draws the
    /// player's cell at random, anything else draws all four cells at
    /// random. The returned board is always playable; if a randomized mode
    /// exhausts its draws, the deterministic layout stands instead.
    pub fn new(size: i64, mode: String) -> (w: GridWorld)
        ensures
            w.wf(),
            w.board_valid(),
            w.fixed_codes(),
            w.board.size == if size < 4 { 4 } else { size },
            mode@ == "static"@ ==> w.is_static_layout(),
            mode@ == "player"@ ==> w.goal_pos().0 == 0 && w.goal_pos().1 == 0 && w.pit_pos().0 == 0
                && w.pit_pos().1 == 1 && w.wall_pos().0 == 1 && w.wall_pos().1 == 1,
    {
        let actual_size: i64 = if size < 4 {
            4
        } else {
            size
        };
        let mut world = GridWorld { board: GridBoard::new(actual_size) };
        if mode == String::from_str("static") {
            world.init_grid_static();
        } else if mode == String::from_str("player") {
            match world.init_grid_player() {
                Ok(()) => (),
                Err(_) => {
                    world.place_piece(0, (0, 3));
                    proof {
                        lemma_static_layout_valid(world);
                    }
                },
            }
        } else {
            match world.init_grid_rand() {
                Ok(()) => (),
                Err(_) => {
                    let mut fresh = GridWorld { board: GridBoard::new(actual_size) };
                    fresh.init_grid_static();
                    world = fresh;
                },
            }
        }
        world
    }


    /// The board drawn as text.
    pub fn display(&self) -> (out: String)
        ensures
            out@ == self.board.render_text(),
    {
        self.board.render()
    }

    /// The step reward: -10 on the pit, 10 on the goal, otherwise -1.
    pub open spec fn reward_spec(self) -> int {
        if self.player_pos() == self.pit_pos() {
            -10
        } else if self.player_pos() == self.goal_pos() {
            10
        } else {
            -1
        }
    }

    /// Reward of the present position.
    pub fn reward(&self) -> (r: i64)
        requires
            self.wf(),
        ensures
            r as int == self.reward_spec(),
    {
        let pit = self.board.components[2].pos;
        let goal = self.board.components[1].pos;
        let player = self.board.components[0].pos;
        if pit.0 == player.0 && pit.1 == player.1 {
            -10
        } else if goal.0 == player.0 && goal.1 == player.1 {
            10
        } else {
            -1
        }
    }
}

} // verus!
