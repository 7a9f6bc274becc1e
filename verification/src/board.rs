use vstd::prelude::*;

use crate::rng::rand_below;

verus! {

/// A named marker standing on one cell of a grid board.
#[derive(Debug)]
pub struct BoardPiece {
    pub name: String,
    pub code: String,
    pub pos: (i64, i64),
}

/// A square grid of side `size` holding named pieces. Every piece is meant
/// to stand inside `[0, size) x [0, size)`; `wf` states that invariant.
#[derive(Debug)]
pub struct GridBoard {
    pub size: i64,
    pub components: Vec<BoardPiece>,
}

/// The cell `pos` lies inside a board of side `size`.
pub open spec fn in_bounds(pos: (i64, i64), size: i64) -> bool {
    0 <= pos.0 < size && 0 <= pos.1 < size
}

/// Index of the first piece at or after `k` whose name reads `name`,
/// or the length of `s` when no such piece exists.
pub open spec fn find_from(s: Seq<BoardPiece>, name: Seq<char>, k: int) -> int
    decreases s.len() - k,
{
    if k < 0 || k >= s.len() {
        s.len() as int
    } else if s[k].name@ == name {
        k
    } else {
        find_from(s, name, k + 1)
    }
}

/// Index of the first piece named `name`, or the length of `s` when none is.
pub open spec fn find_piece(s: Seq<BoardPiece>, name: Seq<char>) -> int {
    find_from(s, name, 0)
}

/// Some piece of `s` is named `name`.
pub open spec fn has_piece(s: Seq<BoardPiece>, name: Seq<char>) -> bool {
    find_piece(s, name) < s.len()
}

/// `find_from` lands exactly on the first match: if nothing in `[k, i)`
/// matches and `i` is either a match or the end, the search from `k` gives `i`.
pub(crate) proof fn lemma_find_from_exact(s: Seq<BoardPiece>, name: Seq<char>, k: int, i: int)
    requires
        0 <= k <= i <= s.len(),
        forall|m: int| k <= m < i ==> s[m].name@ != name,
        i == s.len() || s[i].name@ == name,
    ensures
        find_from(s, name, k) == i,
    decreases i - k,
{
    if k < i {
        lemma_find_from_exact(s, name, k + 1, i);
    }
}

impl GridBoard {
    /// Every piece stands inside the board.
    pub open spec fn wf(self) -> bool {
        forall|i: int|
            0 <= i < self.components@.len() ==> in_bounds(
                #[trigger] self.components@[i].pos,
                self.size,
            )
    }

    /// An empty board of the given side.
    pub fn new(size: i64) -> (b: GridBoard)
        ensures
            b.size == size,
            b.components@.len() == 0,
            b.wf(),
    {
        GridBoard { size, components: Vec::new() }
    }

    /// Index of the first piece named `name`, or the number of pieces when
    /// none carries that name.
    pub fn find(&self, name: &String) -> (idx: usize)
        ensures
            idx as int == find_piece(self.components@, name@),
    {
        let n = self.components.len();
        let mut i: usize = 0;
        while i < n
            invariant
                n == self.components@.len(),
                0 <= i <= n,
                forall|m: int| 0 <= m < i ==> self.components@[m].name@ != name@,
            decreases n - i,
        {
            if self.components[i].name == *name {
                proof {
                    lemma_find_from_exact(self.components@, name@, 0, i as int);
                }
                return i;
            }
            i = i + 1;
        }
        proof {
            lemma_find_from_exact(self.components@, name@, 0, n as int);
        }
        n
    }

    /// Inserts the piece, or replaces the piece of the same name when one
    /// is already on the board.
    pub fn add_piece(&mut self, name: String, code: String, pos: (i64, i64))
        requires
            in_bounds(pos, old(self).size),
        ensures
            final(self).size == old(self).size,
            ({
                let k = find_piece(old(self).components@, name@);
                let piece = (BoardPiece { name: name, code: code, pos: pos });
                if k < old(self).components@.len() {
                    final(self).components@ == old(self).components@.update(k, piece)
                } else {
                    final(self).components@ == old(self).components@.push(piece)
                }
            }),
            old(self).wf() ==> final(self).wf(),
    {
        let k = self.find(&name);
        let piece = BoardPiece { name, code, pos };
        if k < self.components.len() {
            self.components[k] = piece;
        } else {
            self.components.push(piece);
        }
    }
}

/// Index of the first piece at or after `k` standing on cell `(r, c)`,
/// or the length of `s` when none does.
pub open spec fn find_at_from(s: Seq<BoardPiece>, r: int, c: int, k: int) -> int
    decreases s.len() - k,
{
    if k < 0 || k >= s.len() {
        s.len() as int
    } else if s[k].pos.0 == r && s[k].pos.1 == c {
        k
    } else {
        find_at_from(s, r, c, k + 1)
    }
}

/// Index of the first piece standing on cell `(r, c)`, or the length of `s`.
pub open spec fn find_at(s: Seq<BoardPiece>, r: int, c: int) -> int {
    find_at_from(s, r, c, 0)
}

/// `find_at_from` lands exactly on the first occupant of the cell.
proof fn lemma_find_at_exact(s: Seq<BoardPiece>, r: int, c: int, k: int, i: int)
    requires
        0 <= k <= i <= s.len(),
        forall|m: int| k <= m < i ==> !(s[m].pos.0 == r && s[m].pos.1 == c),
        i == s.len() || (s[i].pos.0 == r && s[i].pos.1 == c),
    ensures
        find_at_from(s, r, c, k) == i,
    decreases i - k,
{
    if k < i {
        lemma_find_at_exact(s, r, c, k + 1, i);
    }
}

impl GridBoard {
    /// Index of the first piece standing on cell `(r, c)`, or the number of
    /// pieces when the cell is empty.
    fn find_at_cell(&self, r: i64, c: i64) -> (idx: usize)
        ensures
            idx as int == find_at(self.components@, r as int, c as int),
    {
        let n = self.components.len();
        let mut i: usize = 0;
        while i < n
            invariant
                n == self.components@.len(),
                0 <= i <= n,
                forall|m: int|
                    0 <= m < i ==> !((#[trigger] self.components@[m].pos).0 == r
                        && self.components@[m].pos.1 == c),
            decreases n - i,
        {
            let p = self.components[i].pos;
            if p.0 == r && p.1 == c {
                proof {
                    lemma_find_at_exact(self.components@, r as int, c as int, 0, i as int);
                }
                return i;
            }
            i = i + 1;
        }
        proof {
            lemma_find_at_exact(self.components@, r as int, c as int, 0, n as int);
        }
        n
    }

    /// Text of one cell: the first occupant's code between spaces, or the
    /// filler for an empty cell.
    pub open spec fn cell_text(self, r: int, c: int) -> Seq<char> {
        let k = find_at(self.components@, r, c);
        if k < self.components@.len() {
            seq![' '] + self.components@[k].code@ + seq![' ']
        } else {
            seq![' ', '*', ' ']
        }
    }

    /// Text of the first `m` cells of row `r`.
    pub open spec fn row_text(self, r: int, m: int) -> Seq<char>
        decreases m,
    {
        if m <= 0 {
            Seq::empty()
        } else {
            self.row_text(r, m - 1) + self.cell_text(r, m - 1)
        }
    }

    /// Text of the first `n` rows, each closed by a newline.
    pub open spec fn rows_text(self, n: int) -> Seq<char>
        decreases n,
    {
        if n <= 0 {
            Seq::empty()
        } else {
            self.rows_text(n - 1) + self.row_text(n - 1, self.size as int) + seq!['\n']
        }
    }

    /// The whole rendering: every row, and one closing empty line.
    pub open spec fn render_text(self) -> Seq<char> {
        self.rows_text(self.size as int) + seq!['\n']
    }

    /// Draws the grid as text, one cell as the occupant's code between
    /// spaces (the first occupant, in piece order, when a cell is shared)
    /// or as the filler ` * `, one line per row, closed by an empty line.
    #[verifier::loop_isolation(false)]
    pub fn render(&self) -> (out: String)
        ensures
            out@ == self.render_text(),
    {
        let mut out = String::new();
        let mut i: i64 = 0;
        while i < self.size
            invariant
                0 <= i,
                i <= self.size || i == 0,
                out@ == self.rows_text(i as int),
            decreases self.size - i,
        {
            let mut j: i64 = 0;
            while j < self.size
                invariant
                    0 <= i < self.size,
                    0 <= j <= self.size,
                    out@ == self.rows_text(i as int) + self.row_text(i as int, j as int),
                decreases self.size - j,
            {
                let idx = self.find_at_cell(i, j);
                if idx < self.components.len() {
                    out.append(" ");
                    out.append(self.components[idx].code.as_str());
                    out.append(" ");
                } else {
                    out.append(" * ");
                }
                proof {
                    reveal_strlit(" ");
                    reveal_strlit(" * ");
                    assert(" "@ =~= seq![' ']);
                    assert(" * "@ =~= seq![' ', '*', ' ']);
                    assert(out@ =~= self.rows_text(i as int) + self.row_text(
                        i as int,
                        j as int + 1,
                    ));
                }
                j = j + 1;
            }
            out.append("\n");
            proof {
                reveal_strlit("\n");
                assert("\n"@ =~= seq!['\n']);
                assert(out@ =~= self.rows_text(i as int + 1));
            }
            i = i + 1;
        }
        out.append("\n");
        proof {
            reveal_strlit("\n");
            assert("\n"@ =~= seq!['\n']);
            assert(out@ =~= self.render_text());
        }
        out
    }

    /// Flattened index of the one-hot entry piece `i` switches on.
    pub open spec fn one_hot_index(self, i: int) -> int {
        i * (self.size * self.size) + self.components@[i].pos.0 * self.size
            + self.components@[i].pos.1
    }

    /// Flattens the board to one plane of `size * size` entries per piece,
    /// in piece order; within a plane exactly the entry of the piece's cell
    /// (row-major) is 1, every other entry is 0.
    #[verifier::loop_isolation(false)]
    pub fn render_array(&self) -> (r: Vec<i64>)
        requires
            self.wf(),
            self.size >= 0,
            self.size * self.size * self.components@.len() <= usize::MAX,
        ensures
            r@.len() == self.size * self.size * self.components@.len(),
            forall|j: int|
                0 <= j < r@.len() ==> r@[j] == (if (exists|i: int|
                    0 <= i < self.components@.len() && self.one_hot_index(i) == j) {
                    1i64
                } else {
                    0i64
                }),
    {
        let n = self.components.len();
        if n == 0 {
            let empty: Vec<i64> = Vec::new();
            proof {
                assert(self.size * self.size * self.components@.len() == 0) by (nonlinear_arith)
                    requires
                        self.components@.len() == 0,
                ;
            }
            return empty;
        }
        proof {
            assert(self.size <= self.size * self.size * self.components@.len()
                && self.size * self.size <= self.size * self.size * self.components@.len())
                by (nonlinear_arith)
                requires
                    self.size >= 0,
                    self.components@.len() >= 1,
            ;
        }
        let len = self.size as usize;
        assert(len as int == self.size as int);
        let frame = len * len;
        assert(frame as int == self.size * self.size);
        let total = frame * n;
        assert(total as int == self.size * self.size * self.components@.len()) by (nonlinear_arith)
            requires
                frame as int == self.size * self.size,
                total as int == frame as int * n as int,
                n as int == self.components@.len(),
        ;
        let mut r: Vec<i64> = Vec::new();
        while r.len() < total
            invariant
                r@.len() <= total,
                forall|j: int| 0 <= j < r@.len() ==> r@[j] == 0i64,
            decreases total - r@.len(),
        {
            r.push(0);
        }
        let mut k: usize = 0;
        while k < n
            invariant
                0 <= k <= n,
                r@.len() == total,
                forall|j: int|
                    0 <= j < total ==> r@[j] == (if (exists|i: int|
                        0 <= i < k && self.one_hot_index(i) == j) {
                        1i64
                    } else {
                        0i64
                    }),
            decreases n - k,
        {
            let pos = self.components[k].pos;
            assert(in_bounds(pos, self.size));
            assert(k * frame + frame <= total) by (nonlinear_arith)
                requires
                    k < n,
                    total == frame * n,
            ;
            let p0 = pos.0 as usize;
            let p1 = pos.1 as usize;
            assert(p0 as int == pos.0 as int && p1 as int == pos.1 as int);
            assert(p0 * len + p1 < frame) by (nonlinear_arith)
                requires
                    frame as int == (len as int) * (len as int),
                    0 <= (p0 as int) && (p0 as int) < (len as int),
                    0 <= (p1 as int) && (p1 as int) < (len as int),
            ;
            let idx = k * frame + p0 * len + p1;
            assert(idx as int == self.one_hot_index(k as int));
            r[idx] = 1;
            k = k + 1;
        }
        r
    }
}

/// Relies on nothing outside the library: both coordinates come from the
/// trusted uniform draw `rand_below`, so each lies in `[low, high)`.
pub fn rand_pos(low: i64, high: i64) -> (r: (i64, i64))
    requires
        low < high,
    ensures
        low <= r.0 < high,
        low <= r.1 < high,
{
    let span_wide: i128 = high as i128 - low as i128;
    let span: u64 = span_wide as u64;
    assert(span_wide == span as i128) by {
        assert(0 < span_wide <= u64::MAX as i128);
    };
    let d0 = rand_below(span);
    let d1 = rand_below(span);
    let r0: i64 = (low as i128 + d0 as i128) as i64;
    let r1: i64 = (low as i128 + d1 as i128) as i64;
    (r0, r1)
}

} // verus!
