//! Counting cells.

use crate::position::Position;
use crate::settings::Settings;
use vstd::prelude::*;

verus! {

/// The rank of a cell when the board is read row by row.
pub open spec fn rank(p: Position, cfg: Settings) -> int {
    p.1 * cfg.columns + p.0
}

proof fn lemma_rank_bounds(p: Position, cfg: Settings)
    requires
        p.within(cfg.columns as int, cfg.rows as int),
    ensures
        0 <= rank(p, cfg) < cfg.cells(),
{
    let c = cfg.columns as int;
    let r = cfg.rows as int;
    let x = p.0 as int;
    let y = p.1 as int;
    assert(0 <= y * c + x < r * c) by (nonlinear_arith)
        requires
            0 <= x < c,
            0 <= y < r,
    ;
    assert(r * c == c * r) by (nonlinear_arith);
}

proof fn lemma_rank_injective(p: Position, q: Position, cfg: Settings)
    requires
        p.within(cfg.columns as int, cfg.rows as int),
        q.within(cfg.columns as int, cfg.rows as int),
        rank(p, cfg) == rank(q, cfg),
    ensures
        p == q,
{
    let c = cfg.columns as int;
    let (x1, y1, x2, y2) = (p.0 as int, p.1 as int, q.0 as int, q.1 as int);
    assert(y1 == y2) by (nonlinear_arith)
        requires
            0 <= x1 < c,
            0 <= x2 < c,
            y1 * c + x1 == y2 * c + x2,
    ;
}

/// Distinct cells of the board are no more than the board has cells.
pub proof fn distinct_cells_fit_board(cells: Seq<Position>, cfg: Settings)
    requires
        cells.no_duplicates(),
        forall|i: int| 0 <= i < cells.len() ==> cells[i].within(
            cfg.columns as int,
            cfg.rows as int,
        ),
    ensures
        cells.len() <= cfg.cells(),
{
    let ranks = Seq::new(cells.len(), |i: int| rank(cells[i], cfg));
    assert forall|i: int, j: int|
        0 <= i < ranks.len() && 0 <= j < ranks.len() && i != j implies ranks[i] != ranks[j] by {
        if ranks[i] == ranks[j] {
            lemma_rank_injective(cells[i], cells[j], cfg);
        }
    }
    ranks.unique_seq_to_set();
    assert(cfg.cells() >= 0) by (nonlinear_arith)
        requires
            cfg.cells() == cfg.columns * cfg.rows,
            cfg.columns >= 0,
            cfg.rows >= 0,
    ;
    vstd::set_lib::lemma_int_range(0, cfg.cells());
    assert forall|a: int| ranks.to_set().contains(a) implies vstd::set_lib::set_int_range(
        0,
        cfg.cells(),
    ).contains(a) by {
        let i = choose|i: int| 0 <= i < ranks.len() && ranks[i] == a;
        lemma_rank_bounds(cells[i], cfg);
    }
    vstd::set_lib::lemma_len_subset(
        ranks.to_set(),
        vstd::set_lib::set_int_range(0, cfg.cells()),
    );
}

} // verus!
