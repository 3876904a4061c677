//! The board projections: the position as an 8x8 grid seen with white at the
//! bottom or with black at the bottom, with file and rank labels and
//! alternating square shading. Styling and printing are left to the caller.
use vstd::prelude::*;

verus! {

#[derive(Clone, Copy, Debug, PartialEq, Eq, Structural)]
pub enum Side {
    White,
    Black,
}

impl Side {
    pub open spec fn other(self) -> Side {
        match self {
            Side::White => Side::Black,
            Side::Black => Side::White,
        }
    }

    /// The side that moves after this one.
    pub fn opposite(self) -> (r: Side)
        ensures
            r == self.other(),
    {
        match self {
            Side::White => Side::Black,
            Side::Black => Side::White,
        }
    }
}

#[derive(Clone, Copy, Debug, PartialEq, Eq, Structural)]
pub enum Kind {
    Pawn,
    Knight,
    Bishop,
    Rook,
    Queen,
    King,
}

#[derive(Clone, Copy, Debug, PartialEq, Eq, Structural)]
pub struct Piece {
    pub side: Side,
    pub kind: Kind,
}

#[derive(Clone, Copy, Debug, PartialEq, Eq, Structural)]
pub enum Perspective {
    WhiteBottom,
    BlackBottom,
}

/// Board occupancy as the rules engine reports it: square (file, rank), both
/// counted from 0, is entry `rank * 8 + file`. `P` is whatever stands for a
/// piece: a `Piece`, or the glyph that the engine prints for it.
#[derive(Clone, Debug, PartialEq, Eq)]
pub struct Position<P> {
    pub squares: Vec<Option<P>>,
}

impl<P> Position<P> {
    pub open spec fn wf(&self) -> bool {
        self.squares@.len() == 64
    }

    pub open spec fn at(&self, file: int, rank: int) -> Option<P> {
        self.squares@[rank * 8 + file]
    }
}

/// One drawn square: the piece on it, if any, and whether it is shaded light.
#[derive(Clone, Copy, Debug, PartialEq, Eq)]
pub struct Cell<P> {
    pub piece: Option<P>,
    pub light: bool,
}

/// One drawn row: the rank digit shown at both ends, and eight cells from
/// left to right.
#[derive(Clone, Debug, PartialEq, Eq)]
pub struct Row<P> {
    pub label: char,
    pub cells: Vec<Cell<P>>,
}

/// The whole grid: the file letters shown above and below, and eight rows
/// from top to bottom.
#[derive(Clone, Debug, PartialEq, Eq)]
pub struct Projection<P> {
    pub files: Vec<char>,
    pub rows: Vec<Row<P>>,
}

pub struct ProjectionView<P> {
    pub files: Seq<char>,
    pub labels: Seq<char>,
    pub cells: Seq<Seq<Cell<P>>>,
}

impl<P> View for Projection<P> {
    type V = ProjectionView<P>;

    open spec fn view(&self) -> ProjectionView<P> {
        ProjectionView {
            files: self.files@,
            labels: Seq::new(self.rows@.len(), |i: int| self.rows@[i].label),
            cells: Seq::new(self.rows@.len(), |i: int| self.rows@[i].cells@),
        }
    }
}

/// The fullwidth letters 'ａ'..'ｈ' that label files 0..8.
pub open spec fn file_letters() -> Seq<char> {
    seq![
        '\u{ff41}', '\u{ff42}', '\u{ff43}', '\u{ff44}', '\u{ff45}', '\u{ff46}', '\u{ff47}',
        '\u{ff48}',
    ]
}

/// The digits '1'..'8' that label ranks 0..8.
pub open spec fn rank_digits() -> Seq<char> {
    seq!['1', '2', '3', '4', '5', '6', '7', '8']
}

/// The rank drawn in row `row` (0 is the top row).
pub open spec fn rank_in_row(p: Perspective, row: int) -> int {
    match p {
        Perspective::WhiteBottom => 7 - row,
        Perspective::BlackBottom => row,
    }
}

/// The file drawn in column `col` (0 is the leftmost column).
pub open spec fn file_in_col(p: Perspective, col: int) -> int {
    match p {
        Perspective::WhiteBottom => col,
        Perspective::BlackBottom => 7 - col,
    }
}

/// Shading by the parity of file and rank: a1 is dark, h1 light.
pub open spec fn is_light(file: int, rank: int) -> bool {
    (file + rank + 1) % 2 == 0
}

pub open spec fn cell_of<P>(pos: Seq<Option<P>>, p: Perspective, row: int, col: int) -> Cell<P> {
    let file = file_in_col(p, col);
    let rank = rank_in_row(p, row);
    Cell { piece: pos[rank * 8 + file], light: is_light(file, rank) }
}

/// The projection of `pos` from perspective `p`.
pub open spec fn projection_of<P>(pos: Seq<Option<P>>, p: Perspective) -> ProjectionView<P> {
    ProjectionView {
        files: Seq::new(8, |c: int| file_letters()[file_in_col(p, c)]),
        labels: Seq::new(8, |r: int| rank_digits()[rank_in_row(p, r)]),
        cells: Seq::new(8, |r: int| Seq::new(8, |c: int| cell_of(pos, p, r, c))),
    }
}

fn file_letter(file: usize) -> (c: char)
    requires
        file < 8,
    ensures
        c == file_letters()[file as int],
{
    match file {
        0 => '\u{ff41}',
        1 => '\u{ff42}',
        2 => '\u{ff43}',
        3 => '\u{ff44}',
        4 => '\u{ff45}',
        5 => '\u{ff46}',
        6 => '\u{ff47}',
        _ => '\u{ff48}',
    }
}

fn rank_digit(rank: usize) -> (c: char)
    requires
        rank < 8,
    ensures
        c == rank_digits()[rank as int],
{
    match rank {
        0 => '1',
        1 => '2',
        2 => '3',
        3 => '4',
        4 => '5',
        5 => '6',
        6 => '7',
        _ => '8',
    }
}

fn rank_of_row(p: Perspective, row: usize) -> (r: usize)
    requires
        row < 8,
    ensures
        r == rank_in_row(p, row as int),
{
    match p {
        Perspective::WhiteBottom => 7 - row,
        Perspective::BlackBottom => row,
    }
}

fn file_of_col(p: Perspective, col: usize) -> (f: usize)
    requires
        col < 8,
    ensures
        f == file_in_col(p, col as int),
{
    match p {
        Perspective::WhiteBottom => col,
        Perspective::BlackBottom => 7 - col,
    }
}

/// Draws `pos` from perspective `p`. The result depends on the two alone.
pub fn render<P: Copy>(pos: &Position<P>, p: Perspective) -> (r: Projection<P>)
    requires
        pos.wf(),
    ensures
        r@ == projection_of(pos.squares@, p),
{
    let mut files: Vec<char> = Vec::new();
    let mut c: usize = 0;
    while c < 8
        invariant
            c <= 8,
            files@ =~= Seq::new(c as nat, |k: int| file_letters()[file_in_col(p, k)]),
        decreases 8 - c,
    {
        files.push(file_letter(file_of_col(p, c)));
        c = c + 1;
    }
    let mut rows: Vec<Row<P>> = Vec::new();
    let mut row: usize = 0;
    while row < 8
        invariant
            row <= 8,
            pos.wf(),
            rows@.len() == row,
            forall|k: int|
                0 <= k < row ==> #[trigger] rows@[k].label == rank_digits()[rank_in_row(p, k)],
            forall|k: int|
                0 <= k < row ==> #[trigger] rows@[k].cells@ =~= Seq::new(
                    8,
                    |j: int| cell_of(pos.squares@, p, k, j),
                ),
        decreases 8 - row,
    {
        let rank = rank_of_row(p, row);
        let mut cells: Vec<Cell<P>> = Vec::new();
        let mut col: usize = 0;
        while col < 8
            invariant
                col <= 8,
                row < 8,
                rank == rank_in_row(p, row as int),
                pos.wf(),
                cells@ =~= Seq::new(col as nat, |j: int| cell_of(pos.squares@, p, row as int, j)),
            decreases 8 - col,
        {
            let file = file_of_col(p, col);
            let piece = pos.squares[rank * 8 + file];
            cells.push(Cell { piece, light: (file + rank + 1) % 2 == 0 });
            col = col + 1;
        }
        rows.push(Row { label: rank_digit(rank), cells });
        row = row + 1;
    }
    let r = Projection { files, rows };
    assert(r@.labels =~= projection_of(pos.squares@, p).labels);
    assert(r@.cells =~= projection_of(pos.squares@, p).cells);
    r
}

/// Rendering is a pure function of the position and the perspective: any two
/// results of `render` on the same arguments are equal.
pub proof fn lemma_render_deterministic<P>(
    pos: Seq<Option<P>>,
    p: Perspective,
    a: ProjectionView<P>,
    b: ProjectionView<P>,
)
    requires
        a == projection_of(pos, p),
        b == projection_of(pos, p),
    ensures
        a == b,
{
}

/// The two perspectives are mirror images: the black-bottom view shows in row
/// `r`, column `c` what the white-bottom view shows in row `7 - r`, column
/// `7 - c`, and its labels run in reverse.
pub proof fn lemma_perspectives_mirror<P>(pos: Seq<Option<P>>, r: int, c: int)
    requires
        0 <= r < 8,
        0 <= c < 8,
    ensures
        projection_of(pos, Perspective::BlackBottom).cells[r][c] == projection_of(
            pos,
            Perspective::WhiteBottom,
        ).cells[7 - r][7 - c],
        projection_of(pos, Perspective::BlackBottom).files[c] == projection_of(
            pos,
            Perspective::WhiteBottom,
        ).files[7 - c],
        projection_of(pos, Perspective::BlackBottom).labels[r] == projection_of(
            pos,
            Perspective::WhiteBottom,
        ).labels[7 - r],
{
}

} // verus!
