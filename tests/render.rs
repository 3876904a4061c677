use chess_link::render::{render, Kind, Perspective, Piece, Position, Side};

fn start_position() -> Position<Piece> {
    let back = [
        Kind::Rook,
        Kind::Knight,
        Kind::Bishop,
        Kind::Queen,
        Kind::King,
        Kind::Bishop,
        Kind::Knight,
        Kind::Rook,
    ];
    let mut squares = vec![None; 64];
    for f in 0..8 {
        squares[f] = Some(Piece { side: Side::White, kind: back[f] });
        squares[8 + f] = Some(Piece { side: Side::White, kind: Kind::Pawn });
        squares[48 + f] = Some(Piece { side: Side::Black, kind: Kind::Pawn });
        squares[56 + f] = Some(Piece { side: Side::Black, kind: back[f] });
    }
    Position { squares }
}

#[test]
fn white_bottom_layout() {
    let p = render(&start_position(), Perspective::WhiteBottom);
    let files: String = p.files.iter().collect();
    assert_eq!(files, "ａｂｃｄｅｆｇｈ");
    let labels: String = p.rows.iter().map(|r| r.label).collect();
    assert_eq!(labels, "87654321");
    assert_eq!(p.rows.len(), 8);
    assert!(p.rows.iter().all(|r| r.cells.len() == 8));
    // a1: bottom left, white rook, dark square
    let a1 = p.rows[7].cells[0];
    assert_eq!(a1.piece, Some(Piece { side: Side::White, kind: Kind::Rook }));
    assert!(!a1.light);
    // h1: bottom right, light square
    assert!(p.rows[7].cells[7].light);
    // e8: top row, black king
    assert_eq!(p.rows[0].cells[4].piece, Some(Piece { side: Side::Black, kind: Kind::King }));
    // e4 is empty
    assert_eq!(p.rows[4].cells[4].piece, None);
}

#[test]
fn black_bottom_layout() {
    let p = render(&start_position(), Perspective::BlackBottom);
    let files: String = p.files.iter().collect();
    assert_eq!(files, "ｈｇｆｅｄｃｂａ");
    let labels: String = p.rows.iter().map(|r| r.label).collect();
    assert_eq!(labels, "12345678");
    // h1 drawn top left
    assert_eq!(p.rows[0].cells[0].piece, Some(Piece { side: Side::White, kind: Kind::Rook }));
    assert!(p.rows[0].cells[0].light);
    // a8 drawn bottom right, black rook, light square
    assert_eq!(p.rows[7].cells[7].piece, Some(Piece { side: Side::Black, kind: Kind::Rook }));
    assert!(p.rows[7].cells[7].light);
}

#[test]
fn perspectives_are_mirror_images() {
    let pos = start_position();
    let w = render(&pos, Perspective::WhiteBottom);
    let b = render(&pos, Perspective::BlackBottom);
    for r in 0..8 {
        assert_eq!(b.rows[r].label, w.rows[7 - r].label);
        assert_eq!(b.files[r], w.files[7 - r]);
        for c in 0..8 {
            assert_eq!(b.rows[r].cells[c], w.rows[7 - r].cells[7 - c]);
        }
    }
}

#[test]
fn rendering_twice_gives_the_same_grid() {
    let mut pos = start_position();
    pos.squares[12] = None;
    pos.squares[28] = Some(Piece { side: Side::White, kind: Kind::Pawn });
    for p in [Perspective::WhiteBottom, Perspective::BlackBottom] {
        assert_eq!(render(&pos, p), render(&pos, p));
    }
    let w = render(&pos, Perspective::WhiteBottom);
    assert_eq!(w.rows[4].cells[4].piece, Some(Piece { side: Side::White, kind: Kind::Pawn }));
    assert_eq!(w.rows[6].cells[4].piece, None);
}

#[test]
fn opposite_side() {
    assert_eq!(Side::White.opposite(), Side::Black);
    assert_eq!(Side::Black.opposite(), Side::White);
}

#[test]
fn board_after_e4_e5_shows_both_pawns_advanced() {
    let mut pos = start_position();
    pos.squares[12] = None;
    pos.squares[28] = Some(Piece { side: Side::White, kind: Kind::Pawn });
    pos.squares[52] = None;
    pos.squares[36] = Some(Piece { side: Side::Black, kind: Kind::Pawn });
    let w = render(&pos, Perspective::WhiteBottom);
    // row 4 is rank 4, row 3 is rank 5; column 4 is the e-file
    assert_eq!(w.rows[4].label, '4');
    assert_eq!(w.rows[4].cells[4].piece, Some(Piece { side: Side::White, kind: Kind::Pawn }));
    assert_eq!(w.rows[3].label, '5');
    assert_eq!(w.rows[3].cells[4].piece, Some(Piece { side: Side::Black, kind: Kind::Pawn }));
    assert_eq!(w.rows[6].cells[4].piece, None);
    assert_eq!(w.rows[1].cells[4].piece, None);
}
