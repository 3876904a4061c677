//! Fixed-width wire encoding of one move: origin file, origin rank,
//! destination file, destination rank, one ASCII byte each ("e2e4").
//! Both peers must agree that every frame is exactly four bytes long: the
//! stream carries no delimiter, length prefix or escaping.
use vstd::prelude::*;

verus! {

/// One square of the 8x8 grid: `file` 0..8 stands for 'a'..'h',
/// `rank` 0..8 for '1'..'8'.
#[derive(Clone, Copy, Debug, PartialEq, Eq, Structural)]
pub struct Square {
    pub file: u8,
    pub rank: u8,
}

impl Square {
    pub open spec fn wf(&self) -> bool {
        self.file < 8 && self.rank < 8
    }
}

pub open spec fn file_byte(file: u8) -> u8 {
    (97 + file) as u8
}

pub open spec fn rank_byte(rank: u8) -> u8 {
    (49 + rank) as u8
}

/// The four bytes of the move from `origin` to `destination`.
pub open spec fn token_bytes(origin: Square, destination: Square) -> Seq<u8> {
    seq![
        file_byte(origin.file),
        rank_byte(origin.rank),
        file_byte(destination.file),
        rank_byte(destination.rank),
    ]
}

/// The text of the move from `origin` to `destination`.
pub open spec fn token_text(origin: Square, destination: Square) -> Seq<char> {
    token_bytes(origin, destination).map_values(|b: u8| b as char)
}

/// Bytes that a fixed-size read leaves at the end of a short token:
/// ASCII whitespace and control bytes.
pub open spec fn is_filler(b: u8) -> bool {
    b <= 32 || b == 127
}

/// Length of `b` once trailing filler bytes are dropped.
pub open spec fn trimmed_len(b: Seq<u8>) -> nat
    decreases b.len(),
{
    if b.len() == 0 {
        0
    } else if is_filler(b.last()) {
        trimmed_len(b.drop_last())
    } else {
        b.len()
    }
}

pub open spec fn all_ascii(b: Seq<u8>) -> bool {
    forall|i: int| 0 <= i < b.len() ==> #[trigger] b[i] < 128
}

/// The text of `b` read as UTF-8, each invalid sequence standing as U+FFFD.
pub uninterp spec fn utf8_lossy(b: Seq<u8>) -> Seq<char>;

/// The token text carried by a received frame: the frame without its
/// trailing filler bytes, read as UTF-8 with invalid sequences replaced.
/// ASCII bytes read as themselves, one character each.
pub open spec fn decoded(b: Seq<u8>) -> Seq<char> {
    let t = b.take(trimmed_len(b) as int);
    if all_ascii(t) {
        t.map_values(|x: u8| x as char)
    } else {
        utf8_lossy(t)
    }
}

pub open spec fn file_of_char(c: char) -> Option<u8> {
    if 'a' <= c && c <= 'h' {
        Some((c as u32 - 97) as u8)
    } else {
        None
    }
}

pub open spec fn rank_of_char(c: char) -> Option<u8> {
    if '1' <= c && c <= '8' {
        Some((c as u32 - 49) as u8)
    } else {
        None
    }
}

/// The square named by a file letter and a rank digit, if both are on the board.
pub open spec fn square_of(f: char, r: char) -> Option<Square> {
    match (file_of_char(f), rank_of_char(r)) {
        (Some(file), Some(rank)) => Some(Square { file, rank }),
        _ => None,
    }
}

/// The (origin, destination) pair that a four-character token names.
pub open spec fn squares_of(t: Seq<char>) -> Option<(Square, Square)> {
    if t.len() != 4 {
        None
    } else {
        match (square_of(t[0], t[1]), square_of(t[2], t[3])) {
            (Some(o), Some(d)) => Some((o, d)),
            _ => None,
        }
    }
}

/// Relies on `String::from_utf8_lossy`: the bytes read as UTF-8, each
/// invalid sequence replaced by U+FFFD; valid UTF-8, such as ASCII, is kept
/// as it is.
#[verifier::external_body]
fn lossy(b: &[u8]) -> (r: String)
    ensures
        r@ == utf8_lossy(b@),
        all_ascii(b@) ==> r@ == b@.map_values(|x: u8| x as char),
{
    String::from_utf8_lossy(b).into_owned()
}

/// Encodes the move from `origin` to `destination` as one four-byte frame.
pub fn encode(origin: Square, destination: Square) -> (r: [u8; 4])
    requires
        origin.wf(),
        destination.wf(),
    ensures
        r@ == token_bytes(origin, destination),
{
    let r = [97 + origin.file, 49 + origin.rank, 97 + destination.file, 49 + destination.rank];
    assert(r@ =~= token_bytes(origin, destination));
    r
}

/// Decodes one received frame into token text: the trailing whitespace and
/// control bytes that a short token leaves are dropped, and the rest is read
/// as UTF-8, each invalid sequence standing as U+FFFD. Never fails:
/// a malformed token is for the rules engine to reject.
pub fn decode(frame: &[u8; 4]) -> (r: String)
    ensures
        r@ == decoded(frame@),
{
    let mut n: usize = 4;
    assert(frame@.take(4) =~= frame@);
    while n > 0 && (frame[n - 1] <= 32 || frame[n - 1] == 127)
        invariant
            n <= 4,
            trimmed_len(frame@) == trimmed_len(frame@.take(n as int)),
        decreases n,
    {
        proof {
            let t = frame@.take(n as int);
            assert(t.drop_last() =~= frame@.take(n - 1));
        }
        n = n - 1;
    }
    proof {
        let t = frame@.take(n as int);
        if n > 0 {
            assert(!is_filler(t.last()));
        }
        assert(trimmed_len(t) == n);
    }
    let mut kept: Vec<u8> = Vec::new();
    let mut i: usize = 0;
    while i < n
        invariant
            i <= n <= 4,
            kept@ =~= frame@.take(i as int),
        decreases n - i,
    {
        kept.push(frame[i]);
        i = i + 1;
        assert(kept@ =~= frame@.take(i as int));
    }
    lossy(kept.as_slice())
}

/// The square named by `f` and `r`, or `None` when either is off the board.
pub fn parse_square(f: char, r: char) -> (s: Option<Square>)
    ensures
        s == square_of(f, r),
{
    if 'a' <= f && f <= 'h' && '1' <= r && r <= '8' {
        Some(Square { file: (f as u32 - 97) as u8, rank: (r as u32 - 49) as u8 })
    } else {
        None
    }
}

/// The (origin, destination) pair that `t` names, or `None` when `t` is not
/// four characters naming two squares.
pub fn parse_token(t: &str) -> (r: Option<(Square, Square)>)
    ensures
        r == squares_of(t@),
{
    if t.unicode_len() != 4 {
        return None;
    }
    let o = parse_square(t.get_char(0), t.get_char(1));
    let d = parse_square(t.get_char(2), t.get_char(3));
    match (o, d) {
        (Some(o), Some(d)) => Some((o, d)),
        _ => None,
    }
}

/// Encoding a move and decoding the frame gives back the move's text, and
/// that text names the same two squares, for every pair of squares.
pub proof fn lemma_round_trip(origin: Square, destination: Square)
    requires
        origin.wf(),
        destination.wf(),
    ensures
        decoded(token_bytes(origin, destination)) == token_text(origin, destination),
        squares_of(token_text(origin, destination)) == Some((origin, destination)),
{
    let b = token_bytes(origin, destination);
    assert(!is_filler(b.last()));
    assert(b.take(4) =~= b);
    assert(all_ascii(b));
    assert(decoded(b) =~= token_text(origin, destination));
}

} // verus!
