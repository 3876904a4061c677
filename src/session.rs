//! The decisions of the three game loops. A loop runs outside the library:
//! it asks the session where the next move comes from, hands it the line or
//! frame that arrived, carries out the action it gets back, and reports the
//! rules engine's verdict. The host always plays white, the remote black.
//!
//! Forwarding policy: a move typed at a networked peer is sent to the other
//! peer only once the local rules engine has accepted it, so a rejected
//! move never reaches the other side. The receiver reads exactly four bytes
//! per move, so a longer token (one with a promotion suffix) cannot travel
//! in one frame: a known limit of the fixed-width protocol.
use vstd::prelude::*;
use vstd::string::*;
use crate::codec::{decode, decoded};
use crate::command::{
    command_of,
    is_quit_word,
    lemma_quit_words_stop,
    parse_command,
    skip_space,
    skip_word,
    trim_line,
    trimmed,
    Command,
    CommandView,
};
use crate::render::{Perspective, Side};

verus! {

#[derive(Clone, Copy, Debug, PartialEq, Eq, Structural)]
pub enum Mode {
    /// Both players at one keyboard.
    Local,
    /// The listening peer, which plays white.
    Host,
    /// The connecting peer, which plays black.
    Remote,
}

/// Where the next move comes from.
#[derive(Clone, Copy, Debug, PartialEq, Eq, Structural)]
pub enum Source {
    Keyboard,
    Wire,
}

pub open spec fn source_of(mode: Mode, to_move: Side) -> Source {
    match mode {
        Mode::Local => Source::Keyboard,
        Mode::Host => if to_move == Side::White {
            Source::Keyboard
        } else {
            Source::Wire
        },
        Mode::Remote => if to_move == Side::White {
            Source::Wire
        } else {
            Source::Keyboard
        },
    }
}

pub open spec fn perspective_of(mode: Mode) -> Perspective {
    match mode {
        Mode::Remote => Perspective::BlackBottom,
        _ => Perspective::WhiteBottom,
    }
}

/// What the loop is to do next.
#[derive(Clone, Debug, PartialEq, Eq)]
pub enum Action {
    /// Leave the loop.
    Stop,
    /// Save the game to the named file.
    Save(String),
    /// Load a game from the named file.
    Load(String),
    /// Hand the token to the rules engine.
    Apply(String),
    /// Nothing to do: draw the board again.
    Redraw,
}

pub enum ActionView {
    Stop,
    Save(Seq<char>),
    Load(Seq<char>),
    Apply(Seq<char>),
    Redraw,
}

impl View for Action {
    type V = ActionView;

    open spec fn view(&self) -> ActionView {
        match self {
            Action::Stop => ActionView::Stop,
            Action::Save(f) => ActionView::Save(f@),
            Action::Load(f) => ActionView::Load(f@),
            Action::Apply(t) => ActionView::Apply(t@),
            Action::Redraw => ActionView::Redraw,
        }
    }
}

/// The action for a line typed in `mode`: a local line is a command, a
/// networked one is a move token once trimmed.
pub open spec fn line_action(mode: Mode, s: Seq<char>) -> ActionView {
    if mode == Mode::Local {
        match command_of(s) {
            CommandView::Quit => ActionView::Stop,
            CommandView::Save(f) => ActionView::Save(f),
            CommandView::Load(f) => ActionView::Load(f),
            CommandView::Play(t) => ActionView::Apply(t),
            CommandView::Blank => ActionView::Redraw,
        }
    } else {
        ActionView::Apply(trimmed(s))
    }
}

/// The state that one loop keeps between moves.
#[derive(Clone, Debug, PartialEq, Eq)]
pub struct Session {
    pub mode: Mode,
    pub to_move: Side,
    /// What went wrong with the last attempt, shown above the next board.
    pub pending: Option<String>,
}

pub struct SessionView {
    pub mode: Mode,
    pub to_move: Side,
    pub pending: Option<Seq<char>>,
}

impl View for Session {
    type V = SessionView;

    open spec fn view(&self) -> SessionView {
        SessionView {
            mode: self.mode,
            to_move: self.to_move,
            pending: match self.pending {
                Some(e) => Some(e@),
                None => None,
            },
        }
    }
}

/// The session of a fresh game: white to move, nothing pending.
pub open spec fn fresh(mode: Mode) -> SessionView {
    SessionView { mode, to_move: Side::White, pending: None }
}

pub open spec fn outcome_view(o: Result<(), String>) -> Result<(), Seq<char>> {
    match o {
        Ok(()) => Ok(()),
        Err(e) => Err(e@),
    }
}

/// The message kept for a failure: the engine's own, or a fixed one when
/// the engine gave none.
pub open spec fn error_text(e: Seq<char>) -> Seq<char> {
    if e.len() == 0 {
        "move rejected"@
    } else {
        e
    }
}

/// The session after the rules engine accepted or rejected a move: an
/// accepted move passes the turn and clears the pending error; a rejected
/// one keeps the turn and becomes the pending error.
pub open spec fn after_move(s: SessionView, outcome: Result<(), Seq<char>>) -> SessionView {
    match outcome {
        Ok(()) => SessionView { mode: s.mode, to_move: s.to_move.other(), pending: None },
        Err(e) => SessionView { mode: s.mode, to_move: s.to_move, pending: Some(error_text(e)) },
    }
}

/// What is sent to the other peer after a move: the token itself, when it
/// was typed at a networked peer and the engine accepted it.
pub open spec fn forwarded(
    mode: Mode,
    source: Source,
    token: Seq<char>,
    outcome: Result<(), Seq<char>>,
) -> Option<Seq<char>> {
    if mode != Mode::Local && source == Source::Keyboard && outcome is Ok {
        Some(token)
    } else {
        None
    }
}

/// The session after a sequence of verdicts, oldest first.
pub open spec fn replay(s: SessionView, outcomes: Seq<Result<(), Seq<char>>>) -> SessionView
    decreases outcomes.len(),
{
    if outcomes.len() == 0 {
        s
    } else {
        after_move(replay(s, outcomes.drop_last()), outcomes.last())
    }
}

fn message_of(e: String) -> (r: String)
    ensures
        r@ == error_text(e@),
{
    if e.as_str().unicode_len() == 0 {
        "move rejected".to_owned()
    } else {
        e
    }
}

impl Session {
    /// A fresh game in `mode`.
    pub fn new(mode: Mode) -> (r: Session)
        ensures
            r@ == fresh(mode),
    {
        Session { mode, to_move: Side::White, pending: None }
    }

    /// The side drawn at the bottom: white but at the remote peer.
    pub fn perspective(&self) -> (r: Perspective)
        ensures
            r == perspective_of(self.mode),
    {
        match self.mode {
            Mode::Remote => Perspective::BlackBottom,
            _ => Perspective::WhiteBottom,
        }
    }

    /// Where the next move comes from: the keyboard when the side to move is
    /// this peer's own (always, locally), the wire otherwise.
    pub fn source(&self) -> (r: Source)
        ensures
            r == source_of(self.mode, self.to_move),
    {
        match self.mode {
            Mode::Local => Source::Keyboard,
            Mode::Host => match self.to_move {
                Side::White => Source::Keyboard,
                Side::Black => Source::Wire,
            },
            Mode::Remote => match self.to_move {
                Side::White => Source::Wire,
                Side::Black => Source::Keyboard,
            },
        }
    }

    /// The action for a line typed at this peer.
    pub fn on_line(&self, line: &str) -> (r: Action)
        ensures
            r@ == line_action(self.mode, line@),
    {
        match self.mode {
            Mode::Local => match parse_command(line) {
                Command::Quit => Action::Stop,
                Command::Save(f) => Action::Save(f),
                Command::Load(f) => Action::Load(f),
                Command::Play(t) => Action::Apply(t),
                Command::Blank => Action::Redraw,
            },
            _ => Action::Apply(trim_line(line)),
        }
    }

    /// The action for a frame received from the other peer: apply its token.
    pub fn on_frame(&self, frame: &[u8; 4]) -> (r: Action)
        ensures
            r@ == ActionView::Apply(decoded(frame@)),
    {
        Action::Apply(decode(frame))
    }

    /// Records the engine's verdict on `token`, which came from `source`, and
    /// returns what to send to the other peer, if anything.
    pub fn record_move(&mut self, source: Source, token: &str, outcome: Result<(), String>) -> (r:
        Option<String>)
        ensures
            final(self)@ == after_move(old(self)@, outcome_view(outcome)),
            r matches Some(t) ==> forwarded(old(self).mode, source, token@, outcome_view(outcome))
                == Some(t@),
            r is None ==> forwarded(old(self).mode, source, token@, outcome_view(outcome))
                is None,
    {
        match outcome {
            Ok(()) => {
                self.to_move = self.to_move.opposite();
                self.pending = None;
                if self.mode != Mode::Local && source == Source::Keyboard {
                    Some(token.to_owned())
                } else {
                    None
                }
            },
            Err(e) => {
                self.pending = Some(message_of(e));
                None
            },
        }
    }

    /// Records the outcome of saving the game: a failure becomes the pending
    /// error; success changes nothing.
    pub fn record_save(&mut self, outcome: Result<(), String>)
        ensures
            final(self).mode == old(self).mode,
            final(self).to_move == old(self).to_move,
            outcome matches Err(e) ==> final(self)@.pending == Some(error_text(e@)),
            outcome is Ok ==> final(self)@ == old(self)@,
    {
        if let Err(e) = outcome {
            self.pending = Some(message_of(e));
        }
    }

    /// Records the outcome of loading a game, with the side to move in the
    /// loaded game on success: the turn follows the loaded game and the
    /// pending error stays as it was. A failure becomes the pending error.
    pub fn record_load(&mut self, outcome: Result<Side, String>)
        ensures
            final(self).mode == old(self).mode,
            outcome matches Ok(side) ==> final(self).to_move == side && final(self)@.pending
                == old(self)@.pending,
            outcome matches Err(e) ==> final(self).to_move == old(self).to_move
                && final(self)@.pending == Some(error_text(e@)),
    {
        match outcome {
            Ok(side) => {
                self.to_move = side;
            },
            Err(e) => {
                self.pending = Some(message_of(e));
            },
        }
    }
}

/// In the local loop a line whose first word is "q", "quit" or "exit" stops
/// the loop, whatever the state of the session: no move is applied.
pub proof fn lemma_local_quit(s: SessionView, line: Seq<char>)
    requires
        s.mode == Mode::Local,
        is_quit_word(line.subrange(skip_space(line, 0), skip_word(line, skip_space(line, 0)))),
    ensures
        line_action(s.mode, line) == ActionView::Stop,
{
    lemma_quit_words_stop(line);
}

/// A rejected move keeps the turn and leaves a non-empty pending error; the
/// next accepted move clears it.
pub proof fn lemma_rejection_then_correction(s: SessionView, e: Seq<char>)
    ensures
        after_move(s, Err(e)).to_move == s.to_move,
        after_move(s, Err(e)).pending matches Some(m) && m.len() > 0,
        after_move(after_move(s, Err(e)), Ok(())).pending is None,
        after_move(after_move(s, Err(e)), Ok(())).to_move == s.to_move.other(),
{
    reveal_strlit("move rejected");
}

/// Host and remote that see the same verdicts in the same order stay in
/// step: the same side to move and the same pending error, and at every
/// point exactly one of them reads the move from its keyboard while the
/// other waits on the wire.
pub proof fn lemma_peers_in_step(outcomes: Seq<Result<(), Seq<char>>>)
    ensures
        replay(fresh(Mode::Host), outcomes).to_move == replay(fresh(Mode::Remote), outcomes).to_move,
        replay(fresh(Mode::Host), outcomes).pending == replay(fresh(Mode::Remote), outcomes).pending,
        (source_of(Mode::Host, replay(fresh(Mode::Host), outcomes).to_move) == Source::Keyboard)
            <==> (source_of(Mode::Remote, replay(fresh(Mode::Remote), outcomes).to_move)
            == Source::Wire),
    decreases outcomes.len(),
{
    if outcomes.len() > 0 {
        lemma_peers_in_step(outcomes.drop_last());
    }
}

/// After a run of accepted moves white is to move exactly when their number
/// is even, and nothing is pending once there was at least one.
pub proof fn lemma_accepted_moves_alternate(s: SessionView, n: nat)
    requires
        s.to_move == Side::White,
    ensures
        replay(s, Seq::new(n, |i: int| Ok(()))).to_move == (if n % 2 == 0 {
            Side::White
        } else {
            Side::Black
        }),
        n > 0 ==> replay(s, Seq::new(n, |i: int| Ok(()))).pending is None,
    decreases n,
{
    if n > 0 {
        let all: Seq<Result<(), Seq<char>>> = Seq::new(n, |i: int| Ok(()));
        assert(all.drop_last() =~= Seq::new((n - 1) as nat, |i: int| Ok(())));
        lemma_accepted_moves_alternate(s, (n - 1) as nat);
    }
}

} // verus!
