//! Reading one line typed by a player: the words it holds, the commands of
//! the local loop, and the trimmed move token of the networked loops.
use vstd::prelude::*;
use vstd::string::*;

verus! {

/// Unicode `White_Space`.
pub open spec fn is_space(c: char) -> bool {
    let u = c as u32;
    (9 <= u && u <= 13) || u == 32 || u == 0x85 || u == 0xa0 || u == 0x1680 || (0x2000 <= u && u
        <= 0x200a) || u == 0x2028 || u == 0x2029 || u == 0x202f || u == 0x205f || u == 0x3000
}

/// The first index at or after `i` that holds no whitespace (or the length).
pub open spec fn skip_space(s: Seq<char>, i: int) -> int
    decreases s.len() - i,
{
    if i >= s.len() {
        s.len() as int
    } else if is_space(s[i]) {
        skip_space(s, i + 1)
    } else {
        i
    }
}

/// The first index at or after `i` that holds whitespace (or the length).
pub open spec fn skip_word(s: Seq<char>, i: int) -> int
    decreases s.len() - i,
{
    if i >= s.len() {
        s.len() as int
    } else if !is_space(s[i]) {
        skip_word(s, i + 1)
    } else {
        i
    }
}

/// The index just past the last non-whitespace character before `j` (or 0).
pub open spec fn content_end(s: Seq<char>, j: int) -> int
    decreases j,
{
    if j <= 0 {
        0
    } else if is_space(s[j - 1]) {
        content_end(s, j - 1)
    } else {
        j
    }
}

/// `s` without leading and trailing whitespace.
pub open spec fn trimmed(s: Seq<char>) -> Seq<char> {
    let b = skip_space(s, 0);
    let e = content_end(s, s.len() as int);
    if b < e {
        s.subrange(b, e)
    } else {
        Seq::empty()
    }
}

/// The file that save and load use when the line names none.
pub open spec fn default_file() -> Seq<char> {
    "game.txt"@
}

#[derive(Clone, Debug, PartialEq, Eq)]
pub enum Command {
    /// Leave the loop.
    Quit,
    /// Save the game to the named file.
    Save(String),
    /// Load a game from the named file.
    Load(String),
    /// Try the word as a move token.
    Play(String),
    /// Nothing was typed.
    Blank,
}

pub enum CommandView {
    Quit,
    Save(Seq<char>),
    Load(Seq<char>),
    Play(Seq<char>),
    Blank,
}

impl View for Command {
    type V = CommandView;

    open spec fn view(&self) -> CommandView {
        match self {
            Command::Quit => CommandView::Quit,
            Command::Save(f) => CommandView::Save(f@),
            Command::Load(f) => CommandView::Load(f@),
            Command::Play(t) => CommandView::Play(t@),
            Command::Blank => CommandView::Blank,
        }
    }
}

pub open spec fn is_quit_word(w: Seq<char>) -> bool {
    w == "q"@ || w == "quit"@ || w == "exit"@
}

/// The command of a line: its first word decides, its second word, if any,
/// names the file of save and load.
pub open spec fn command_of(s: Seq<char>) -> CommandView {
    let b0 = skip_space(s, 0);
    let e0 = skip_word(s, b0);
    let w0 = s.subrange(b0, e0);
    let b1 = skip_space(s, e0);
    let e1 = skip_word(s, b1);
    let file = if b1 < e1 {
        s.subrange(b1, e1)
    } else {
        default_file()
    };
    if b0 >= e0 {
        CommandView::Blank
    } else if is_quit_word(w0) {
        CommandView::Quit
    } else if w0 == "save"@ {
        CommandView::Save(file)
    } else if w0 == "load"@ {
        CommandView::Load(file)
    } else {
        CommandView::Play(w0)
    }
}

/// Whether `c` is Unicode whitespace.
pub fn is_space_char(c: char) -> (r: bool)
    ensures
        r == is_space(c),
{
    let u = c as u32;
    (9 <= u && u <= 13) || u == 32 || u == 0x85 || u == 0xa0 || u == 0x1680 || (0x2000 <= u && u
        <= 0x200a) || u == 0x2028 || u == 0x2029 || u == 0x202f || u == 0x205f || u == 0x3000
}

fn skip_space_from(s: &str, i: usize) -> (r: usize)
    requires
        i <= s@.len(),
    ensures
        r == skip_space(s@, i as int),
        i <= r <= s@.len(),
{
    let n = s.unicode_len();
    let mut j = i;
    while j < n && is_space_char(s.get_char(j))
        invariant
            i <= j <= n,
            n == s@.len(),
            skip_space(s@, i as int) == skip_space(s@, j as int),
        decreases n - j,
    {
        j = j + 1;
    }
    j
}

fn skip_word_from(s: &str, i: usize) -> (r: usize)
    requires
        i <= s@.len(),
    ensures
        r == skip_word(s@, i as int),
        i <= r <= s@.len(),
{
    let n = s.unicode_len();
    let mut j = i;
    while j < n && !is_space_char(s.get_char(j))
        invariant
            i <= j <= n,
            n == s@.len(),
            skip_word(s@, i as int) == skip_word(s@, j as int),
        decreases n - j,
    {
        j = j + 1;
    }
    j
}

/// `line` without leading and trailing whitespace.
pub fn trim_line(line: &str) -> (r: String)
    ensures
        r@ == trimmed(line@),
{
    let b = skip_space_from(line, 0);
    let mut e = line.unicode_len();
    while e > 0 && is_space_char(line.get_char(e - 1))
        invariant
            e <= line@.len(),
            content_end(line@, line@.len() as int) == content_end(line@, e as int),
        decreases e,
    {
        e = e - 1;
    }
    if b < e {
        line.substring_char(b, e).to_owned()
    } else {
        String::new()
    }
}

/// Reads the command that a player typed in the local loop: "q", "quit" or
/// "exit" leave; "save" and "load" take a file name, "game.txt" when none
/// follows; any other first word is a move token; an empty line is blank.
pub fn parse_command(line: &str) -> (c: Command)
    ensures
        c@ == command_of(line@),
{
    let b0 = skip_space_from(line, 0);
    let e0 = skip_word_from(line, b0);
    if b0 >= e0 {
        return Command::Blank;
    }
    let w0 = line.substring_char(b0, e0).to_owned();
    let b1 = skip_space_from(line, e0);
    let e1 = skip_word_from(line, b1);
    let file = if b1 < e1 {
        line.substring_char(b1, e1).to_owned()
    } else {
        "game.txt".to_owned()
    };
    if w0 == "q".to_owned() || w0 == "quit".to_owned() || w0 == "exit".to_owned() {
        Command::Quit
    } else if w0 == "save".to_owned() {
        Command::Save(file)
    } else if w0 == "load".to_owned() {
        Command::Load(file)
    } else {
        Command::Play(w0)
    }
}

proof fn lemma_skip_space_bounds(s: Seq<char>, i: int)
    requires
        0 <= i <= s.len(),
    ensures
        i <= skip_space(s, i) <= s.len(),
    decreases s.len() - i,
{
    if i < s.len() && is_space(s[i]) {
        lemma_skip_space_bounds(s, i + 1);
    }
}

proof fn lemma_skip_word_bounds(s: Seq<char>, i: int)
    requires
        0 <= i <= s.len(),
    ensures
        i <= skip_word(s, i) <= s.len(),
    decreases s.len() - i,
{
    if i < s.len() && !is_space(s[i]) {
        lemma_skip_word_bounds(s, i + 1);
    }
}

/// A line whose first word is a quit word asks to leave, whatever follows it.
pub proof fn lemma_quit_words_stop(s: Seq<char>)
    requires
        is_quit_word(s.subrange(skip_space(s, 0), skip_word(s, skip_space(s, 0)))),
    ensures
        command_of(s) == CommandView::Quit,
{
    reveal_strlit("q");
    reveal_strlit("quit");
    reveal_strlit("exit");
    lemma_skip_space_bounds(s, 0);
    let b0 = skip_space(s, 0);
    lemma_skip_word_bounds(s, b0);
    if skip_word(s, b0) == b0 {
        assert(s.subrange(b0, b0).len() == 0);
        assert("q"@.len() == 1 && "quit"@.len() == 4 && "exit"@.len() == 4);
    }
}

} // verus!
