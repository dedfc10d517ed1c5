use vstd::prelude::*;

verus! {

/// A command of the interactive session.
#[derive(Debug, PartialEq, Eq)]
pub enum Command {
    /// `add <path>`: queue the track at the path.
    Add(String),
    /// `add` with nothing after it.
    AddWithoutPath,
    Play,
    Pause,
    Stop,
    Clear,
    /// Any other command name.
    Undefined(String),
    /// A line with no command on it.
    Blank,
}

/// Unicode's White_Space characters, the ones `char::is_whitespace` accepts.
pub open spec fn is_space(c: char) -> bool {
    let v = c as u32;
    (0x9 <= v <= 0xd) || v == 0x20 || v == 0x85 || v == 0xa0 || v == 0x1680 || (0x2000 <= v
        <= 0x200a) || v == 0x2028 || v == 0x2029 || v == 0x202f || v == 0x205f || v == 0x3000
}

/// First index at or after `i` that is not whitespace, or the length.
pub open spec fn skip_spaces(p: Seq<char>, i: int) -> int
    decreases p.len() - i,
{
    if i < 0 || i >= p.len() {
        p.len() as int
    } else if !is_space(p[i]) {
        i
    } else {
        skip_spaces(p, i + 1)
    }
}

/// First index at or after `i` that is whitespace, or the length.
pub open spec fn token_end(p: Seq<char>, i: int) -> int
    decreases p.len() - i,
{
    if i < 0 || i >= p.len() {
        p.len() as int
    } else if is_space(p[i]) {
        i
    } else {
        token_end(p, i + 1)
    }
}

/// Index just past the last character of `p` that is not whitespace, or 0.
pub open spec fn trimmed_end(p: Seq<char>) -> int
    decreases p.len(),
{
    if p.len() == 0 {
        0
    } else if is_space(p.last()) {
        trimmed_end(p.drop_last())
    } else {
        p.len() as int
    }
}

/// The first whitespace-separated token of a line: the command name.
pub open spec fn command_word(p: Seq<char>) -> Seq<char> {
    p.subrange(skip_spaces(p, 0), token_end(p, skip_spaces(p, 0)))
}

/// What follows the command name, without surrounding whitespace.
pub open spec fn command_argument(p: Seq<char>) -> Seq<char> {
    let from = skip_spaces(p, token_end(p, skip_spaces(p, 0)));
    if from < trimmed_end(p) {
        p.subrange(from, trimmed_end(p))
    } else {
        Seq::empty()
    }
}

/// Whether `r` is the command that the line `p` asks for.
pub open spec fn parsed_as(p: Seq<char>, r: Command) -> bool {
    let w = command_word(p);
    if w.len() == 0 {
        r is Blank
    } else if w == "play"@ {
        r is Play
    } else if w == "pause"@ {
        r is Pause
    } else if w == "stop"@ {
        r is Stop
    } else if w == "clear"@ {
        r is Clear
    } else if w == "add"@ {
        if command_argument(p).len() == 0 {
            r is AddWithoutPath
        } else {
            r matches Command::Add(a) && a@ == command_argument(p)
        }
    } else {
        r matches Command::Undefined(c) && c@ == w
    }
}

proof fn lemma_skip_spaces_bounds(p: Seq<char>, i: int)
    requires
        0 <= i <= p.len(),
    ensures
        i <= skip_spaces(p, i) <= p.len(),
    decreases p.len() - i,
{
    if i < p.len() && is_space(p[i]) {
        lemma_skip_spaces_bounds(p, i + 1);
    }
}

proof fn lemma_token_end_bounds(p: Seq<char>, i: int)
    requires
        0 <= i <= p.len(),
    ensures
        i <= token_end(p, i) <= p.len(),
    decreases p.len() - i,
{
    if i < p.len() && !is_space(p[i]) {
        lemma_token_end_bounds(p, i + 1);
    }
}

proof fn lemma_trimmed_end_bounds(p: Seq<char>)
    ensures
        0 <= trimmed_end(p) <= p.len(),
    decreases p.len(),
{
    if p.len() > 0 && is_space(p.last()) {
        lemma_trimmed_end_bounds(p.drop_last());
    }
}

fn char_is_space(c: char) -> (r: bool)
    ensures
        r == is_space(c),
{
    let v = c as u32;
    (0x9 <= v && v <= 0xd) || v == 0x20 || v == 0x85 || v == 0xa0 || v == 0x1680 || (0x2000 <= v
        && v <= 0x200a) || v == 0x2028 || v == 0x2029 || v == 0x202f || v == 0x205f || v == 0x3000
}

/// Reads one input line as a command: its first whitespace-separated token
/// names the command, and the trimmed rest is the argument of `add`.
pub fn parse_command(line: &str) -> (r: Command)
    ensures
        parsed_as(line@, r),
{
    let n = line.unicode_len();
    let ghost p = line@;
    let mut lo: usize = 0;
    while lo < n && char_is_space(line.get_char(lo))
        invariant
            n == p.len(),
            p == line@,
            lo <= n,
            skip_spaces(p, 0) == skip_spaces(p, lo as int),
        decreases n - lo,
    {
        lo = lo + 1;
    }
    let mut hi: usize = lo;
    while hi < n && !char_is_space(line.get_char(hi))
        invariant
            n == p.len(),
            p == line@,
            lo <= hi <= n,
            token_end(p, lo as int) == token_end(p, hi as int),
        decreases n - hi,
    {
        hi = hi + 1;
    }
    let mut from: usize = hi;
    while from < n && char_is_space(line.get_char(from))
        invariant
            n == p.len(),
            p == line@,
            hi <= from <= n,
            skip_spaces(p, hi as int) == skip_spaces(p, from as int),
        decreases n - from,
    {
        from = from + 1;
    }
    let mut end: usize = n;
    assert(p.subrange(0, n as int) =~= p);
    while end > 0 && char_is_space(line.get_char(end - 1))
        invariant
            n == p.len(),
            p == line@,
            end <= n,
            trimmed_end(p) == trimmed_end(p.subrange(0, end as int)),
        decreases end,
    {
        assert(p.subrange(0, end as int).drop_last() =~= p.subrange(0, end as int - 1));
        end = end - 1;
    }
    proof {
        lemma_skip_spaces_bounds(p, 0);
        lemma_token_end_bounds(p, lo as int);
        lemma_skip_spaces_bounds(p, hi as int);
        lemma_trimmed_end_bounds(p);
        if end > 0 {
            assert(!is_space(p.subrange(0, end as int).last()));
        }
    }
    let word = line.substring_char(lo, hi).to_owned();
    if lo == hi {
        return Command::Blank;
    }
    if word == "play".to_owned() {
        Command::Play
    } else if word == "pause".to_owned() {
        Command::Pause
    } else if word == "stop".to_owned() {
        Command::Stop
    } else if word == "clear".to_owned() {
        Command::Clear
    } else if word == "add".to_owned() {
        if from < end {
            Command::Add(line.substring_char(from, end).to_owned())
        } else {
            Command::AddWithoutPath
        }
    } else {
        Command::Undefined(word)
    }
}

/// The diagnostic for a command name that is not known.
pub fn undefined_message(command: &str) -> (r: String)
    ensures
        r@ == "Undefined command: "@ + command@,
{
    let mut out = "Undefined command: ".to_owned();
    out.append(command);
    out
}

} // verus!
