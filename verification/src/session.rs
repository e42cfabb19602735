//! The loop around the processor: which line is spoken and which ends the
//! session.

use vstd::prelude::*;
use vstd::string::*;
use crate::processor::Outcome;

verus! {

/// White space as Unicode defines it (the property `White_Space`).
pub open spec fn is_white_space(c: char) -> bool {
    let v = c as u32;
    ||| 0x09 <= v <= 0x0d
    ||| v == 0x20
    ||| v == 0x85
    ||| v == 0xa0
    ||| v == 0x1680
    ||| 0x2000 <= v <= 0x200a
    ||| v == 0x2028
    ||| v == 0x2029
    ||| v == 0x202f
    ||| v == 0x205f
    ||| v == 0x3000
}

/// The text without the white space it starts with.
pub open spec fn trim_start(text: Seq<char>) -> Seq<char>
    decreases text.len(),
{
    if text.len() > 0 && is_white_space(text[0]) {
        trim_start(text.drop_first())
    } else {
        text
    }
}

/// The text without the white space it ends with.
pub open spec fn trim_end(text: Seq<char>) -> Seq<char>
    decreases text.len(),
{
    if text.len() > 0 && is_white_space(text.last()) {
        trim_end(text.drop_last())
    } else {
        text
    }
}

/// The text without the white space around it.
pub open spec fn trimmed(text: Seq<char>) -> Seq<char> {
    trim_end(trim_start(text))
}

/// The code of a character, with the ASCII capitals taken as their small
/// letters.
pub open spec fn folded(c: char) -> u32 {
    let v = c as u32;
    if 0x41 <= v <= 0x5a {
        (v + 0x20) as u32
    } else {
        v
    }
}

/// Whether a trimmed line is the word that ends the session: `goodbye`, in
/// small letters or capitals.
pub open spec fn is_sentinel(line: Seq<char>) -> bool {
    &&& line.len() == 7
    &&& forall|i: int| 0 <= i < 7 ==> folded(#[trigger] line[i]) == "goodbye"@[i] as u32
}

/// What a line of input calls for: `None` where the session ends (no more
/// input, or the sentinel), else the utterance to speak. An empty line is
/// an utterance like any other.
pub open spec fn utterance_of(line: Option<Seq<char>>) -> Option<Seq<char>> {
    match line {
        None => None,
        Some(raw) => if is_sentinel(trimmed(raw)) {
            None
        } else {
            Some(trimmed(raw))
        },
    }
}

/// The utterances of a whole input: each line trimmed, up to the first that
/// ends the session.
pub open spec fn utterances_of(lines: Seq<Seq<char>>) -> Seq<Seq<char>>
    decreases lines.len(),
{
    if lines.len() == 0 {
        Seq::empty()
    } else {
        match utterance_of(Some(lines[0])) {
            None => Seq::empty(),
            Some(utterance) => seq![utterance] + utterances_of(lines.drop_first()),
        }
    }
}

/// What the loop does with a line.
#[derive(Clone, Debug)]
pub enum LineAction {
    /// End the session. No request is built.
    Quit,
    /// Speak this utterance, then read on.
    Speak { utterance: String },
}

/// What the loop does after an utterance.
#[derive(Clone, Copy, PartialEq, Eq, Structural, Debug)]
pub enum Control {
    ReadNext,
    Stop,
}

fn is_space(c: char) -> (space: bool)
    ensures
        space == is_white_space(c),
{
    let v: u32 = c as u32;
    (0x09 <= v && v <= 0x0d) || v == 0x20 || v == 0x85 || v == 0xa0 || v == 0x1680 || (0x2000 <= v
        && v <= 0x200a) || v == 0x2028 || v == 0x2029 || v == 0x202f || v == 0x205f || v == 0x3000
}

fn fold(c: char) -> (code: u32)
    ensures
        code == folded(c),
{
    let v: u32 = c as u32;
    if 0x41 <= v && v <= 0x5a {
        v + 0x20
    } else {
        v
    }
}

/// Takes the white space off both ends of a line.
pub fn trim(line: &str) -> (inner: &str)
    ensures
        inner@ == trimmed(line@),
{
    let n: usize = line.unicode_len();
    let mut start: usize = 0;
    assert(line@.subrange(0, n as int) =~= line@);
    while start < n && is_space(line.get_char(start))
        invariant
            start <= n == line@.len(),
            trim_start(line@) == trim_start(line@.subrange(start as int, n as int)),
        decreases n - start,
    {
        proof {
            let rest = line@.subrange(start as int, n as int);
            assert(rest[0] == line@[start as int]);
            assert(rest.drop_first() =~= line@.subrange(start + 1, n as int));
        }
        start += 1;
    }
    let ghost front = line@.subrange(start as int, n as int);
    assert(trim_start(line@) == front) by {
        if start < n {
            assert(front[0] == line@[start as int]);
        }
    }
    let mut end: usize = n;
    while end > start && is_space(line.get_char(end - 1))
        invariant
            start <= end <= n == line@.len(),
            trim_end(front) == trim_end(line@.subrange(start as int, end as int)),
        decreases end - start,
    {
        proof {
            let rest = line@.subrange(start as int, end as int);
            assert(rest.last() == line@[end - 1]);
            assert(rest.drop_last() =~= line@.subrange(start as int, end - 1));
        }
        end -= 1;
    }
    proof {
        let rest = line@.subrange(start as int, end as int);
        if end > start {
            assert(rest.last() == line@[end - 1]);
        }
        assert(trim_end(rest) == rest);
    }
    line.substring_char(start, end)
}

/// Whether a trimmed line ends the session.
pub fn ends_session(line: &str) -> (ends: bool)
    ensures
        ends == is_sentinel(line@),
{
    let word = "goodbye";
    proof {
        reveal_strlit("goodbye");
    }
    if line.unicode_len() != 7 {
        return false;
    }
    let mut i: usize = 0;
    while i < 7
        invariant
            i <= 7,
            line@.len() == 7,
            word@ == "goodbye"@,
            word@.len() == 7,
            forall|j: int| 0 <= j < i ==> folded(#[trigger] line@[j]) == "goodbye"@[j] as u32,
        decreases 7 - i,
    {
        proof {
            reveal_strlit("goodbye");
        }
        let expected: u32 = word.get_char(i) as u32;
        if fold(line.get_char(i)) != expected {
            return false;
        }
        i += 1;
    }
    true
}

/// Decides what to do with what was read: `None` stands for the end of the
/// input. The line is trimmed first.
pub fn interpret_line(line: Option<&str>) -> (action: LineAction)
    ensures
        match utterance_of(
            match line {
                Some(raw) => Some(raw@),
                None => None,
            },
        ) {
            None => action is Quit,
            Some(text) => action matches LineAction::Speak { utterance } && utterance@ == text,
        },
{
    match line {
        None => LineAction::Quit,
        Some(raw) => {
            let inner = trim(raw);
            if ends_session(inner) {
                LineAction::Quit
            } else {
                LineAction::Speak { utterance: inner.to_owned() }
            }
        },
    }
}

/// Decides what the loop does once an utterance is dealt with: it reads the
/// next line, whatever the outcome was. No failure of a single line ends the
/// session.
pub fn after_outcome(outcome: Outcome) -> (next: Control)
    ensures
        next == Control::ReadNext,
{
    Control::ReadNext
}

/// The sentinel is the word `goodbye` with each letter small or capital,
/// and nothing else.
pub proof fn lemma_sentinel_is_goodbye_in_any_case(line: Seq<char>)
    ensures
        is_sentinel(line) <==> {
            &&& line.len() == 7
            &&& (line[0] == 'g' || line[0] == 'G')
            &&& (line[1] == 'o' || line[1] == 'O')
            &&& (line[2] == 'o' || line[2] == 'O')
            &&& (line[3] == 'd' || line[3] == 'D')
            &&& (line[4] == 'b' || line[4] == 'B')
            &&& (line[5] == 'y' || line[5] == 'Y')
            &&& (line[6] == 'e' || line[6] == 'E')
        },
{
    reveal_strlit("goodbye");
    let word = "goodbye"@;
    let capitals = seq!['G', 'O', 'O', 'D', 'B', 'Y', 'E'];
    if line.len() == 7 {
        assert forall|i: int| 0 <= i < 7 implies (folded(#[trigger] line[i]) == word[i] as u32 <==> (
            line[i] == word[i] || line[i] == capitals[i])) by {
            lemma_code_tells_char(line[i], word[i]);
            lemma_code_tells_char(line[i], capitals[i]);
        }
        if is_sentinel(line) {
            assert(folded(line[0]) == word[0] as u32);
            assert(folded(line[1]) == word[1] as u32);
            assert(folded(line[2]) == word[2] as u32);
            assert(folded(line[3]) == word[3] as u32);
            assert(folded(line[4]) == word[4] as u32);
            assert(folded(line[5]) == word[5] as u32);
            assert(folded(line[6]) == word[6] as u32);
        }
    }
}

/// Two characters of one code are one character.
proof fn lemma_code_tells_char(c: char, d: char)
    ensures
        c as u32 == d as u32 ==> c == d,
{
}

/// A line that ends the session ends the list of utterances: neither it nor
/// any line behind it is spoken.
pub proof fn lemma_nothing_is_spoken_from_the_sentinel_on(
    before: Seq<Seq<char>>,
    sentinel: Seq<char>,
    behind: Seq<Seq<char>>,
)
    requires
        is_sentinel(trimmed(sentinel)),
        forall|i: int| 0 <= i < before.len() ==> !is_sentinel(trimmed(#[trigger] before[i])),
    ensures
        utterances_of(before + seq![sentinel] + behind) == before.map_values(
            |line: Seq<char>| trimmed(line),
        ),
    decreases before.len(),
{
    let lines = before + seq![sentinel] + behind;
    let spoken = before.map_values(|line: Seq<char>| trimmed(line));
    if before.len() == 0 {
        assert(lines[0] == sentinel);
        assert(utterances_of(lines) =~= spoken);
    } else {
        assert(lines[0] == before[0]);
        assert(lines.drop_first() =~= before.drop_first() + seq![sentinel] + behind);
        lemma_nothing_is_spoken_from_the_sentinel_on(before.drop_first(), sentinel, behind);
        assert(utterances_of(lines) =~= spoken);
    }
}

} // verus!
