//! Line handling for the terminal-backed endpoint.
//!
//! The outbound pump of the terminal variant reads whole text lines, appends
//! a trailing newline before sending, and treats an input whose trimmed text
//! is exactly `quit` as the request to shut the session down.

use vstd::prelude::*;

verus! {

use vstd::string::StrSliceExecFns;
use vstd::string::StringExecFns;

/// ASCII whitespace, as trimmed from the edges of a line.
pub open spec fn is_wsp(c: char) -> bool {
    c == ' ' || c == '\t' || c == '\n' || c == '\r'
}

/// The text with leading whitespace removed.
pub open spec fn trim_front(s: Seq<char>) -> Seq<char>
    decreases s.len(),
{
    if s.len() > 0 && is_wsp(s[0]) {
        trim_front(s.drop_first())
    } else {
        s
    }
}

/// The text with trailing whitespace removed.
pub open spec fn trim_back(s: Seq<char>) -> Seq<char>
    decreases s.len(),
{
    if s.len() > 0 && is_wsp(s[s.len() - 1]) {
        trim_back(s.drop_last())
    } else {
        s
    }
}

/// The text with whitespace removed from both edges.
pub open spec fn trim_spec(s: Seq<char>) -> Seq<char> {
    trim_back(trim_front(s))
}

proof fn lemma_trim_front_range(s: Seq<char>, i: int)
    requires
        0 <= i <= s.len(),
        forall|j: int| 0 <= j < i ==> is_wsp(s[j]),
        i < s.len() ==> !is_wsp(s[i]),
    ensures
        trim_front(s) =~= s.subrange(i, s.len() as int),
    decreases i,
{
    if i == 0 {
        if s.len() > 0 && is_wsp(s[0]) {
            assert(false);
        }
    } else {
        let t = s.drop_first();
        assert(forall|j: int| 0 <= j < i - 1 ==> is_wsp(t[j]));
        lemma_trim_front_range(t, i - 1);
        assert(t.subrange(i - 1, t.len() as int) =~= s.subrange(i, s.len() as int));
    }
}

proof fn lemma_trim_back_range(s: Seq<char>, i: int)
    requires
        0 <= i <= s.len(),
        forall|j: int| i <= j < s.len() ==> is_wsp(s[j]),
        i > 0 ==> !is_wsp(s[i - 1]),
    ensures
        trim_back(s) =~= s.subrange(0, i),
    decreases s.len() - i,
{
    if i == s.len() {
        if s.len() > 0 && is_wsp(s[s.len() - 1]) {
            assert(false);
        }
    } else {
        let t = s.drop_last();
        assert(forall|j: int| i <= j < t.len() ==> is_wsp(t[j]));
        lemma_trim_back_range(t, i);
        assert(t.subrange(0, i) =~= s.subrange(0, i));
    }
}

/// Remove ASCII whitespace from both edges of a line of text.
pub fn trim_line<'a>(s: &'a str) -> (r: &'a str)
    ensures
        r@ == trim_spec(s@),
{
    let n: usize = s.unicode_len();
    let mut start: usize = 0;
    while start < n && is_wsp_exec(s.get_char(start))
        invariant
            0 <= start <= n,
            n == s@.len(),
            forall|j: int| 0 <= j < start ==> is_wsp(s@[j]),
        decreases n - start,
    {
        start = start + 1;
    }
    proof {
        lemma_trim_front_range(s@, start as int);
    }
    let mut end: usize = n;
    while end > start && is_wsp_exec(s.get_char(end - 1))
        invariant
            start <= end <= n,
            n == s@.len(),
            forall|j: int| end <= j < n ==> is_wsp(s@[j]),
            start < s@.len() ==> !is_wsp(s@[start as int]),
        decreases end,
    {
        end = end - 1;
    }
    proof {
        let front = s@.subrange(start as int, s@.len() as int);
        lemma_trim_back_range(front, end - start);
        assert(front.subrange(0, end - start) =~= s@.subrange(start as int, end as int));
    }
    s.substring_char(start, end)
}

/// Executable form of [`is_wsp`].
pub fn is_wsp_exec(c: char) -> (r: bool)
    ensures
        r == is_wsp(c),
{
    c == ' ' || c == '\t' || c == '\n' || c == '\r'
}

/// The command whose trimmed input line asks the relay to shut down.
pub open spec fn quit_text() -> Seq<char> {
    seq!['q', 'u', 'i', 't']
}

/// Does this input line, trimmed of surrounding whitespace, equal `quit`?
pub fn is_quit_line(line: &str) -> (r: bool)
    ensures
        r == (trim_spec(line@) == quit_text()),
{
    let trimmed = trim_line(line);
    proof {
        reveal_strlit("quit");
        assert("quit"@ =~= quit_text());
    }
    let t = trimmed.to_owned();
    let q = String::from_str("quit");
    t.eq(&q)
}

/// The line as sent on the wire: the text with a trailing newline appended.
pub open spec fn with_newline(s: Seq<char>) -> Seq<char> {
    s.push('\n')
}

/// Append the trailing newline to an input line.
pub fn encode_line(line: &str) -> (r: String)
    ensures
        r@ == with_newline(line@),
{
    proof {
        reveal_strlit("\n");
    }
    let r = line.to_owned().concat("\n");
    proof {
        assert(r@ =~= with_newline(line@));
    }
    r
}

/// One unit of outbound traffic produced by the terminal endpoint: the exact
/// bytes to write to the connection, and whether the line was the `quit`
/// command.
pub struct TerminalUnit {
    /// The bytes to send: the input line, newline appended, UTF-8 encoded.
    pub data: Vec<u8>,
    /// Whether the trimmed line was the `quit` command.
    pub quit: bool,
}

/// Turn one terminal input line into the unit the outbound pump forwards.
pub fn terminal_unit(line: &str) -> (u: TerminalUnit)
    ensures
        u.data@ == vstd::utf8::encode_utf8(with_newline(line@)),
        u.quit == (trim_spec(line@) == quit_text()),
{
    let encoded = encode_line(line);
    let data = encoded.as_str().as_bytes_vec();
    let quit = is_quit_line(line);
    TerminalUnit { data, quit }
}

} // verus!
