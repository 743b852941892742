//! Decisions of the point-of-sale agent launcher: health probes, the ports
//! the agents run on, and the keys of the credential store.
use vstd::prelude::*;
use vstd::string::*;
use vstd::utf8::encode_utf8;
use crate::config::views;
use crate::envfile::{join_lines, split_lines};
use crate::printing::{char_views, lines_of, slice_chars, take_word, take_word_chars};
use crate::text::{
    chars_of, is_ws, is_ws_char, lower_of, lowercase, parse_u16, parse_u16_spec, string_of, trim,
    trim_chars, trim_str,
};

verus! {

/// An agent answers its health probe when the probe gets HTTP 200.
pub fn is_agent_health_ok(status: Option<u16>) -> (r: bool)
    ensures
        r == (status == Some(200u16)),
{
    match status {
        Some(s) => s == 200,
        None => false,
    }
}

/// An agent accepts the desktop shell when a probe carrying the shell's
/// origin gets HTTP 200; older agents refuse that origin.
pub fn is_agent_tauri_compatible(status_with_origin: Option<u16>) -> (r: bool)
    ensures
        r == (status_with_origin == Some(200u16)),
{
    match status_with_origin {
        Some(s) => s == 200,
        None => false,
    }
}

/// Why an agent port cannot be used.
pub enum PortProblem {
    /// Something that is not an agent holds the port.
    InUse(u16),
    /// An agent holds the port but refuses the desktop shell.
    IncompatibleAgent(u16),
}

/// A busy port is fine only when an agent that accepts the shell holds it.
pub open spec fn port_problem_spec(port: u16, busy: bool, health: Option<u16>, with_origin: Option<u16>) -> Option<PortProblem> {
    if busy && health != Some(200u16) {
        Some(PortProblem::InUse(port))
    } else if busy && with_origin != Some(200u16) {
        Some(PortProblem::IncompatibleAgent(port))
    } else {
        None
    }
}

/// Checks an agent port from whether it is taken and what the two probes saw.
pub fn port_problem(port: u16, busy: bool, health: Option<u16>, with_origin: Option<u16>) -> (r: Option<PortProblem>)
    ensures
        r == port_problem_spec(port, busy, health, with_origin),
{
    if busy && !is_agent_health_ok(health) {
        Some(PortProblem::InUse(port))
    } else if busy && !is_agent_tauri_compatible(with_origin) {
        Some(PortProblem::IncompatibleAgent(port))
    } else {
        None
    }
}

/// Longest credential-store key, in bytes.
pub const MAX_KEY_BYTES: usize = 120;

/// A credential-store key is its trimmed text, which must be non-empty and at
/// most `MAX_KEY_BYTES` bytes of UTF-8.
pub open spec fn key_valid(key: Seq<char>) -> bool {
    trim(key).len() > 0 && encode_utf8(trim(key)).len() <= MAX_KEY_BYTES
}

/// The credential-store key for a requested key, or `None` when it is invalid.
pub fn secure_key(key: &str) -> (r: Option<String>)
    ensures
        key_valid(key@) ==> r is Some && r->Some_0@ == trim(key@),
        !key_valid(key@) ==> r is None,
{
    let t = trim_str(key);
    if t.as_str().unicode_len() == 0 || t.as_str().as_bytes().len() > MAX_KEY_BYTES {
        None
    } else {
        Some(t)
    }
}

/// A field to write into an agent's configuration: the trimmed text when it
/// is given and not blank.
pub fn agent_field(v: &Option<String>) -> (r: Option<String>)
    ensures
        match v {
            Some(s) => if trim(s@).len() > 0 {
                r is Some && r->Some_0@ == trim(s@)
            } else {
                r is None
            },
            None => r is None,
        },
{
    match v {
        Some(s) => {
            let t = trim_str(s.as_str());
            if t.as_str().unicode_len() > 0 {
                Some(t)
            } else {
                None
            }
        },
        None => None,
    }
}

/// The text without its leading run of non-whitespace characters.
pub open spec fn drop_word(s: Seq<char>) -> Seq<char>
    decreases s.len(),
{
    if s.len() == 0 || is_ws(s[0]) {
        s
    } else {
        drop_word(s.drop_first())
    }
}

/// The second whitespace-separated word of a text.
pub open spec fn second_word(s: Seq<char>) -> Seq<char> {
    take_word(trim(drop_word(trim(s))))
}

/// The status code of an HTTP response head: the second word of its first
/// line, read as a number.
pub open spec fn status_code_spec(head: Seq<char>) -> Option<u16> {
    parse_u16_spec(second_word(split_lines(head)[0]))
}

proof fn lemma_drop_word(s: Seq<char>, j: int)
    requires
        0 <= j <= s.len(),
        forall|k: int| 0 <= k < j ==> !is_ws(#[trigger] s[k]),
        j == s.len() || is_ws(s[j]),
    ensures
        drop_word(s) == s.subrange(j, s.len() as int),
    decreases j,
{
    if j > 0 {
        lemma_drop_word(s.drop_first(), j - 1);
        assert(s.drop_first().subrange(j - 1, s.drop_first().len() as int) =~= s.subrange(
            j,
            s.len() as int,
        ));
    } else {
        assert(s.subrange(0, s.len() as int) =~= s);
    }
}

fn drop_word_chars(s: &Vec<char>) -> (r: Vec<char>)
    ensures
        r@ == drop_word(s@),
{
    let mut j: usize = 0;
    while j < s.len() && !is_ws_char(s[j])
        invariant
            j <= s.len(),
            forall|k: int| 0 <= k < j ==> !is_ws(#[trigger] s@[k]),
        decreases s.len() - j,
    {
        j = j + 1;
    }
    proof {
        lemma_drop_word(s@, j as int);
    }
    slice_chars(s, j, s.len())
}

/// Reads the status code out of the head of an HTTP response.
pub fn status_code_of(head: &str) -> (r: Option<u16>)
    ensures
        r == status_code_spec(head@),
{
    let ls = lines_of(head);
    proof {
        crate::envfile::lemma_split_lines_len(head@);
    }
    assert(char_views(ls@)[0] == ls@[0]@);
    let first = trim_chars(&ls[0]);
    let rest = trim_chars(&drop_word_chars(&first));
    let w = take_word_chars(&rest, 0);
    assert(rest@.subrange(0, rest@.len() as int) == rest@);
    parse_u16(string_of(&w).as_str())
}

/// A line as `str::lines` yields it: without one trailing carriage return.
pub open spec fn strip_cr(l: Seq<char>) -> Seq<char> {
    if l.len() > 0 && l.last() == '\r' {
        l.drop_last()
    } else {
        l
    }
}

/// The lines of a text as `str::lines` yields them: no empty line after a
/// final line break.
pub open spec fn text_lines(s: Seq<char>) -> Seq<Seq<char>> {
    let ls = split_lines(s);
    let kept = if ls.last().len() == 0 {
        ls.drop_last()
    } else {
        ls
    };
    kept.map_values(|l: Seq<char>| strip_cr(l))
}

/// The last `n` lines of a text joined with line breaks; the whole text when
/// `n` is zero.
pub open spec fn tail_lines_spec(text: Seq<char>, n: nat) -> Seq<char> {
    let ls = text_lines(text);
    if n == 0 {
        text
    } else if ls.len() > n {
        join_lines(ls.subrange(ls.len() - n, ls.len() as int))
    } else {
        join_lines(ls)
    }
}

fn strip_cr_chars(l: &Vec<char>) -> (r: String)
    ensures
        r@ == strip_cr(l@),
{
    if l.len() > 0 && l[l.len() - 1] == '\r' {
        string_of(&slice_chars(l, 0, l.len() - 1))
    } else {
        string_of(l)
    }
}

/// Keeps the last `max_lines` lines of a log text.
pub fn tail_lines(text: &str, max_lines: usize) -> (r: String)
    ensures
        r@ == tail_lines_spec(text@, max_lines as nat),
{
    if max_lines == 0 {
        return String::from_str(text);
    }
    let ls = lines_of(text);
    proof {
        crate::envfile::lemma_split_lines_len(text@);
    }
    let ghost all = char_views(ls@);
    let mut count: usize = ls.len();
    if ls[ls.len() - 1].len() == 0 {
        count = count - 1;
    }
    let ghost kept = if all.last().len() == 0 {
        all.drop_last()
    } else {
        all
    };
    assert(kept.len() == count);
    let start: usize = if count > max_lines {
        count - max_lines
    } else {
        0
    };
    let mut out: Vec<String> = Vec::new();
    let mut i: usize = start;
    while i < count
        invariant
            start <= i <= count,
            count <= ls.len(),
            all == char_views(ls@),
            kept.len() == count,
            forall|k: int| 0 <= k < count ==> #[trigger] kept[k] == all[k],
            views(out@) == kept.map_values(|l: Seq<char>| strip_cr(l)).subrange(start as int, i as int),
        decreases count - i,
    {
        let ghost before = views(out@);
        out.push(strip_cr_chars(&ls[i]));
        assert(views(out@) =~= before.push(strip_cr(kept[i as int])));
        i = i + 1;
        assert(views(out@) =~= kept.map_values(|l: Seq<char>| strip_cr(l)).subrange(start as int, i as int));
    }
    let ghost tl = text_lines(text@);
    assert(tl == kept.map_values(|l: Seq<char>| strip_cr(l)));
    assert(count <= max_lines ==> tl.subrange(0, tl.len() as int) =~= tl);
    crate::config::join_newline(&out)
}

/// A lower-cased log level, or `info` when it is empty.
pub fn level_or_info(lowered: &str) -> (r: String)
    ensures
        lowered@.len() == 0 ==> r@ == "info"@,
        lowered@.len() > 0 ==> r@ == lowered@,
{
    if lowered.unicode_len() == 0 {
        String::from_str("info")
    } else {
        String::from_str(lowered)
    }
}

/// Level of a log entry from the shell: trimmed and lower-cased, `info`
/// when empty.
pub fn log_level(level: &str) -> (r: String)
    ensures
        lower_of(trim(level@)).len() == 0 ==> r@ == "info"@,
        lower_of(trim(level@)).len() > 0 ==> r@ == lower_of(trim(level@)),
{
    let x = lowercase(trim_str(level).as_str());
    level_or_info(x.as_str())
}

/// How many lines a log tail shows: the request, else `default`, at most `max`.
pub fn tail_limit(requested: Option<usize>, default: usize, max: usize) -> (r: usize)
    ensures
        r == (match requested {
            Some(n) => if n < max {
                n
            } else {
                max
            },
            None => if default < max {
                default
            } else {
                max
            },
        }),
{
    let n = match requested {
        Some(n) => n,
        None => default,
    };
    if n < max {
        n
    } else {
        max
    }
}

/// One entry of the desktop log: `[ts][level] message`, the trimmed stack on
/// its own line when there is one, and a final line break.
pub fn log_entry(ts: u64, level: &str, message: &str, stack: &Option<String>) -> (r: String)
    ensures
        r@ == "["@ + crate::text::decimal(ts as nat) + "]["@ + level@ + "] "@ + trim(message@) + (match stack {
            Some(s) => if trim(s@).len() > 0 {
                "\n"@ + trim(s@)
            } else {
                Seq::empty()
            },
            None => Seq::empty(),
        }) + "\n"@,
{
    let mut line = String::from_str("[");
    line.append(crate::text::decimal_string(ts).as_str());
    line.append("][");
    line.append(level);
    line.append("] ");
    line.append(trim_str(message).as_str());
    let ghost head = line@;
    match stack {
        Some(s) => {
            let st = trim_str(s.as_str());
            if st.as_str().unicode_len() > 0 {
                line.append("\n");
                line.append(st.as_str());
            } else {
                assert(head + Seq::<char>::empty() =~= head);
            }
        },
        None => {
            assert(head + Seq::<char>::empty() =~= head);
        },
    }
    line.append("\n");
    line
}

} // verus!
