//! Receipt printing: copy counts and the decoding of PDF payloads.
use vstd::prelude::*;
use vstd::string::*;
use crate::envfile::{find_char, split_lines};
use crate::text::{chars_of, contains, contains_chars, is_ws, is_ws_char, string_of, trim, trim_chars, trim_str};

verus! {

pub const MAX_COPIES: u32 = 10;

/// The number of copies printed: one when not given, else clamped to
/// `1..=MAX_COPIES`.
pub open spec fn clamp_copies_spec(copies: Option<u32>) -> u32 {
    let c = match copies {
        Some(c) => c,
        None => 1,
    };
    if c < 1 {
        1
    } else if c > MAX_COPIES {
        MAX_COPIES
    } else {
        c
    }
}

pub fn clamp_copies(copies: Option<u32>) -> (r: u32)
    ensures
        r == clamp_copies_spec(copies),
        1 <= r <= MAX_COPIES,
{
    let c = match copies {
        Some(c) => c,
        None => 1,
    };
    if c < 1 {
        1
    } else if c > MAX_COPIES {
        MAX_COPIES
    } else {
        c
    }
}

/// What base64's standard engine decodes a text to, if it is valid.
pub uninterp spec fn base64_decoded(s: Seq<char>) -> Option<Seq<u8>>;

/// Relies on `base64::engine::general_purpose::STANDARD.decode`: the bytes
/// of a valid padded standard-alphabet text, a function of the text alone.
#[verifier::external_body]
fn base64_decode(s: &str) -> (r: Result<Vec<u8>, String>)
    ensures
        r is Ok <==> base64_decoded(s@) is Some,
        r is Ok ==> r->Ok_0@ == base64_decoded(s@)->Some_0,
{
    match base64::Engine::decode(&base64::engine::general_purpose::STANDARD, s) {
        Ok(v) => Ok(v),
        Err(e) => Err(e.to_string()),
    }
}

/// Why a print job was refused.
pub enum PrintError {
    /// The payload is not valid base64; holds the decoder's message.
    Base64(String),
    /// The payload decodes to nothing.
    EmptyPdf,
}

/// The PDF bytes from a decoding result: its bytes when there are any.
pub fn pdf_bytes(decoded: Result<Vec<u8>, String>) -> (r: Result<Vec<u8>, PrintError>)
    ensures
        match decoded {
            Ok(b) => if b@.len() == 0 {
                r is Err && r->Err_0 is EmptyPdf
            } else {
                r is Ok && r->Ok_0@ == b@
            },
            Err(_) => r is Err && r->Err_0 is Base64,
        },
{
    match decoded {
        Ok(b) => {
            if b.len() == 0 {
                Err(PrintError::EmptyPdf)
            } else {
                Ok(b)
            }
        },
        Err(m) => Err(PrintError::Base64(m)),
    }
}

/// Decodes a base64 PDF payload, ignoring surrounding whitespace.
pub fn decode_pdf(pdf_base64: &str) -> (r: Result<Vec<u8>, PrintError>)
    ensures
        match base64_decoded(crate::text::trim(pdf_base64@)) {
            Some(b) => if b.len() == 0 {
                r is Err && r->Err_0 is EmptyPdf
            } else {
                r is Ok && r->Ok_0@ == b
            },
            None => r is Err && r->Err_0 is Base64,
        },
{
    let t = trim_str(pdf_base64);
    pdf_bytes(base64_decode(t.as_str()))
}

/// The printer a `lpstat -d` line names as default: the trimmed text after
/// its first `:`, on a line mentioning `default destination`.
pub open spec fn default_in_line(l: Seq<char>) -> Option<Seq<char>> {
    if contains(l, "default destination"@) {
        match find_char(l, ':') {
            Some(i) => {
                let p = trim(l.subrange(i + 1, l.len() as int));
                if p.len() > 0 {
                    Some(p)
                } else {
                    None
                }
            },
            None => None,
        }
    } else {
        None
    }
}

/// The default printer of the first `n` lines; a later line wins.
pub open spec fn default_upto(ls: Seq<Seq<char>>, n: int) -> Option<Seq<char>>
    decreases n,
{
    if n <= 0 {
        None
    } else {
        match default_in_line(ls[n - 1]) {
            Some(p) => Some(p),
            None => default_upto(ls, n - 1),
        }
    }
}

/// The leading run of non-whitespace characters.
pub open spec fn take_word(s: Seq<char>) -> Seq<char>
    decreases s.len(),
{
    if s.len() == 0 || is_ws(s[0]) {
        Seq::empty()
    } else {
        seq![s[0]] + take_word(s.drop_first())
    }
}

/// The printer a `lpstat -p` line describes: on a trimmed line starting with
/// `printer `, the next whitespace-separated word.
pub open spec fn printer_in_line(l: Seq<char>) -> Option<Seq<char>> {
    let t = trim(l);
    if t.len() >= 8 && t.subrange(0, 8) == "printer "@ {
        let w = take_word(trim(t.subrange(8, t.len() as int)));
        if w.len() > 0 {
            Some(w)
        } else {
            None
        }
    } else {
        None
    }
}

/// The printers of the first `n` lines, in order.
pub open spec fn printers_upto(ls: Seq<Seq<char>>, n: int) -> Seq<Seq<char>>
    decreases n,
{
    if n <= 0 {
        Seq::empty()
    } else {
        match printer_in_line(ls[n - 1]) {
            Some(p) => printers_upto(ls, n - 1).push(p),
            None => printers_upto(ls, n - 1),
        }
    }
}

pub open spec fn char_views(v: Seq<Vec<char>>) -> Seq<Seq<char>> {
    v.map_values(|x: Vec<char>| x@)
}

/// Lines of a text as character vectors.
pub(crate) fn lines_of(text: &str) -> (r: Vec<Vec<char>>)
    ensures
        char_views(r@) == split_lines(text@),
{
    let cs = chars_of(text);
    let mut out: Vec<Vec<char>> = Vec::new();
    let mut cur: Vec<char> = Vec::new();
    let mut i: usize = 0;
    while i < cs.len()
        invariant
            i <= cs.len(),
            cs@ == text@,
            split_lines(cs@.subrange(0, i as int)) == char_views(out@).push(cur@),
        decreases cs.len() - i,
    {
        let c = cs[i];
        assert(cs@.subrange(0, i + 1).drop_last() == cs@.subrange(0, i as int));
        let ghost before = char_views(out@);
        let ghost cur_before = cur@;
        if c == '\n' {
            out.push(cur);
            cur = Vec::new();
            assert(char_views(out@) =~= before.push(cur_before));
            assert(split_lines(cs@.subrange(0, i + 1)) =~= char_views(out@).push(cur@));
        } else {
            cur.push(c);
            assert(split_lines(cs@.subrange(0, i + 1)) =~= char_views(out@).push(cur@));
        }
        i = i + 1;
    }
    assert(cs@.subrange(0, cs@.len() as int) == cs@);
    let ghost before = char_views(out@);
    let ghost last = cur@;
    out.push(cur);
    assert(char_views(out@) =~= before.push(last));
    out
}

fn find_in(s: &Vec<char>, c: char) -> (r: Option<usize>)
    ensures
        r is Some <==> find_char(s@, c) is Some,
        r is Some ==> find_char(s@, c) == Some(r->Some_0 as int) && r->Some_0 < s@.len(),
{
    let mut i: usize = 0;
    while i < s.len()
        invariant
            i <= s.len(),
            forall|k: int| 0 <= k < i ==> s@[k] != c,
        decreases s.len() - i,
    {
        if s[i] == c {
            proof {
                crate::envfile::lemma_find_char_first(s@, c, i as int);
            }
            return Some(i);
        }
        i = i + 1;
    }
    proof {
        crate::envfile::lemma_find_char_none(s@, c);
    }
    None
}

pub(crate) fn slice_chars(s: &Vec<char>, from: usize, to: usize) -> (r: Vec<char>)
    requires
        from <= to <= s.len(),
    ensures
        r@ == s@.subrange(from as int, to as int),
{
    let mut out: Vec<char> = Vec::new();
    let mut k: usize = from;
    while k < to
        invariant
            from <= k <= to,
            to <= s.len(),
            out@ == s@.subrange(from as int, k as int),
        decreases to - k,
    {
        out.push(s[k]);
        k = k + 1;
        assert(out@ == s@.subrange(from as int, k as int));
    }
    out
}

fn default_in(l: &Vec<char>) -> (r: Option<Vec<char>>)
    ensures
        match default_in_line(l@) {
            Some(p) => r is Some && r->Some_0@ == p,
            None => r is None,
        },
{
    let marker = chars_of("default destination");
    if !contains_chars(l, &marker) {
        return None;
    }
    match find_in(l, ':') {
        None => None,
        Some(i) => {
            assert(i < l.len());
            let p = trim_chars(&slice_chars(l, i + 1, l.len()));
            if p.len() > 0 {
                Some(p)
            } else {
                None
            }
        },
    }
}

/// The default printer that `lpstat -d` reports, if any.
pub fn parse_default_printer(stdout: &str) -> (r: Option<String>)
    ensures
        match default_upto(split_lines(stdout@), split_lines(stdout@).len() as int) {
            Some(p) => r is Some && r->Some_0@ == p,
            None => r is None,
        },
{
    let ls = lines_of(stdout);
    let ghost v = char_views(ls@);
    let mut n: usize = ls.len();
    while n > 0
        invariant
            n <= ls.len(),
            v == char_views(ls@),
            v == split_lines(stdout@),
            default_upto(v, v.len() as int) == default_upto(v, n as int),
        decreases n,
    {
        assert(v[n - 1] == ls@[n - 1]@);
        match default_in(&ls[n - 1]) {
            Some(p) => {
                return Some(string_of(&p));
            },
            None => {},
        }
        n = n - 1;
    }
    None
}

pub(crate) fn take_word_chars(s: &Vec<char>, from: usize) -> (r: Vec<char>)
    requires
        from <= s.len(),
    ensures
        r@ == take_word(s@.subrange(from as int, s@.len() as int)),
{
    let mut j: usize = from;
    while j < s.len() && !is_ws_char(s[j])
        invariant
            from <= j <= s.len(),
            forall|k: int| from <= k < j ==> !is_ws(#[trigger] s@[k]),
        decreases s.len() - j,
    {
        j = j + 1;
    }
    proof {
        lemma_take_word(s@, from as int, j as int);
    }
    slice_chars(s, from, j)
}

proof fn lemma_take_word(s: Seq<char>, from: int, j: int)
    requires
        0 <= from <= j <= s.len(),
        forall|k: int| from <= k < j ==> !is_ws(#[trigger] s[k]),
        j == s.len() || is_ws(s[j]),
    ensures
        take_word(s.subrange(from, s.len() as int)) == s.subrange(from, j),
    decreases j - from,
{
    let t = s.subrange(from, s.len() as int);
    if from < j {
        lemma_take_word(s, from + 1, j);
        assert(t.drop_first() =~= s.subrange(from + 1, s.len() as int));
        assert(seq![s[from]] + s.subrange(from + 1, j) =~= s.subrange(from, j));
    } else {
        assert(s.subrange(from, j) =~= Seq::<char>::empty());
    }
}

fn printer_in(l: &Vec<char>) -> (r: Option<Vec<char>>)
    ensures
        match printer_in_line(l@) {
            Some(p) => r is Some && r->Some_0@ == p,
            None => r is None,
        },
{
    let t = trim_chars(l);
    let head = chars_of("printer ");
    proof {
        reveal_strlit("printer ");
    }
    if t.len() < 8 {
        return None;
    }
    let h = slice_chars(&t, 0, 8);
    if !crate::envfile::chars_equal(&h, &head) {
        return None;
    }
    let rest = trim_chars(&slice_chars(&t, 8, t.len()));
    let ghost r = rest@;
    assert(trim(t@.subrange(8, t@.len() as int)) == r);
    let w = take_word_chars(&rest, 0);
    assert(rest@.subrange(0, rest@.len() as int) == rest@);
    if w.len() > 0 {
        Some(w)
    } else {
        None
    }
}

/// The printers that `lpstat -p` lists, in order.
pub fn parse_printers(stdout: &str) -> (r: Vec<String>)
    ensures
        r@.map_values(|s: String| s@) == printers_upto(split_lines(stdout@), split_lines(stdout@).len() as int),
{
    let ls = lines_of(stdout);
    let ghost v = char_views(ls@);
    let mut out: Vec<String> = Vec::new();
    let mut i: usize = 0;
    while i < ls.len()
        invariant
            i <= ls.len(),
            v == char_views(ls@),
            v == split_lines(stdout@),
            out@.map_values(|s: String| s@) == printers_upto(v, i as int),
        decreases ls.len() - i,
    {
        assert(v[i as int] == ls@[i as int]@);
        match printer_in(&ls[i]) {
            Some(p) => {
                let ghost before = out@.map_values(|s: String| s@);
                out.push(string_of(&p));
                assert(out@.map_values(|s: String| s@) =~= before.push(p@));
            },
            None => {},
        }
        i = i + 1;
    }
    out
}

} // verus!
