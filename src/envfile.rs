//! The stack's `KEY=VALUE` configuration file: splitting into lines, parsing,
//! lookup with last-one-wins semantics, and the inverse facts that rendering
//! relies on.
use vstd::prelude::*;
use vstd::string::*;
use crate::text::{
    chars_of, is_blank, is_ws, lemma_strip_end_prefix, lemma_strip_end_ws_empty,
    lemma_trim_start_blank, string_of, strip_end, strips, trim, trim_chars, trim_end, trim_start,
};

verus! {

/// The text cut at every `\n`; a text without one is a single line, and a text
/// ending in `\n` ends with an empty line.
pub open spec fn split_lines(s: Seq<char>) -> Seq<Seq<char>>
    decreases s.len(),
{
    if s.len() == 0 {
        seq![Seq::empty()]
    } else {
        let prev = split_lines(s.drop_last());
        if s.last() == '\n' {
            prev.push(Seq::empty())
        } else {
            prev.update(prev.len() - 1, prev.last().push(s.last()))
        }
    }
}

/// Lines joined with `\n` between them.
pub open spec fn join_lines(ls: Seq<Seq<char>>) -> Seq<char>
    decreases ls.len(),
{
    if ls.len() == 0 {
        Seq::empty()
    } else if ls.len() == 1 {
        ls[0]
    } else {
        join_lines(ls.drop_last()) + seq!['\n'] + ls.last()
    }
}

/// Index of the first `c` in `s`, if any.
pub open spec fn find_char(s: Seq<char>, c: char) -> Option<int>
    decreases s.len(),
{
    if s.len() == 0 {
        None
    } else if s[0] == c {
        Some(0)
    } else {
        match find_char(s.drop_first(), c) {
            Some(i) => Some(i + 1),
            None => None,
        }
    }
}

/// One line of the file: blank lines and `#` comments hold nothing; otherwise
/// the text is cut at its first `=`, both sides are trimmed, and an empty key
/// holds nothing.
pub open spec fn parse_line(line: Seq<char>) -> Option<(Seq<char>, Seq<char>)> {
    let s = trim(line);
    if s.len() == 0 || s[0] == '#' {
        None
    } else {
        match find_char(s, '=') {
            None => None,
            Some(i) => {
                let k = trim(s.subrange(0, i));
                let v = trim(s.subrange(i + 1, s.len() as int));
                if k.len() == 0 {
                    None
                } else {
                    Some((k, v))
                }
            },
        }
    }
}

/// The entries of the first `n` lines, in file order.
pub open spec fn parse_upto(ls: Seq<Seq<char>>, n: int) -> Seq<(Seq<char>, Seq<char>)>
    decreases n,
{
    if n <= 0 {
        Seq::empty()
    } else {
        match parse_line(ls[n - 1]) {
            Some(e) => parse_upto(ls, n - 1).push(e),
            None => parse_upto(ls, n - 1),
        }
    }
}

/// The entries of a whole file text.
pub open spec fn parse_env(text: Seq<char>) -> Seq<(Seq<char>, Seq<char>)> {
    parse_upto(split_lines(text), split_lines(text).len() as int)
}

/// Value of the last of the first `n` entries with key `k`.
pub open spec fn lookup_upto(es: Seq<(Seq<char>, Seq<char>)>, k: Seq<char>, n: int) -> Option<
    Seq<char>,
>
    decreases n,
{
    if n <= 0 {
        None
    } else if es[n - 1].0 == k {
        Some(es[n - 1].1)
    } else {
        lookup_upto(es, k, n - 1)
    }
}

/// Value of the last entry with key `k`: a later line overrides an earlier one.
pub open spec fn lookup(es: Seq<(Seq<char>, Seq<char>)>, k: Seq<char>) -> Option<Seq<char>> {
    lookup_upto(es, k, es.len() as int)
}

/// Parsed entries of a configuration file, in file order.
pub struct EnvFile {
    pub keys: Vec<String>,
    pub values: Vec<String>,
}

impl View for EnvFile {
    type V = Seq<(Seq<char>, Seq<char>)>;

    open spec fn view(&self) -> Seq<(Seq<char>, Seq<char>)> {
        Seq::new(self.keys@.len(), |i: int| (self.keys@[i]@, self.values@[i]@))
    }
}

impl EnvFile {
    pub open spec fn wf(&self) -> bool {
        self.keys@.len() == self.values@.len()
    }

    /// A file with no entries, as a missing file reads.
    pub fn empty() -> (r: EnvFile)
        ensures
            r.wf(),
            r@ == Seq::<(Seq<char>, Seq<char>)>::empty(),
    {
        let r = EnvFile { keys: Vec::new(), values: Vec::new() };
        assert(r@ =~= Seq::<(Seq<char>, Seq<char>)>::empty());
        r
    }

    fn push_entry(&mut self, k: Vec<char>, v: Vec<char>)
        requires
            old(self).wf(),
        ensures
            final(self).wf(),
            final(self)@ == old(self)@.push((k@, v@)),
    {
        self.keys.push(string_of(&k));
        self.values.push(string_of(&v));
        assert(self@ =~= old(self)@.push((k@, v@)));
    }

    /// Parses a configuration file text.
    pub fn parse(text: &str) -> (r: EnvFile)
        ensures
            r.wf(),
            r@ == parse_env(text@),
    {
        let cs = chars_of(text);
        let mut out = EnvFile::empty();
        let mut cur: Vec<char> = Vec::new();
        let mut i: usize = 0;
        while i < cs.len()
            invariant
                i <= cs.len(),
                cs@ == text@,
                out.wf(),
                split_lines(cs@.subrange(0, i as int)).len() >= 1,
                cur@ == split_lines(cs@.subrange(0, i as int)).last(),
                out@ == parse_upto(
                    split_lines(cs@.subrange(0, i as int)),
                    split_lines(cs@.subrange(0, i as int)).len() - 1,
                ),
            decreases cs.len() - i,
        {
            let ghost prev = split_lines(cs@.subrange(0, i as int));
            let c = cs[i];
            assert(cs@.subrange(0, i + 1).drop_last() == cs@.subrange(0, i as int));
            let ghost next = split_lines(cs@.subrange(0, i + 1));
            if c == '\n' {
                assert(next == prev.push(Seq::empty()));
                proof {
                    lemma_parse_upto_prefix(prev, next, prev.len() as int);
                }
                match parse_line_chars(&cur) {
                    Some((k, v)) => {
                        out.push_entry(k, v);
                    },
                    None => {},
                }
                cur = Vec::new();
            } else {
                assert(next == prev.update(prev.len() - 1, prev.last().push(c)));
                proof {
                    lemma_parse_upto_prefix(prev, next, prev.len() - 1);
                }
                cur.push(c);
            }
            i = i + 1;
        }
        assert(cs@.subrange(0, cs@.len() as int) == cs@);
        match parse_line_chars(&cur) {
            Some((k, v)) => {
                out.push_entry(k, v);
            },
            None => {},
        }
        out
    }

    /// The value of the last entry with key `key`.
    pub fn get(&self, key: &str) -> (r: Option<String>)
        requires
            self.wf(),
        ensures
            r is Some <==> lookup(self@, key@) is Some,
            r is Some ==> lookup(self@, key@) == Some(r->Some_0@),
    {
        let kc = chars_of(key);
        let mut n: usize = self.keys.len();
        while n > 0
            invariant
                n <= self.keys@.len(),
                self.wf(),
                kc@ == key@,
                lookup(self@, key@) == lookup_upto(self@, key@, n as int),
            decreases n,
        {
            let kk = chars_of(self.keys[n - 1].as_str());
            if chars_equal(&kk, &kc) {
                return Some(self.values[n - 1].clone());
            }
            n = n - 1;
        }
        None
    }
}

pub fn chars_equal(a: &Vec<char>, b: &Vec<char>) -> (r: bool)
    ensures
        r == (a@ == b@),
{
    if a.len() != b.len() {
        return false;
    }
    let mut i: usize = 0;
    while i < a.len()
        invariant
            i <= a.len(),
            a.len() == b.len(),
            forall|k: int| 0 <= k < i ==> a@[k] == b@[k],
        decreases a.len() - i,
    {
        if a[i] != b[i] {
            return false;
        }
        i = i + 1;
    }
    assert(a@ =~= b@);
    true
}

proof fn lemma_parse_upto_prefix(a: Seq<Seq<char>>, b: Seq<Seq<char>>, n: int)
    requires
        0 <= n <= a.len(),
        n <= b.len(),
        forall|j: int| 0 <= j < n ==> a[j] == b[j],
    ensures
        parse_upto(a, n) == parse_upto(b, n),
    decreases n,
{
    if n > 0 {
        lemma_parse_upto_prefix(a, b, n - 1);
    }
}

fn find_char_in(s: &Vec<char>, c: char) -> (r: Option<usize>)
    ensures
        r is Some <==> find_char(s@, c) is Some,
        r is Some ==> find_char(s@, c) == Some(r->Some_0 as int) && r->Some_0 < s@.len(),
{
    let mut i: usize = 0;
    while i < s.len()
        invariant
            i <= s.len(),
            forall|k: int| 0 <= k < i ==> s@[k] != c,
        decreases s.len() - i,
    {
        if s[i] == c {
            proof {
                lemma_find_char_first(s@, c, i as int);
            }
            return Some(i);
        }
        i = i + 1;
    }
    proof {
        lemma_find_char_none(s@, c);
    }
    None
}

pub proof fn lemma_find_char_first(s: Seq<char>, c: char, i: int)
    requires
        0 <= i < s.len(),
        s[i] == c,
        forall|k: int| 0 <= k < i ==> s[k] != c,
    ensures
        find_char(s, c) == Some(i),
    decreases i,
{
    if i > 0 {
        lemma_find_char_first(s.drop_first(), c, i - 1);
    }
}

pub proof fn lemma_find_char_none(s: Seq<char>, c: char)
    requires
        forall|k: int| 0 <= k < s.len() ==> s[k] != c,
    ensures
        find_char(s, c) is None,
    decreases s.len(),
{
    if s.len() > 0 {
        lemma_find_char_none(s.drop_first(), c);
    }
}

fn sub_chars(s: &Vec<char>, from: usize, to: usize) -> (r: Vec<char>)
    requires
        from <= to <= s.len(),
    ensures
        r@ == s@.subrange(from as int, to as int),
{
    let mut out: Vec<char> = Vec::new();
    let mut k: usize = from;
    while k < to
        invariant
            from <= k <= to,
            to <= s.len(),
            out@ == s@.subrange(from as int, k as int),
        decreases to - k,
    {
        out.push(s[k]);
        k = k + 1;
        assert(out@ == s@.subrange(from as int, k as int));
    }
    out
}

fn parse_line_chars(line: &Vec<char>) -> (r: Option<(Vec<char>, Vec<char>)>)
    ensures
        match parse_line(line@) {
            Some((k, v)) => r is Some && r->Some_0.0@ == k && r->Some_0.1@ == v,
            None => r is None,
        },
{
    let s = trim_chars(line);
    if s.len() == 0 || s[0] == '#' {
        return None;
    }
    match find_char_in(&s, '=') {
        None => None,
        Some(i) => {
            let k = trim_chars(&sub_chars(&s, 0, i));
            let v = trim_chars(&sub_chars(&s, i + 1, s.len()));
            if k.len() == 0 {
                None
            } else {
                Some((k, v))
            }
        },
    }
}

pub open spec fn no_newline(s: Seq<char>) -> bool {
    forall|i: int| 0 <= i < s.len() ==> #[trigger] s[i] != '\n'
}

/// Empty, or neither starting nor ending with whitespace.
pub open spec fn clean(s: Seq<char>) -> bool {
    s.len() == 0 || (!is_ws(s[0]) && !is_ws(s.last()))
}

/// A key as the file writes it: not empty, not a comment, without whitespace
/// or `=`.
pub open spec fn key_ok(k: Seq<char>) -> bool {
    k.len() > 0 && k[0] != '#' && forall|i: int|
        0 <= i < k.len() ==> !is_ws(#[trigger] k[i]) && k[i] != '='
}

/// The line `KEY=VALUE`.
pub open spec fn kv_line(k: Seq<char>, v: Seq<char>) -> Seq<char> {
    k + seq!['='] + v
}

proof fn lemma_split_single(s: Seq<char>)
    requires
        no_newline(s),
    ensures
        split_lines(s) == seq![s],
    decreases s.len(),
{
    if s.len() > 0 {
        lemma_split_single(s.drop_last());
        assert(s.drop_last().push(s.last()) =~= s);
        assert(seq![s.drop_last()].update(0, s) =~= seq![s]);
    } else {
        assert(s =~= Seq::<char>::empty());
    }
}

proof fn lemma_split_after_newline(a: Seq<char>, b: Seq<char>)
    requires
        no_newline(b),
    ensures
        split_lines(a + seq!['\n'] + b) == split_lines(a).push(b),
    decreases b.len(),
{
    let s = a + seq!['\n'] + b;
    if b.len() == 0 {
        assert(s.drop_last() =~= a);
        assert(b =~= Seq::<char>::empty());
    } else {
        let b2 = b.drop_last();
        lemma_split_after_newline(a, b2);
        assert(s.drop_last() =~= a + seq!['\n'] + b2);
        assert(s.last() == b.last());
        assert(b2.push(b.last()) =~= b);
        assert(split_lines(a).push(b2).update(split_lines(a).len() as int, b)
            =~= split_lines(a).push(b));
    }
}

/// Splitting joined lines gives the lines back.
pub proof fn lemma_split_join(ls: Seq<Seq<char>>)
    requires
        ls.len() >= 1,
        forall|i: int| 0 <= i < ls.len() ==> no_newline(#[trigger] ls[i]),
    ensures
        split_lines(join_lines(ls)) == ls,
    decreases ls.len(),
{
    if ls.len() == 1 {
        lemma_split_single(ls[0]);
        assert(seq![ls[0]] =~= ls);
    } else {
        let init = ls.drop_last();
        assert forall|i: int| 0 <= i < init.len() implies no_newline(#[trigger] init[i]) by {
            assert(init[i] == ls[i]);
        }
        lemma_split_join(init);
        assert(no_newline(ls[ls.len() - 1]));
        lemma_split_after_newline(join_lines(init), ls.last());
        assert(init.push(ls.last()) =~= ls);
    }
}

/// Whitespace trimming leaves a clean text alone.
pub proof fn lemma_clean_trim(s: Seq<char>)
    requires
        clean(s),
    ensures
        trim_start(s) == s,
        trim_end(s) == s,
        trim(s) == s,
{
}

proof fn lemma_strip_end_last(y: Seq<char>, c: char, ws: bool)
    ensures
        strip_end(y, c, ws).len() > 0 ==> !strips(strip_end(y, c, ws).last(), c, ws),
    decreases y.len(),
{
    if y.len() > 0 && strips(y.last(), c, ws) {
        lemma_strip_end_last(y.drop_last(), c, ws);
    }
}

proof fn lemma_trim_start_suffix(s: Seq<char>)
    ensures
        trim_start(s).len() <= s.len(),
        trim_start(s) == s.subrange(s.len() - trim_start(s).len(), s.len() as int),
    decreases s.len(),
{
    if s.len() > 0 && is_ws(s[0]) {
        lemma_trim_start_suffix(s.drop_first());
        let t = trim_start(s.drop_first());
        assert(s.drop_first().subrange(
            s.drop_first().len() - t.len(),
            s.drop_first().len() as int,
        ) =~= s.subrange(s.len() - t.len(), s.len() as int));
    } else {
        assert(s.subrange(0, s.len() as int) =~= s);
    }
}

/// Trimming gives a clean text, and adds no line break.
pub proof fn lemma_trim_clean(x: Seq<char>)
    ensures
        clean(trim(x)),
        no_newline(x) ==> no_newline(trim(x)),
{
    let y = trim_start(x);
    lemma_trim_start_blank(x);
    lemma_trim_start_suffix(x);
    lemma_strip_end_prefix(y, ' ', true);
    lemma_strip_end_last(y, ' ', true);
    let z = strip_end(y, ' ', true);
    if y.len() > 0 {
        lemma_strip_end_ws_empty(y);
        assert(z[0] == y[0]);
    }
    if no_newline(x) {
        assert forall|i: int| 0 <= i < z.len() implies #[trigger] z[i] != '\n' by {
            assert(z[i] == y[i]);
            assert(y[i] == x[x.len() - y.len() + i]);
        }
    }
}

proof fn lemma_strip_end_concat(a: Seq<char>, b: Seq<char>)
    requires
        a.len() > 0,
        !is_ws(a.last()),
    ensures
        strip_end(a + b, ' ', true) == a + strip_end(b, ' ', true),
    decreases b.len(),
{
    if b.len() == 0 {
        assert(a + b =~= a);
        assert(a + Seq::<char>::empty() =~= a);
    } else {
        assert((a + b).last() == b.last());
        if is_ws(b.last()) {
            assert((a + b).drop_last() =~= a + b.drop_last());
            lemma_strip_end_concat(a, b.drop_last());
        }
    }
}

/// A `KEY=VALUE` line reads as its key and its value trimmed.
pub proof fn lemma_parse_kv(k: Seq<char>, v: Seq<char>)
    requires
        key_ok(k),
    ensures
        parse_line(kv_line(k, v)) == Some((k, trim(trim_end(v)))),
{
    let s = kv_line(k, v);
    let ke = k + seq!['='];
    assert(s[0] == k[0]);
    assert(trim_start(s) == s);
    lemma_strip_end_concat(ke, v);
    let t = ke + trim_end(v);
    assert(trim(s) == t);
    assert forall|i: int| 0 <= i < k.len() implies t[i] != '=' by {
        assert(t[i] == k[i]);
    }
    lemma_find_char_first(t, '=', k.len() as int);
    assert(t.subrange(0, k.len() as int) =~= k);
    assert(!is_ws(k[k.len() - 1]));
    lemma_clean_trim(k);
    assert(t.subrange(k.len() + 1int, t.len() as int) =~= trim_end(v));
}

/// A comment line reads as nothing.
pub proof fn lemma_parse_comment(line: Seq<char>)
    requires
        line.len() > 0,
        line[0] == '#',
    ensures
        parse_line(line) is None,
{
    assert(trim_start(line) == line);
    lemma_strip_end_prefix(line, ' ', true);
    lemma_strip_end_ws_empty(line);
    let t = trim(line);
    assert(t[0] == line[0]);
}

pub proof fn lemma_parse_blank()
    ensures
        parse_line(Seq::<char>::empty()) is None,
{
    assert(trim(Seq::<char>::empty()) =~= Seq::<char>::empty());
}

proof fn lemma_split_lines_no_newline(s: Seq<char>)
    ensures
        split_lines(s).len() >= 1,
        forall|i: int|
            0 <= i < split_lines(s).len() ==> no_newline(#[trigger] split_lines(s)[i]),
    decreases s.len(),
{
    if s.len() > 0 {
        lemma_split_lines_no_newline(s.drop_last());
        let prev = split_lines(s.drop_last());
        let cur = split_lines(s);
        if s.last() != '\n' {
            let l = prev.last().push(s.last());
            assert(no_newline(prev[prev.len() - 1]));
            assert forall|j: int| 0 <= j < l.len() implies #[trigger] l[j] != '\n' by {
                if j < l.len() - 1 {
                    assert(l[j] == prev.last()[j]);
                }
            }
            assert forall|i: int| 0 <= i < cur.len() implies no_newline(#[trigger] cur[i]) by {
                if i < cur.len() - 1 {
                    assert(cur[i] == prev[i]);
                }
            }
        } else {
            assert forall|i: int| 0 <= i < cur.len() implies no_newline(#[trigger] cur[i]) by {
                if i < cur.len() - 1 {
                    assert(cur[i] == prev[i]);
                }
            }
        }
    }
}

proof fn lemma_parse_line_clean(line: Seq<char>)
    requires
        no_newline(line),
    ensures
        parse_line(line) is Some ==> clean(parse_line(line)->Some_0.1) && no_newline(
            parse_line(line)->Some_0.1,
        ),
{
    let s = trim(line);
    lemma_trim_clean(line);
    match find_char(s, '=') {
        Some(i) => {
            if 0 <= i + 1 <= s.len() {
                let rest = s.subrange(i + 1, s.len() as int);
                assert forall|j: int| 0 <= j < rest.len() implies #[trigger] rest[j] != '\n' by {
                    assert(rest[j] == s[i + 1 + j]);
                }
                lemma_trim_clean(rest);
            }
        },
        None => {},
    }
    lemma_find_char_bound(s, '=');
}

proof fn lemma_find_char_bound(s: Seq<char>, c: char)
    ensures
        find_char(s, c) is Some ==> 0 <= find_char(s, c)->Some_0 < s.len(),
    decreases s.len(),
{
    if s.len() > 0 && s[0] != c {
        lemma_find_char_bound(s.drop_first(), c);
    }
}

proof fn lemma_parse_upto_clean(ls: Seq<Seq<char>>, n: int)
    requires
        0 <= n <= ls.len(),
        forall|i: int| 0 <= i < ls.len() ==> no_newline(#[trigger] ls[i]),
    ensures
        forall|j: int|
            0 <= j < parse_upto(ls, n).len() ==> clean(#[trigger] parse_upto(ls, n)[j].1)
                && no_newline(parse_upto(ls, n)[j].1),
    decreases n,
{
    if n > 0 {
        lemma_parse_upto_clean(ls, n - 1);
        assert(no_newline(ls[n - 1]));
        lemma_parse_line_clean(ls[n - 1]);
        let prev = parse_upto(ls, n - 1);
        let cur = parse_upto(ls, n);
        assert forall|j: int| 0 <= j < cur.len() implies clean(#[trigger] cur[j].1) && no_newline(
            cur[j].1,
        ) by {
            if j < prev.len() {
                assert(cur[j] == prev[j]);
            }
        }
    }
}

/// Every value read from a file is clean and holds no line break.
pub proof fn lemma_parsed_values_clean(text: Seq<char>)
    ensures
        forall|j: int|
            0 <= j < parse_env(text).len() ==> clean(#[trigger] parse_env(text)[j].1)
                && no_newline(parse_env(text)[j].1),
{
    lemma_split_lines_no_newline(text);
    lemma_parse_upto_clean(split_lines(text), split_lines(text).len() as int);
}

/// What `lookup_upto` finds is the value of one of the entries.
pub proof fn lemma_lookup_is_entry(es: Seq<(Seq<char>, Seq<char>)>, k: Seq<char>, n: int)
    requires
        0 <= n <= es.len(),
    ensures
        lookup_upto(es, k, n) is Some ==> exists|j: int|
            0 <= j < n && es[j].1 == lookup_upto(es, k, n)->Some_0,
    decreases n,
{
    if n > 0 && es[n - 1].0 != k {
        lemma_lookup_is_entry(es, k, n - 1);
    }
}

/// A text always has at least one line.
pub proof fn lemma_split_lines_len(s: Seq<char>)
    ensures
        split_lines(s).len() >= 1,
    decreases s.len(),
{
    if s.len() > 0 {
        lemma_split_lines_len(s.drop_last());
    }
}

} // verus!
