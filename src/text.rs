use vstd::prelude::*;
use vstd::string::*;

verus! {

/// Unicode `White_Space` characters, as `char::is_whitespace` classifies them.
pub open spec fn is_ws(c: char) -> bool {
    let u = c as u32;
    u == 0x20 || (0x09 <= u && u <= 0x0d) || u == 0x85 || u == 0xa0 || u == 0x1680 || (0x2000
        <= u && u <= 0x200a) || u == 0x2028 || u == 0x2029 || u == 0x202f || u == 0x205f || u
        == 0x3000
}

pub open spec fn is_ascii_alnum(c: char) -> bool {
    ('0' <= c && c <= '9') || ('a' <= c && c <= 'z') || ('A' <= c && c <= 'Z')
}

pub open spec fn is_digit(c: char) -> bool {
    '0' <= c && c <= '9'
}

/// The text with leading whitespace removed.
pub open spec fn trim_start(s: Seq<char>) -> Seq<char>
    decreases s.len(),
{
    if s.len() > 0 && is_ws(s[0]) {
        trim_start(s.drop_first())
    } else {
        s
    }
}

/// Whether `x` is stripped: whitespace when `ws`, else the character `c`.
pub open spec fn strips(x: char, c: char, ws: bool) -> bool {
    if ws {
        is_ws(x)
    } else {
        x == c
    }
}

/// The text with trailing characters that `strips` removed.
pub open spec fn strip_end(s: Seq<char>, c: char, ws: bool) -> Seq<char>
    decreases s.len(),
{
    if s.len() > 0 && strips(s.last(), c, ws) {
        strip_end(s.drop_last(), c, ws)
    } else {
        s
    }
}

pub open spec fn trim_end(s: Seq<char>) -> Seq<char> {
    strip_end(s, ' ', true)
}

pub open spec fn trim(s: Seq<char>) -> Seq<char> {
    trim_end(trim_start(s))
}

/// The text with every trailing `c` removed.
pub open spec fn trim_end_char(s: Seq<char>, c: char) -> Seq<char> {
    strip_end(s, c, false)
}

/// Whether the text is empty once whitespace is trimmed.
pub open spec fn is_blank(s: Seq<char>) -> bool {
    forall|i: int| 0 <= i < s.len() ==> is_ws(#[trigger] s[i])
}

/// Whether `needle` occurs in `hay` at position `i`.
pub open spec fn occurs_at(hay: Seq<char>, needle: Seq<char>, i: int) -> bool {
    0 <= i && i + needle.len() <= hay.len() && hay.subrange(i, i + needle.len()) == needle
}

pub open spec fn contains(hay: Seq<char>, needle: Seq<char>) -> bool {
    exists|i: int| occurs_at(hay, needle, i)
}

pub open spec fn digit_char(d: nat) -> char {
    if d == 0 { '0' }
    else if d == 1 { '1' }
    else if d == 2 { '2' }
    else if d == 3 { '3' }
    else if d == 4 { '4' }
    else if d == 5 { '5' }
    else if d == 6 { '6' }
    else if d == 7 { '7' }
    else if d == 8 { '8' }
    else { '9' }
}

/// Decimal notation of `n`, without leading zeros.
pub open spec fn decimal(n: nat) -> Seq<char>
    decreases n,
{
    if n < 10 {
        seq![digit_char(n)]
    } else {
        decimal(n / 10).push(digit_char(n % 10))
    }
}

/// Decimal notation of `n` padded with zeros to at least two digits.
pub open spec fn decimal_pad2(n: nat) -> Seq<char> {
    if n < 10 {
        seq!['0', digit_char(n)]
    } else {
        decimal(n)
    }
}

pub open spec fn digits_value(s: Seq<char>) -> nat
    decreases s.len(),
{
    if s.len() == 0 {
        0
    } else {
        digits_value(s.drop_last()) * 10 + ((s.last() as u32 - '0' as u32) as nat)
    }
}

pub open spec fn all_digits(s: Seq<char>) -> bool {
    forall|i: int| 0 <= i < s.len() ==> is_digit(#[trigger] s[i])
}

/// What parsing a `u16` from decimal text yields: an optional `+`, one or more
/// digits, and a value that fits.
pub open spec fn parse_u16_spec(s: Seq<char>) -> Option<u16> {
    let body = if s.len() > 0 && s[0] == '+' {
        s.drop_first()
    } else {
        s
    };
    if body.len() > 0 && all_digits(body) && digits_value(body) <= 65535 {
        Some(digits_value(body) as u16)
    } else {
        None
    }
}

/// What `str::to_lowercase` makes of a text.
pub uninterp spec fn lower_of(s: Seq<char>) -> Seq<char>;

/// Relies on `str::to_lowercase`: Unicode lower-casing, which depends on the
/// characters alone.
#[verifier::external_body]
pub(crate) fn lowercase(s: &str) -> (r: String)
    ensures
        r@ == lower_of(s@),
{
    s.to_lowercase()
}

/// Relies on `str::chars`: the characters of the text, in order.
#[verifier::external_body]
pub(crate) fn chars_of(s: &str) -> (r: Vec<char>)
    ensures
        r@ == s@,
{
    s.chars().collect()
}

/// Relies on collecting characters into a `String`: the same characters, in order.
#[verifier::external_body]
pub(crate) fn string_of(v: &Vec<char>) -> (r: String)
    ensures
        r@ == v@,
{
    v.iter().collect()
}

pub fn is_ws_char(c: char) -> (r: bool)
    ensures
        r == is_ws(c),
{
    let u = c as u32;
    u == 0x20 || (0x09 <= u && u <= 0x0d) || u == 0x85 || u == 0xa0 || u == 0x1680 || (0x2000
        <= u && u <= 0x200a) || u == 0x2028 || u == 0x2029 || u == 0x202f || u == 0x205f || u
        == 0x3000
}

pub fn is_ascii_alnum_char(c: char) -> (r: bool)
    ensures
        r == is_ascii_alnum(c),
{
    ('0' <= c && c <= '9') || ('a' <= c && c <= 'z') || ('A' <= c && c <= 'Z')
}

proof fn lemma_trim_start_skip(s: Seq<char>, i: int)
    requires
        0 <= i <= s.len(),
        forall|k: int| 0 <= k < i ==> is_ws(#[trigger] s[k]),
    ensures
        trim_start(s) == trim_start(s.subrange(i, s.len() as int)),
    decreases i,
{
    if i > 0 {
        assert(s.drop_first() == s.subrange(1, s.len() as int));
        lemma_trim_start_skip(s.drop_first(), i - 1);
        assert(s.drop_first().subrange(i - 1, s.drop_first().len() as int) == s.subrange(
            i,
            s.len() as int,
        ));
    } else {
        assert(s.subrange(0, s.len() as int) == s);
    }
}

proof fn lemma_strip_end_skip(s: Seq<char>, c: char, ws: bool, j: int)
    requires
        0 <= j <= s.len(),
        forall|k: int| j <= k < s.len() ==> strips(#[trigger] s[k], c, ws),
    ensures
        strip_end(s, c, ws) == strip_end(s.subrange(0, j), c, ws),
    decreases s.len() - j,
{
    if j < s.len() {
        lemma_strip_end_skip(s.drop_last(), c, ws, j);
        assert(s.drop_last().subrange(0, j) == s.subrange(0, j));
    } else {
        assert(s.subrange(0, j) == s);
    }
}

fn strips_char(x: char, c: char, ws: bool) -> (r: bool)
    ensures
        r == strips(x, c, ws),
{
    if ws {
        is_ws_char(x)
    } else {
        x == c
    }
}

/// The characters of `s` with every trailing character equal to `c` (or, when
/// `ws`, every trailing whitespace) removed.
fn strip_end_chars(s: &Vec<char>, c: char, ws: bool) -> (r: Vec<char>)
    ensures
        r@ == strip_end(s@, c, ws),
{
    let mut j: usize = s.len();
    while j > 0 && strips_char(s[j - 1], c, ws)
        invariant
            j <= s.len(),
            forall|k: int| j <= k < s.len() ==> strips(#[trigger] s@[k], c, ws),
        decreases j,
    {
        j = j - 1;
    }
    proof {
        lemma_strip_end_skip(s@, c, ws, j as int);
        let t = s@.subrange(0, j as int);
        assert(t.len() > 0 ==> t.last() == s@[j - 1]);
    }
    let mut out: Vec<char> = Vec::new();
    let mut k: usize = 0;
    while k < j
        invariant
            k <= j <= s.len(),
            out@ == s@.subrange(0, k as int),
        decreases j - k,
    {
        out.push(s[k]);
        k = k + 1;
        assert(out@ == s@.subrange(0, k as int));
    }
    out
}

/// `trim_end_matches(c)` on a character vector.
pub fn trim_char_end(s: &Vec<char>, c: char) -> (r: Vec<char>)
    ensures
        r@ == trim_end_char(s@, c),
{
    strip_end_chars(s, c, false)
}

/// `str::trim` on a character vector.
pub fn trim_chars(s: &Vec<char>) -> (r: Vec<char>)
    ensures
        r@ == trim(s@),
{
    let mut i: usize = 0;
    while i < s.len() && is_ws_char(s[i])
        invariant
            i <= s.len(),
            forall|k: int| 0 <= k < i ==> is_ws(#[trigger] s@[k]),
        decreases s.len() - i,
    {
        i = i + 1;
    }
    proof {
        lemma_trim_start_skip(s@, i as int);
    }
    let mut rest: Vec<char> = Vec::new();
    let mut k: usize = i;
    while k < s.len()
        invariant
            i <= k <= s.len(),
            rest@ == s@.subrange(i as int, k as int),
        decreases s.len() - k,
    {
        rest.push(s[k]);
        k = k + 1;
        assert(rest@ == s@.subrange(i as int, k as int));
    }
    assert(trim_start(s@) == rest@);
    strip_end_chars(&rest, ' ', true)
}

/// `str::trim`.
pub fn trim_str(s: &str) -> (r: String)
    ensures
        r@ == trim(s@),
{
    let v = chars_of(s);
    let t = trim_chars(&v);
    string_of(&t)
}

/// `str::trim_end_matches` with a single character.
pub fn trim_end_char_str(s: &str, c: char) -> (r: String)
    ensures
        r@ == trim_end_char(s@, c),
{
    let v = chars_of(s);
    let t = strip_end_chars(&v, c, false);
    string_of(&t)
}

/// Whether the text is empty or all whitespace.
pub fn is_blank_str(s: &str) -> (r: bool)
    ensures
        r == is_blank(s@),
{
    let v = chars_of(s);
    let mut i: usize = 0;
    while i < v.len()
        invariant
            i <= v.len(),
            v@ == s@,
            forall|k: int| 0 <= k < i ==> is_ws(#[trigger] v@[k]),
        decreases v.len() - i,
    {
        if !is_ws_char(v[i]) {
            return false;
        }
        i = i + 1;
    }
    true
}

pub proof fn lemma_trim_start_blank(s: Seq<char>)
    ensures
        is_blank(s) ==> trim_start(s).len() == 0,
        !is_blank(s) ==> trim_start(s).len() > 0 && !is_ws(trim_start(s)[0]),
    decreases s.len(),
{
    if s.len() > 0 && is_ws(s[0]) {
        lemma_trim_start_blank(s.drop_first());
        if !is_blank(s) {
            let k = choose|k: int| 0 <= k < s.len() && !is_ws(#[trigger] s[k]);
            assert(!is_ws(s.drop_first()[k - 1]));
        }
        if is_blank(s) {
            assert forall|k: int| 0 <= k < s.drop_first().len() implies is_ws(
                #[trigger] s.drop_first()[k],
            ) by {
                assert(s.drop_first()[k] == s[k + 1]);
            }
        }
    } else if s.len() > 0 {
        assert(!is_ws(s[0]));
    }
}

pub proof fn lemma_strip_end_ws_empty(s: Seq<char>)
    requires
        s.len() == 0 || !is_ws(s[0]),
    ensures
        (strip_end(s, ' ', true).len() == 0) == (s.len() == 0),
    decreases s.len(),
{
    if s.len() > 0 && is_ws(s.last()) {
        assert(s.len() > 1);
        assert(s.drop_last()[0] == s[0]);
        lemma_strip_end_ws_empty(s.drop_last());
    }
}

pub open spec fn upper_ascii(c: char) -> char {
    if 'a' <= c && c <= 'z' {
        ((c as u8) - 32) as char
    } else {
        c
    }
}

/// The text with every leading `c` removed.
pub open spec fn trim_start_char(s: Seq<char>, c: char) -> Seq<char>
    decreases s.len(),
{
    if s.len() > 0 && s[0] == c {
        trim_start_char(s.drop_first(), c)
    } else {
        s
    }
}

pub fn upper_ascii_char(c: char) -> (r: char)
    ensures
        r == upper_ascii(c),
{
    if 'a' <= c && c <= 'z' {
        ((c as u8) - 32) as char
    } else {
        c
    }
}

proof fn lemma_trim_start_char_skip(s: Seq<char>, c: char, i: int)
    requires
        0 <= i <= s.len(),
        forall|k: int| 0 <= k < i ==> #[trigger] s[k] == c,
    ensures
        trim_start_char(s, c) == trim_start_char(s.subrange(i, s.len() as int), c),
    decreases i,
{
    if i > 0 {
        lemma_trim_start_char_skip(s.drop_first(), c, i - 1);
        assert(s.drop_first().subrange(i - 1, s.drop_first().len() as int) == s.subrange(
            i,
            s.len() as int,
        ));
    } else {
        assert(s.subrange(0, s.len() as int) == s);
    }
}

/// `trim_matches(c)` on a character vector: `c` removed at both ends.
pub fn trim_char_both(s: &Vec<char>, c: char) -> (r: Vec<char>)
    ensures
        r@ == trim_end_char(trim_start_char(s@, c), c),
{
    let mut i: usize = 0;
    while i < s.len() && s[i] == c
        invariant
            i <= s.len(),
            forall|k: int| 0 <= k < i ==> #[trigger] s@[k] == c,
        decreases s.len() - i,
    {
        i = i + 1;
    }
    proof {
        lemma_trim_start_char_skip(s@, c, i as int);
    }
    let mut rest: Vec<char> = Vec::new();
    let mut k: usize = i;
    while k < s.len()
        invariant
            i <= k <= s.len(),
            rest@ == s@.subrange(i as int, k as int),
        decreases s.len() - k,
    {
        rest.push(s[k]);
        k = k + 1;
        assert(rest@ == s@.subrange(i as int, k as int));
    }
    assert(trim_start_char(s@, c) == rest@);
    strip_end_chars(&rest, c, false)
}

/// Appends the decimal notation of `n`.
pub fn push_decimal(out: &mut Vec<char>, n: u64)
    ensures
        final(out)@ == old(out)@ + decimal(n as nat),
    decreases n,
{
    if n >= 10 {
        push_decimal(out, n / 10);
    }
    out.push(digit_of(n % 10));
    proof {
        if n >= 10 {
            assert(decimal(n as nat) == decimal((n / 10) as nat).push(digit_char((n % 10) as nat)));
        }
    }
}

pub fn digit_of(d: u64) -> (r: char)
    requires
        d < 10,
    ensures
        r == digit_char(d as nat),
{
    if d == 0 { '0' }
    else if d == 1 { '1' }
    else if d == 2 { '2' }
    else if d == 3 { '3' }
    else if d == 4 { '4' }
    else if d == 5 { '5' }
    else if d == 6 { '6' }
    else if d == 7 { '7' }
    else if d == 8 { '8' }
    else { '9' }
}

/// Decimal notation of `n` as a `String`.
pub fn decimal_string(n: u64) -> (r: String)
    ensures
        r@ == decimal(n as nat),
{
    let mut v: Vec<char> = Vec::new();
    push_decimal(&mut v, n);
    assert(v@ == decimal(n as nat));
    string_of(&v)
}

proof fn lemma_digit_char(d: nat)
    requires
        d < 10,
    ensures
        is_digit(digit_char(d)),
        ((digit_char(d) as u32 - '0' as u32) as nat) == d,
{
}

/// Reading a decimal back gives the number.
pub proof fn lemma_decimal_value(n: nat)
    ensures
        digits_value(decimal(n)) == n,
        all_digits(decimal(n)),
        decimal(n).len() > 0,
    decreases n,
{
    lemma_digit_char(n % 10);
    if n >= 10 {
        lemma_decimal_value(n / 10);
        let d = decimal(n / 10).push(digit_char(n % 10));
        assert(d.drop_last() == decimal(n / 10));
        assert(n == (n / 10) * 10 + n % 10);
        assert forall|i: int| 0 <= i < d.len() implies is_digit(#[trigger] d[i]) by {
            if i < d.len() - 1 {
                assert(d[i] == decimal(n / 10)[i]);
            }
        }
    } else {
        assert(seq![digit_char(n)].drop_last() =~= Seq::<char>::empty());
        assert(digits_value(Seq::<char>::empty()) == 0);
    }
}

pub proof fn lemma_decimal_pad2_value(n: nat)
    ensures
        digits_value(decimal_pad2(n)) == n,
        all_digits(decimal_pad2(n)),
        decimal_pad2(n).len() >= 2,
{
    lemma_decimal_value(n);
    lemma_digit_char(n % 10);
    if n < 10 {
        let d = seq!['0', digit_char(n)];
        assert(d.drop_last() =~= seq!['0']);
        assert(seq!['0'].drop_last() =~= Seq::<char>::empty());
        assert(digits_value(Seq::<char>::empty()) == 0);
        assert(digits_value(seq!['0']) == 0);
    } else {
        assert(decimal(n) == decimal(n / 10).push(digit_char(n % 10)));
        lemma_decimal_value(n / 10);
    }
}

/// `u16::from_str` on decimal text.
pub fn parse_u16(s: &str) -> (r: Option<u16>)
    ensures
        r == parse_u16_spec(s@),
{
    let v = chars_of(s);
    let mut i: usize = 0;
    if v.len() > 0 && v[0] == '+' {
        i = 1;
    }
    let ghost body = if s@.len() > 0 && s@[0] == '+' {
        s@.drop_first()
    } else {
        s@
    };
    assert(body == v@.subrange(i as int, v@.len() as int));
    if i >= v.len() {
        return None;
    }
    let mut val: u64 = 0;
    let mut over = false;
    let mut k: usize = i;
    while k < v.len()
        invariant
            i <= k <= v.len(),
            v@ == s@,
            body == v@.subrange(i as int, v@.len() as int),
            body == (if s@.len() > 0 && s@[0] == '+' {
                s@.drop_first()
            } else {
                s@
            }),
            all_digits(v@.subrange(i as int, k as int)),
            !over ==> val == digits_value(v@.subrange(i as int, k as int)) && val <= 65535,
            over ==> digits_value(v@.subrange(i as int, k as int)) > 65535,
        decreases v.len() - k,
    {
        let c = v[k];
        if !('0' <= c && c <= '9') {
            assert(body[k - i] == c);
            assert(!is_digit(body[k - i]));
            return None;
        }
        let ghost prev = v@.subrange(i as int, k as int);
        let ghost next = v@.subrange(i as int, k + 1);
        assert(next.drop_last() == prev);
        assert(all_digits(next)) by {
            assert forall|j: int| 0 <= j < next.len() implies is_digit(#[trigger] next[j]) by {
                if j < prev.len() {
                    assert(next[j] == prev[j]);
                }
            }
        }
        let d = (c as u32 - '0' as u32) as u64;
        if !over {
            let nv = val * 10 + d;
            if nv > 65535 {
                over = true;
            } else {
                val = nv;
            }
        } else {
            assert(digits_value(next) > 65535) by (nonlinear_arith)
                requires
                    digits_value(next) == digits_value(prev) * 10 + d,
                    digits_value(prev) > 65535,
            ;
        }
        k = k + 1;
    }
    assert(v@.subrange(i as int, v@.len() as int) == body);
    if over {
        None
    } else {
        Some(val as u16)
    }
}

/// Whether `needle` occurs in `hay`.
pub fn contains_chars(hay: &Vec<char>, needle: &Vec<char>) -> (r: bool)
    ensures
        r == contains(hay@, needle@),
{
    if needle.len() > hay.len() {
        proof {
            assert forall|i: int| !occurs_at(hay@, needle@, i) by {}
        }
        return false;
    }
    let mut i: usize = 0;
    while i <= hay.len() - needle.len()
        invariant
            needle.len() <= hay.len(),
            i <= hay.len() - needle.len() + 1,
            forall|j: int| 0 <= j < i ==> !occurs_at(hay@, needle@, j),
        decreases hay.len() - i,
    {
        let mut k: usize = 0;
        let mut same = true;
        while k < needle.len()
            invariant
                i + needle.len() <= hay.len(),
                k <= needle.len(),
                same == forall|m: int| 0 <= m < k ==> hay@[i + m] == needle@[m],
            decreases needle.len() - k,
        {
            if hay[i + k] != needle[k] {
                same = false;
            }
            k = k + 1;
        }
        if same {
            assert(hay@.subrange(i as int, i + needle.len()) =~= needle@);
            assert(occurs_at(hay@, needle@, i as int));
            return true;
        }
        proof {
            if hay@.subrange(i as int, i + needle.len()) == needle@ {
                let m = choose|m: int| 0 <= m < needle.len() && hay@[i + m] != needle@[m];
                assert(hay@.subrange(i as int, i + needle.len())[m] == hay@[i + m]);
            }
        }
        i = i + 1;
    }
    proof {
        assert forall|j: int| !occurs_at(hay@, needle@, j) by {
            if 0 <= j < i {
            }
        }
    }
    false
}

/// `strip_end` keeps a prefix of the text.
pub proof fn lemma_strip_end_prefix(s: Seq<char>, c: char, ws: bool)
    ensures
        strip_end(s, c, ws).len() <= s.len(),
        strip_end(s, c, ws) == s.subrange(0, strip_end(s, c, ws).len() as int),
    decreases s.len(),
{
    if s.len() > 0 && strips(s.last(), c, ws) {
        lemma_strip_end_prefix(s.drop_last(), c, ws);
        let t = strip_end(s.drop_last(), c, ws);
        assert(s.drop_last().subrange(0, t.len() as int) == s.subrange(0, t.len() as int));
    } else {
        assert(s.subrange(0, s.len() as int) == s);
    }
}

/// `trim_start_char` keeps a suffix of the text.
pub proof fn lemma_trim_start_char_suffix(s: Seq<char>, c: char)
    ensures
        trim_start_char(s, c).len() <= s.len(),
        trim_start_char(s, c) == s.subrange(
            s.len() - trim_start_char(s, c).len(),
            s.len() as int,
        ),
    decreases s.len(),
{
    if s.len() > 0 && s[0] == c {
        lemma_trim_start_char_suffix(s.drop_first(), c);
        let t = trim_start_char(s.drop_first(), c);
        assert(s.drop_first().subrange(
            s.drop_first().len() - t.len(),
            s.drop_first().len() as int,
        ) == s.subrange(s.len() - t.len(), s.len() as int));
    } else {
        assert(s.subrange(0, s.len() as int) == s);
    }
}

} // verus!
