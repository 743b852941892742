//! Names derived from tenant names: file-name slugs and device codes.
use vstd::prelude::*;
use vstd::string::*;
use crate::text::{
    chars_of, decimal, decimal_pad2, digit_char, is_ascii_alnum, is_ascii_alnum_char,
    lemma_decimal_pad2_value, lemma_strip_end_prefix, lemma_trim_start_char_suffix, lower_of,
    lowercase, push_decimal, string_of, trim, trim_char_both, trim_char_end, trim_end_char,
    trim_start_char, trim_str, upper_ascii, upper_ascii_char,
};

verus! {

/// Left-to-right scan that keeps ASCII letters and digits and turns each run of
/// other characters, after the first kept one, into a single `-`. The flag says
/// whether the last thing pushed was a `-`.
pub open spec fn slug_scan(s: Seq<char>) -> (Seq<char>, bool)
    decreases s.len(),
{
    if s.len() == 0 {
        (Seq::empty(), false)
    } else {
        let (out, last_dash) = slug_scan(s.drop_last());
        let ch = s.last();
        if is_ascii_alnum(ch) {
            (out.push(ch), false)
        } else if !last_dash && out.len() > 0 {
            (out.push('-'), true)
        } else {
            (out, last_dash)
        }
    }
}

/// The slug of an already lower-cased name: the scan without trailing hyphens,
/// or `company` where nothing is left.
pub open spec fn slug_of_lowered(l: Seq<char>) -> Seq<char> {
    let t = trim_end_char(slug_scan(l).0, '-');
    if t.len() == 0 {
        "company"@
    } else {
        t
    }
}

/// The slug of a raw name: trimmed, lower-cased, and passed to `slug_of_lowered`.
pub open spec fn slug_spec(raw: Seq<char>) -> Seq<char> {
    slug_of_lowered(lower_of(trim(raw)))
}

/// Scan that upper-cases ASCII letters and digits and collapses every run of
/// other characters into one `-`.
pub open spec fn prefix_scan(s: Seq<char>) -> Seq<char>
    decreases s.len(),
{
    if s.len() == 0 {
        Seq::empty()
    } else {
        let out = prefix_scan(s.drop_last());
        let ch = s.last();
        if is_ascii_alnum(ch) {
            out.push(upper_ascii(ch))
        } else if out.len() > 0 && out.last() == '-' {
            out
        } else {
            out.push('-')
        }
    }
}

/// Longest device-code prefix.
pub const PREFIX_MAX: usize = 14;

/// The device-code prefix of a tenant name: the scan with hyphens trimmed at
/// both ends, cut to `PREFIX_MAX` characters; `POS` where nothing is left.
pub open spec fn device_code_prefix_spec(name: Seq<char>) -> Seq<char> {
    let cleaned = trim_end_char(trim_start_char(prefix_scan(name), '-'), '-');
    if cleaned.len() == 0 {
        "POS"@
    } else if cleaned.len() <= PREFIX_MAX {
        cleaned
    } else {
        cleaned.take(PREFIX_MAX as int)
    }
}

pub open spec fn is_code_char(c: char) -> bool {
    ('0' <= c && c <= '9') || ('A' <= c && c <= 'Z') || c == '-'
}

/// A well-formed prefix: one to `PREFIX_MAX` upper-case letters, digits or hyphens.
pub open spec fn is_code_prefix(p: Seq<char>) -> bool {
    1 <= p.len() <= PREFIX_MAX && forall|i: int| 0 <= i < p.len() ==> is_code_char(#[trigger] p[i])
}

/// The code of device number `n` of a tenant with prefix `prefix`.
pub open spec fn device_code_spec(prefix: Seq<char>, n: nat) -> Seq<char> {
    prefix + "-POS-"@ + decimal_pad2(n)
}

proof fn lemma_upper_code_char(c: char)
    requires
        is_ascii_alnum(c),
    ensures
        is_code_char(upper_ascii(c)),
{
    if 'a' <= c && c <= 'z' {
        let b = c as u8;
        assert(b as u32 == c as u32);
        assert(((b - 32) as u8) as char as u32 == (b - 32) as u32);
    }
}

proof fn lemma_prefix_scan_chars(s: Seq<char>)
    ensures
        forall|i: int| 0 <= i < prefix_scan(s).len() ==> is_code_char(#[trigger] prefix_scan(s)[i]),
    decreases s.len(),
{
    if s.len() > 0 {
        lemma_prefix_scan_chars(s.drop_last());
        let prev = prefix_scan(s.drop_last());
        let cur = prefix_scan(s);
        if is_ascii_alnum(s.last()) {
            lemma_upper_code_char(s.last());
        }
        assert forall|i: int| 0 <= i < cur.len() implies is_code_char(#[trigger] cur[i]) by {
            if i < prev.len() {
                assert(cur[i] == prev[i]);
            }
        }
    }
}

/// Every device-code prefix is well formed.
pub proof fn lemma_device_code_prefix_valid(name: Seq<char>)
    ensures
        is_code_prefix(device_code_prefix_spec(name)),
{
    reveal_strlit("POS");
    let scanned = prefix_scan(name);
    lemma_prefix_scan_chars(name);
    let a = trim_start_char(scanned, '-');
    lemma_trim_start_char_suffix(scanned, '-');
    let b = trim_end_char(a, '-');
    lemma_strip_end_prefix(a, '-', false);
    assert forall|i: int| 0 <= i < b.len() implies is_code_char(#[trigger] b[i]) by {
        assert(b[i] == a[i]);
        assert(a[i] == scanned[scanned.len() - a.len() + i]);
    }
}

/// Device codes of one tenant are pairwise distinct.
pub proof fn lemma_device_codes_distinct(prefix: Seq<char>, i: nat, j: nat)
    requires
        i != j,
    ensures
        device_code_spec(prefix, i) != device_code_spec(prefix, j),
{
    reveal_strlit("-POS-");
    lemma_decimal_pad2_value(i);
    lemma_decimal_pad2_value(j);
    let a = device_code_spec(prefix, i);
    let b = device_code_spec(prefix, j);
    if a == b {
        assert(a.subrange(prefix.len() + 5int, a.len() as int) == decimal_pad2(i));
        assert(b.subrange(prefix.len() + 5int, b.len() as int) == decimal_pad2(j));
    }
}

/// Name slug for file names.
pub fn slug_from_lowered(lowered: &str) -> (r: String)
    ensures
        r@ == slug_of_lowered(lowered@),
{
    let v = chars_of(lowered);
    let mut out: Vec<char> = Vec::new();
    let mut last_dash = false;
    let mut i: usize = 0;
    while i < v.len()
        invariant
            i <= v.len(),
            v@ == lowered@,
            (out@, last_dash) == slug_scan(v@.subrange(0, i as int)),
        decreases v.len() - i,
    {
        let ch = v[i];
        assert(v@.subrange(0, i + 1).drop_last() == v@.subrange(0, i as int));
        if is_ascii_alnum_char(ch) {
            out.push(ch);
            last_dash = false;
        } else if !last_dash && out.len() > 0 {
            out.push('-');
            last_dash = true;
        }
        i = i + 1;
    }
    assert(v@.subrange(0, v@.len() as int) == v@);
    let t = trim_char_end(&out, '-');
    if t.len() == 0 {
        String::from_str("company")
    } else {
        string_of(&t)
    }
}

/// Lower-case, hyphen-separated rendering of a tenant or device name for file
/// names; `company` when nothing usable remains.
pub fn slug(raw: &str) -> (r: String)
    ensures
        r@ == slug_spec(raw@),
{
    let t = trim_str(raw);
    let l = lowercase(t.as_str());
    slug_from_lowered(l.as_str())
}

/// The device-code prefix of a tenant name.
pub fn device_code_prefix(company_name: &str) -> (r: String)
    ensures
        r@ == device_code_prefix_spec(company_name@),
        is_code_prefix(r@),
{
    proof {
        lemma_device_code_prefix_valid(company_name@);
    }
    let v = chars_of(company_name);
    let mut cleaned: Vec<char> = Vec::new();
    let mut i: usize = 0;
    while i < v.len()
        invariant
            i <= v.len(),
            v@ == company_name@,
            cleaned@ == prefix_scan(v@.subrange(0, i as int)),
        decreases v.len() - i,
    {
        let ch = v[i];
        assert(v@.subrange(0, i + 1).drop_last() == v@.subrange(0, i as int));
        if is_ascii_alnum_char(ch) {
            cleaned.push(upper_ascii_char(ch));
        } else if !(cleaned.len() > 0 && cleaned[cleaned.len() - 1] == '-') {
            cleaned.push('-');
        }
        i = i + 1;
    }
    assert(v@.subrange(0, v@.len() as int) == v@);
    let t = trim_char_both(&cleaned, '-');
    if t.len() == 0 {
        return String::from_str("POS");
    }
    let mut out: Vec<char> = Vec::new();
    let mut k: usize = 0;
    while k < t.len() && k < PREFIX_MAX
        invariant
            k <= t.len(),
            k <= PREFIX_MAX,
            out@ == t@.subrange(0, k as int),
        decreases t.len() - k,
    {
        out.push(t[k]);
        k = k + 1;
        assert(out@ == t@.subrange(0, k as int));
    }
    assert(t@.len() <= PREFIX_MAX ==> out@ == t@);
    string_of(&out)
}

/// `{prefix}-POS-{n:02}`.
pub fn device_code(prefix: &str, n: u16) -> (r: String)
    ensures
        r@ == device_code_spec(prefix@, n as nat),
{
    let mut v = chars_of(prefix);
    v.push('-');
    v.push('P');
    v.push('O');
    v.push('S');
    v.push('-');
    if n < 10 {
        v.push('0');
    }
    push_decimal(&mut v, n as u64);
    proof {
        reveal_strlit("-POS-");
        if n < 10 {
            assert(decimal(n as nat) == seq![digit_char(n as nat)]);
        }
    }
    assert(v@ == device_code_spec(prefix@, n as nat));
    string_of(&v)
}

} // verus!
