//! Reconciles a document that declares the next minor schema version with
//! the version the parser understands.
//!
//! The declared version is read from the raw bytes without parsing them: in
//! JSON it is the string value of the first `"specVersion"` key, in XML the
//! version at the end of the first CycloneDX namespace
//! `http://cyclonedx.org/schema/bom/<version>`. When it is exactly the next
//! minor version above the target, that token alone is replaced by the
//! target; in every other case the bytes are returned as they are. This is a
//! best-effort downgrade: a document that uses fields of the newer version
//! still fails to parse afterwards.
use crate::lib_utils::input_file_type::InputFileType;
use vstd::prelude::*;

verus! {

pub const QUOTE: u8 = 34;

pub const APOSTROPHE: u8 = 39;

pub const COLON: u8 = 58;

pub const DOT: u8 = 46;

pub const DIGIT_ZERO: u8 = 48;

pub const DIGIT_ONE: u8 = 49;

pub const DIGIT_NINE: u8 = 57;

/// The JSON key that holds the declared version, with its quotes.
pub open spec fn json_key() -> Seq<u8> {
    // "specVersion"
    seq![34, 115, 112, 101, 99, 86, 101, 114, 115, 105, 111, 110, 34]
}

/// The CycloneDX namespace, up to the version that ends it.
pub open spec fn xml_namespace() -> Seq<u8> {
    // http://cyclonedx.org/schema/bom/
    seq![
        104, 116, 116, 112, 58, 47, 47, 99, 121, 99, 108, 111, 110, 101, 100, 120, 46, 111, 114,
        103, 47, 115, 99, 104, 101, 109, 97, 47, 98, 111, 109, 47,
    ]
}

pub open spec fn is_ws(b: u8) -> bool {
    b == 32 || b == 9 || b == 10 || b == 13
}

pub open spec fn is_digit(b: u8) -> bool {
    DIGIT_ZERO <= b <= DIGIT_NINE
}

/// A non-empty run of decimal digits.
pub open spec fn is_digits(s: Seq<u8>) -> bool {
    s.len() > 0 && forall|k: int| 0 <= k < s.len() ==> is_digit(#[trigger] s[k])
}

/// Whether `pat` occurs in `s` at position `i`.
pub open spec fn occurs_at(s: Seq<u8>, pat: Seq<u8>, i: int) -> bool {
    0 <= i && i + pat.len() <= s.len() && s.subrange(i, i + pat.len()) == pat
}

/// The first position at or after `i` where `pat` occurs in `s`.
pub open spec fn first_match(s: Seq<u8>, pat: Seq<u8>, i: int) -> Option<int>
    decreases s.len() + 1 - i,
{
    if i < 0 || i + pat.len() > s.len() {
        None
    } else if occurs_at(s, pat, i) {
        Some(i)
    } else {
        first_match(s, pat, i + 1)
    }
}

/// The first position at or after `i` that does not hold whitespace.
pub open spec fn skip_ws(s: Seq<u8>, i: int) -> int
    decreases s.len() - i,
{
    if 0 <= i < s.len() && is_ws(s[i]) {
        skip_ws(s, i + 1)
    } else {
        i
    }
}

/// The first position at or after `i` that holds `q1` or `q2`, or the end.
pub open spec fn scan_to(s: Seq<u8>, i: int, q1: u8, q2: u8) -> int
    decreases s.len() - i,
{
    if 0 <= i < s.len() && s[i] != q1 && s[i] != q2 {
        scan_to(s, i + 1, q1, q2)
    } else {
        i
    }
}

/// Where the version token of a JSON document lies: the string value of the
/// first `"specVersion"` key.
pub open spec fn json_span(s: Seq<u8>) -> Option<(int, int)> {
    match first_match(s, json_key(), 0) {
        Some(p) => {
            let a = skip_ws(s, p + json_key().len());
            if a < s.len() && s[a] == COLON {
                let b = skip_ws(s, a + 1);
                if b < s.len() && s[b] == QUOTE {
                    let e = scan_to(s, b + 1, QUOTE, QUOTE);
                    if e < s.len() {
                        Some((b + 1, e))
                    } else {
                        None
                    }
                } else {
                    None
                }
            } else {
                None
            }
        },
        None => None,
    }
}

/// Where the version token of an XML document lies: after the first
/// CycloneDX namespace prefix, up to the closing quote.
pub open spec fn xml_span(s: Seq<u8>) -> Option<(int, int)> {
    match first_match(s, xml_namespace(), 0) {
        Some(p) => {
            let a = p + xml_namespace().len();
            let e = scan_to(s, a, QUOTE, APOSTROPHE);
            if e < s.len() {
                Some((a, e))
            } else {
                None
            }
        },
        None => None,
    }
}

pub open spec fn declared_span(s: Seq<u8>, ft: InputFileType) -> Option<(int, int)> {
    match ft {
        InputFileType::JSON => json_span(s),
        InputFileType::XML => xml_span(s),
    }
}

/// The version a document declares, if it can be found.
pub open spec fn declared_version(s: Seq<u8>, ft: InputFileType) -> Option<Seq<u8>> {
    match declared_span(s, ft) {
        Some((a, e)) => Some(s.subrange(a, e)),
        None => None,
    }
}

/// The decimal successor of a run of digits.
pub open spec fn incr(n: Seq<u8>) -> Seq<u8>
    decreases n.len(),
{
    if n.len() == 0 {
        seq![DIGIT_ONE]
    } else if n.last() == DIGIT_NINE {
        incr(n.drop_last()).push(DIGIT_ZERO)
    } else {
        n.drop_last().push((n.last() + 1) as u8)
    }
}

/// The major and minor parts of a `major.minor` version.
pub open spec fn version_parts(t: Seq<u8>) -> Option<(Seq<u8>, Seq<u8>)> {
    let d = scan_to(t, 0, DOT, DOT);
    if d < t.len() && is_digits(t.take(d)) && is_digits(t.skip(d + 1)) {
        Some((t.take(d), t.skip(d + 1)))
    } else {
        None
    }
}

/// The next minor version above a `major.minor` version.
pub open spec fn next_minor(t: Seq<u8>) -> Option<Seq<u8>> {
    match version_parts(t) {
        Some((m, n)) => Some(m + seq![DOT] + incr(n)),
        None => None,
    }
}

/// Whether the shim rewrites the document: it declares exactly the next
/// minor version above the target.
pub open spec fn downgrades(raw: Seq<u8>, target: Seq<u8>, ft: InputFileType) -> bool {
    declared_version(raw, ft) is Some && next_minor(target) == declared_version(raw, ft)
}

/// The bytes the shim hands to the parser.
pub open spec fn normalized(raw: Seq<u8>, target: Seq<u8>, ft: InputFileType) -> Seq<u8> {
    if downgrades(raw, target, ft) {
        let (a, e) = declared_span(raw, ft)->0;
        raw.take(a) + target + raw.skip(e)
    } else {
        raw
    }
}

proof fn lemma_skip_ws_ge(s: Seq<u8>, i: int)
    ensures
        skip_ws(s, i) >= i,
    decreases s.len() - i,
{
    if 0 <= i < s.len() && is_ws(s[i]) {
        lemma_skip_ws_ge(s, i + 1);
    }
}

proof fn lemma_scan_to_ge(s: Seq<u8>, i: int, q1: u8, q2: u8)
    ensures
        scan_to(s, i, q1, q2) >= i,
        0 <= i ==> scan_to(s, i, q1, q2) < s.len() ==> s[scan_to(s, i, q1, q2)] == q1 || s[scan_to(
            s,
            i,
            q1,
            q2,
        )] == q2,
    decreases s.len() - i,
{
    if 0 <= i < s.len() && s[i] != q1 && s[i] != q2 {
        lemma_scan_to_ge(s, i + 1, q1, q2);
    }
}

/// Scanning stops at the first stop byte.
proof fn lemma_scan_to_stops(s: Seq<u8>, i: int, j: int, q1: u8, q2: u8)
    requires
        0 <= i <= j < s.len(),
        forall|k: int| i <= k < j ==> s[k] != q1 && s[k] != q2,
        s[j] == q1 || s[j] == q2,
    ensures
        scan_to(s, i, q1, q2) == j,
    decreases j - i,
{
    if i < j {
        lemma_scan_to_stops(s, i + 1, j, q1, q2);
    }
}

/// Two sequences that agree below `l`.
pub open spec fn agree_below(s1: Seq<u8>, s2: Seq<u8>, l: int) -> bool {
    l <= s1.len() && l <= s2.len() && forall|k: int| 0 <= k < l ==> s1[k] == s2[k]
}

proof fn lemma_first_match_agree(s1: Seq<u8>, s2: Seq<u8>, pat: Seq<u8>, i: int, l: int)
    requires
        0 <= i,
        agree_below(s1, s2, l),
        first_match(s1, pat, i) is Some,
        first_match(s1, pat, i)->0 + pat.len() <= l,
    ensures
        first_match(s2, pat, i) == first_match(s1, pat, i),
    decreases s1.len() + 1 - i,
{
    let p = first_match(s1, pat, i)->0;
    assert(i <= p) by {
        lemma_first_match_ge(s1, pat, i);
    }
    assert(s1.subrange(i, i + pat.len()) =~= s2.subrange(i, i + pat.len()));
    if !occurs_at(s1, pat, i) {
        lemma_first_match_agree(s1, s2, pat, i + 1, l);
    }
}

proof fn lemma_first_match_ge(s: Seq<u8>, pat: Seq<u8>, i: int)
    ensures
        first_match(s, pat, i) is Some ==> first_match(s, pat, i)->0 >= i,
    decreases s.len() + 1 - i,
{
    if !(i < 0 || i + pat.len() > s.len()) && !occurs_at(s, pat, i) {
        lemma_first_match_ge(s, pat, i + 1);
    }
}

proof fn lemma_skip_ws_agree(s1: Seq<u8>, s2: Seq<u8>, i: int, l: int)
    requires
        0 <= i,
        agree_below(s1, s2, l),
        skip_ws(s1, i) < l,
    ensures
        skip_ws(s2, i) == skip_ws(s1, i),
    decreases s1.len() - i,
{
    if i < s1.len() && is_ws(s1[i]) {
        lemma_skip_ws_agree(s1, s2, i + 1, l);
        lemma_skip_ws_ge(s1, i + 1);
    }
}

/// Every byte of a `major.minor` version is a digit or the dot.
proof fn lemma_version_bytes(t: Seq<u8>)
    requires
        version_parts(t) is Some,
    ensures
        forall|k: int| 0 <= k < t.len() ==> is_digit(#[trigger] t[k]) || t[k] == DOT,
{
    let d = scan_to(t, 0, DOT, DOT);
    lemma_scan_to_ge(t, 0, DOT, DOT);
    assert forall|k: int| 0 <= k < t.len() implies is_digit(#[trigger] t[k]) || t[k] == DOT by {
        if k < d {
            assert(t.take(d)[k] == t[k]);
        } else if k > d {
            assert(t.skip(d + 1)[k - d - 1] == t[k]);
        }
    }
}

/// A version is never its own next minor version.
proof fn lemma_next_minor_differs(t: Seq<u8>)
    ensures
        next_minor(t) != Some(t),
{
    if let Some((m, n)) = version_parts(t) {
        let d = scan_to(t, 0, DOT, DOT);
        lemma_scan_to_ge(t, 0, DOT, DOT);
        assert(m.len() == d);
        let x = m + seq![DOT] + incr(n);
        assert(x.skip(d + 1) =~= incr(n));
        if x == t {
            assert(incr(n) == n);
            assert(n.len() > 0);
            if n.last() == DIGIT_NINE {
                assert(incr(n).last() == DIGIT_ZERO);
            } else {
                assert(incr(n).last() == (n.last() + 1) as u8);
            }
        }
    }
}

proof fn lemma_splice(raw: Seq<u8>, target: Seq<u8>, a: int, e: int)
    requires
        0 <= a <= e < raw.len(),
    ensures
        ({
            let o = raw.take(a) + target + raw.skip(e);
            &&& agree_below(raw, o, a)
            &&& a + target.len() < o.len()
            &&& o.subrange(a, a + target.len()) == target
            &&& o[a + target.len()] == raw[e]
            &&& forall|k: int| a <= k < a + target.len() ==> #[trigger] o[k] == target[k - a]
        }),
{
    let o = raw.take(a) + target + raw.skip(e);
    assert(o.subrange(a, a + target.len()) =~= target);
}

/// When a document declares the target version itself, the shim returns its
/// bytes unchanged.
pub proof fn lemma_normalize_keeps_target(raw: Seq<u8>, target: Seq<u8>, ft: InputFileType)
    requires
        declared_version(raw, ft) == Some(target),
    ensures
        normalized(raw, target, ft) == raw,
{
    lemma_next_minor_differs(target);
}

/// After a downgrade the document declares the target version, at the place
/// where it declared the newer one.
pub proof fn lemma_downgrade_declares_target(raw: Seq<u8>, target: Seq<u8>, ft: InputFileType)
    requires
        downgrades(raw, target, ft),
    ensures
        declared_version(normalized(raw, target, ft), ft) == Some(target),
        match declared_span(raw, ft) {
            Some((a, _)) => declared_span(normalized(raw, target, ft), ft) == Some(
                (a, a + target.len()),
            ),
            None => false,
        },
{
    let (a, e) = declared_span(raw, ft)->0;
    let o = raw.take(a) + target + raw.skip(e);
    let t_end = a + target.len();
    lemma_version_bytes(target);
    match ft {
        InputFileType::JSON => {
            let p = first_match(raw, json_key(), 0)->0;
            let a0 = skip_ws(raw, p + json_key().len());
            let b = skip_ws(raw, a0 + 1);
            lemma_skip_ws_ge(raw, p + json_key().len());
            lemma_skip_ws_ge(raw, a0 + 1);
            lemma_first_match_ge(raw, json_key(), 0);
            lemma_scan_to_ge(raw, b + 1, QUOTE, QUOTE);
            lemma_splice(raw, target, a, e);
            lemma_first_match_agree(raw, o, json_key(), 0, a);
            lemma_skip_ws_agree(raw, o, p + json_key().len(), a);
            lemma_skip_ws_agree(raw, o, a0 + 1, a);
            assert forall|k: int| a <= k < t_end implies o[k] != QUOTE && o[k] != QUOTE by {
                assert(o[k] == target[k - a]);
            }
            lemma_scan_to_stops(o, a, t_end, QUOTE, QUOTE);
        },
        InputFileType::XML => {
            lemma_first_match_ge(raw, xml_namespace(), 0);
            lemma_scan_to_ge(raw, a, QUOTE, APOSTROPHE);
            lemma_splice(raw, target, a, e);
            lemma_first_match_agree(raw, o, xml_namespace(), 0, a);
            assert forall|k: int| a <= k < t_end implies o[k] != QUOTE && o[k] != APOSTROPHE by {
                assert(o[k] == target[k - a]);
            }
            lemma_scan_to_stops(o, a, t_end, QUOTE, APOSTROPHE);
        },
    }
    assert(declared_span(o, ft) == Some((a, t_end)));
}

/// Normalising twice gives the same bytes as normalising once.
pub proof fn lemma_normalize_idempotent(raw: Seq<u8>, target: Seq<u8>, ft: InputFileType)
    ensures
        normalized(normalized(raw, target, ft), target, ft) == normalized(raw, target, ft),
{
    if downgrades(raw, target, ft) {
        lemma_downgrade_declares_target(raw, target, ft);
        lemma_next_minor_differs(target);
    }
}

fn json_key_bytes() -> (r: Vec<u8>)
    ensures
        r@ == json_key(),
{
    let r: Vec<u8> = vec![34, 115, 112, 101, 99, 86, 101, 114, 115, 105, 111, 110, 34];
    assert(r@ =~= json_key());
    r
}

fn xml_namespace_bytes() -> (r: Vec<u8>)
    ensures
        r@ == xml_namespace(),
{
    let r: Vec<u8> = vec![
        104, 116, 116, 112, 58, 47, 47, 99, 121, 99, 108, 111, 110, 101, 100, 120, 46, 111, 114,
        103, 47, 115, 99, 104, 101, 109, 97, 47, 98, 111, 109, 47,
    ];
    assert(r@ =~= xml_namespace());
    r
}

fn matches_at(s: &[u8], pat: &[u8], i: usize) -> (r: bool)
    ensures
        r == occurs_at(s@, pat@, i as int),
{
    if i > s.len() || pat.len() > s.len() - i {
        return false;
    }
    let mut k: usize = 0;
    while k < pat.len()
        invariant
            k <= pat.len(),
            i + pat.len() <= s.len(),
            forall|j: int| 0 <= j < k ==> s@[i + j] == pat@[j],
        decreases pat.len() - k,
    {
        if s[i + k] != pat[k] {
            assert(s@.subrange(i as int, i + pat.len())[k as int] != pat@[k as int]);
            return false;
        }
        k = k + 1;
    }
    assert(s@.subrange(i as int, i + pat.len()) =~= pat@);
    true
}

fn find_first(s: &[u8], pat: &[u8]) -> (r: Option<usize>)
    ensures
        match r {
            Some(p) => first_match(s@, pat@, 0) == Some(p as int) && p + pat.len() <= s.len(),
            None => first_match(s@, pat@, 0) is None,
        },
{
    if pat.len() == 0 {
        assert(s@.subrange(0, 0) =~= pat@);
        return Some(0);
    }
    let mut i: usize = 0;
    while pat.len() <= s.len() && i <= s.len() - pat.len()
        invariant
            pat.len() > 0,
            i <= s.len(),
            first_match(s@, pat@, 0) == first_match(s@, pat@, i as int),
        decreases s.len() - i,
    {
        if matches_at(s, pat, i) {
            return Some(i);
        }
        i = i + 1;
    }
    None
}

fn skip_ws_from(s: &[u8], i: usize) -> (r: usize)
    ensures
        r == skip_ws(s@, i as int),
        r >= i,
        i <= s.len() ==> r <= s.len(),
{
    let mut j = i;
    while j < s.len() && (s[j] == 32 || s[j] == 9 || s[j] == 10 || s[j] == 13)
        invariant
            skip_ws(s@, i as int) == skip_ws(s@, j as int),
            j >= i,
            i <= s.len() ==> j <= s.len(),
        decreases s.len() - j,
    {
        j = j + 1;
    }
    j
}

fn scan_from(s: &[u8], i: usize, q1: u8, q2: u8) -> (r: usize)
    ensures
        r == scan_to(s@, i as int, q1, q2),
        r >= i,
        i <= s.len() ==> r <= s.len(),
{
    let mut j = i;
    while j < s.len() && s[j] != q1 && s[j] != q2
        invariant
            scan_to(s@, i as int, q1, q2) == scan_to(s@, j as int, q1, q2),
            j >= i,
            i <= s.len() ==> j <= s.len(),
        decreases s.len() - j,
    {
        j = j + 1;
    }
    j
}

/// Where the declared version token lies, as a range of byte positions.
fn find_declared_span(s: &[u8], ft: InputFileType) -> (r: Option<(usize, usize)>)
    ensures
        match r {
            Some((a, e)) => declared_span(s@, ft) == Some((a as int, e as int)) && a <= e
                < s.len(),
            None => declared_span(s@, ft) is None,
        },
{
    match ft {
        InputFileType::JSON => {
            let key = json_key_bytes();
            match find_first(s, key.as_slice()) {
                Some(p) => {
                    let a = skip_ws_from(s, p + 13);
                    if a < s.len() && s[a] == COLON {
                        let b = skip_ws_from(s, a + 1);
                        if b < s.len() && s[b] == QUOTE {
                            let e = scan_from(s, b + 1, QUOTE, QUOTE);
                            if e < s.len() {
                                Some((b + 1, e))
                            } else {
                                None
                            }
                        } else {
                            None
                        }
                    } else {
                        None
                    }
                },
                None => None,
            }
        },
        InputFileType::XML => {
            let ns = xml_namespace_bytes();
            match find_first(s, ns.as_slice()) {
                Some(p) => {
                    let a = p + 32;
                    let e = scan_from(s, a, QUOTE, APOSTROPHE);
                    if e < s.len() {
                        Some((a, e))
                    } else {
                        None
                    }
                },
                None => None,
            }
        },
    }
}

/// Copies `s[from..to]` onto the end of `out`.
fn push_range(out: &mut Vec<u8>, s: &[u8], from: usize, to: usize)
    requires
        from <= to <= s.len(),
    ensures
        final(out)@ == old(out)@ + s@.subrange(from as int, to as int),
{
    let mut i = from;
    while i < to
        invariant
            from <= i <= to <= s.len(),
            out@ == old(out)@ + s@.subrange(from as int, i as int),
        decreases to - i,
    {
        out.push(s[i]);
        i = i + 1;
        assert(out@ =~= old(out)@ + s@.subrange(from as int, i as int));
    }
}

/// The version a document declares: the JSON `specVersion` value or the
/// version that ends the CycloneDX XML namespace.
pub fn find_declared_version(raw: &[u8], ft: InputFileType) -> (r: Option<Vec<u8>>)
    ensures
        match r {
            Some(v) => declared_version(raw@, ft) == Some(v@),
            None => declared_version(raw@, ft) is None,
        },
{
    match find_declared_span(raw, ft) {
        Some((a, e)) => {
            let mut v: Vec<u8> = Vec::new();
            push_range(&mut v, raw, a, e);
            assert(v@ =~= raw@.subrange(a as int, e as int));
            Some(v)
        },
        None => None,
    }
}

/// The decimal successor of the digits `n[0..k]`.
fn incr_prefix(n: &[u8], k: usize) -> (r: Vec<u8>)
    requires
        k <= n.len(),
        forall|j: int| 0 <= j < k ==> is_digit(#[trigger] n@[j]),
    ensures
        r@ == incr(n@.take(k as int)),
    decreases k,
{
    if k == 0 {
        let mut r: Vec<u8> = Vec::new();
        r.push(DIGIT_ONE);
        assert(r@ =~= seq![DIGIT_ONE]);
        r
    } else if n[k - 1] == DIGIT_NINE {
        let mut r = incr_prefix(n, k - 1);
        r.push(DIGIT_ZERO);
        assert(n@.take(k as int).drop_last() =~= n@.take(k - 1));
        r
    } else {
        let mut r: Vec<u8> = Vec::new();
        push_range(&mut r, n, 0, k - 1);
        r.push(n[k - 1] + 1);
        assert(r@ =~= n@.take(k as int).drop_last().push((n@.take(k as int).last() + 1) as u8));
        r
    }
}

/// The next minor version above `t`, when `t` has the form `major.minor`
/// with both parts made of decimal digits; `1.5` gives `1.6`, `1.9` gives
/// `1.10`.
pub fn next_minor_version(t: &[u8]) -> (r: Option<Vec<u8>>)
    ensures
        match r {
            Some(v) => next_minor(t@) == Some(v@),
            None => next_minor(t@) is None,
        },
{
    let d = scan_from(t, 0, DOT, DOT);
    if d >= t.len() {
        return None;
    }
    let mut j: usize = 0;
    let mut ok = d > 0 && d + 1 < t.len();
    while j < t.len()
        invariant
            d < t.len(),
            j <= t.len(),
            ok ==> d > 0 && d + 1 < t.len(),
            ok ==> forall|k: int| 0 <= k < j && k != d ==> is_digit(#[trigger] t@[k]),
            !ok ==> !(is_digits(t@.take(d as int)) && is_digits(t@.skip(d + 1))),
        decreases t.len() - j,
    {
        if j != d && !(DIGIT_ZERO <= t[j] && t[j] <= DIGIT_NINE) {
            if ok {
                if j < d {
                    assert(t@.take(d as int)[j as int] == t@[j as int]);
                } else {
                    assert(t@.skip(d + 1)[j - d - 1] == t@[j as int]);
                }
            }
            ok = false;
        }
        j = j + 1;
    }
    if !ok {
        return None;
    }
    assert forall|k: int| 0 <= k < d implies is_digit(#[trigger] t@.take(d as int)[k]) by {
        assert(t@.take(d as int)[k] == t@[k]);
    }
    assert forall|k: int| 0 <= k < t@.skip(d + 1).len() implies is_digit(
        #[trigger] t@.skip(d + 1)[k],
    ) by {
        assert(t@.skip(d + 1)[k] == t@[d + 1 + k]);
    }
    let mut v: Vec<u8> = Vec::new();
    push_range(&mut v, t, 0, d);
    v.push(DOT);
    let mut minor: Vec<u8> = Vec::new();
    push_range(&mut minor, t, d + 1, t.len());
    assert(minor@ =~= t@.skip(d + 1));
    let inc = incr_prefix(minor.as_slice(), minor.len());
    assert(minor@.take(minor.len() as int) =~= minor@);
    let mut i: usize = 0;
    while i < inc.len()
        invariant
            i <= inc.len(),
            v@ == t@.take(d as int) + seq![DOT] + inc@.take(i as int),
        decreases inc.len() - i,
    {
        v.push(inc[i]);
        i = i + 1;
        assert(v@ =~= t@.take(d as int) + seq![DOT] + inc@.take(i as int));
    }
    assert(inc@.take(inc.len() as int) =~= inc@);
    assert(t@.subrange(0, d as int) =~= t@.take(d as int));
    Some(v)
}

/// The bytes to hand to the parser: `raw` with its declared version token
/// replaced by `target` when it declares exactly the next minor version
/// above `target`, and `raw` unchanged otherwise.
pub fn normalize(raw: &[u8], target: &[u8], ft: InputFileType) -> (r: Vec<u8>)
    ensures
        r@ == normalized(raw@, target@, ft),
{
    let mut out: Vec<u8> = Vec::new();
    if let Some((a, e)) = find_declared_span(raw, ft) {
        if let Some(next) = next_minor_version(target) {
            if next.len() == e - a {
                let mut k: usize = 0;
                let mut same = true;
                while k < next.len()
                    invariant
                        a <= e <= raw.len(),
                        next.len() == e - a,
                        k <= next.len(),
                        same == forall|j: int| 0 <= j < k ==> next@[j] == raw@[a + j],
                    decreases next.len() - k,
                {
                    if next[k] != raw[a + k] {
                        same = false;
                    }
                    k = k + 1;
                }
                if same {
                    assert(raw@.subrange(a as int, e as int) =~= next@);
                    push_range(&mut out, raw, 0, a);
                    push_range(&mut out, target, 0, target.len());
                    push_range(&mut out, raw, e, raw.len());
                    assert(out@ =~= raw@.take(a as int) + target@ + raw@.skip(e as int));
                    return out;
                } else {
                    assert(raw@.subrange(a as int, e as int) != next@) by {
                        let j = choose|j: int| 0 <= j < next.len() && next@[j] != raw@[a + j];
                        assert(raw@.subrange(a as int, e as int)[j] == raw@[a + j]);
                    }
                }
            }
        }
    }
    push_range(&mut out, raw, 0, raw.len());
    assert(out@ =~= raw@);
    out
}

/// The version a document is downgraded from, when the shim rewrites it.
pub fn downgrade_source(raw: &[u8], target: &[u8], ft: InputFileType) -> (r: Option<Vec<u8>>)
    ensures
        r is Some <==> downgrades(raw@, target@, ft),
        r is Some ==> declared_version(raw@, ft) == Some(r->0@),
{
    match find_declared_version(raw, ft) {
        Some(v) => match next_minor_version(target) {
            Some(n) => {
                if n.len() != v.len() {
                    return None;
                }
                let mut k: usize = 0;
                while k < n.len()
                    invariant
                        n.len() == v.len(),
                        k <= n.len(),
                        next_minor(target@) == Some(n@),
                        declared_version(raw@, ft) == Some(v@),
                        forall|j: int| 0 <= j < k ==> n@[j] == v@[j],
                    decreases n.len() - k,
                {
                    if n[k] != v[k] {
                        assert(n@[k as int] != v@[k as int]);
                        return None;
                    }
                    k = k + 1;
                }
                assert(n@ =~= v@);
                Some(v)
            },
            None => None,
        },
        None => None,
    }
}

} // verus!
