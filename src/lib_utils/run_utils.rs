//! File selection and output naming.
use crate::lib_utils::env_vars::{eq_ignore_ascii_case, eq_ignore_case};
use crate::lib_utils::input_file_type::InputFileType;
use vstd::prelude::*;
use vstd::string::*;

verus! {

/// Whether a file extension selects files of type `ft`, ignoring ASCII case.
pub fn matches_file_type(extension: &str, ft: InputFileType) -> (r: bool)
    ensures
        r == eq_ignore_case(extension@, ft.lowercase_name()),
{
    eq_ignore_ascii_case(extension, ft.as_str_lowercase())
}

/// The position of the last `/` before position `i`, or -1.
pub open spec fn last_slash(s: Seq<char>, i: int) -> int
    decreases i,
{
    if i <= 0 {
        -1
    } else if s[i - 1] == '/' {
        i - 1
    } else {
        last_slash(s, i - 1)
    }
}

/// The position of the last `.` in `s[lo..i]`, or -1.
pub open spec fn last_dot(s: Seq<char>, i: int, lo: int) -> int
    decreases i - lo,
{
    if i <= lo {
        -1
    } else if s[i - 1] == '.' {
        i - 1
    } else {
        last_dot(s, i - 1, lo)
    }
}

/// The end of the path `s[..i]` once its trailing `/` and `/.` parts are
/// dropped; a leading `/` stays.
pub open spec fn trimmed_end(s: Seq<char>, i: int) -> int
    decreases i,
{
    if i >= 2 && s[i - 1] == '/' {
        trimmed_end(s, i - 1)
    } else if i >= 2 && s[i - 1] == '.' && s[i - 2] == '/' {
        trimmed_end(s, i - 1)
    } else {
        i
    }
}

/// Where the last component of path `s` starts and ends: the text after the
/// last `/` of the path with its trailing `/` and `/.` parts dropped.
pub open spec fn name_start(s: Seq<char>) -> int {
    last_slash(s, trimmed_end(s, s.len() as int)) + 1
}

pub open spec fn name_end(s: Seq<char>) -> int {
    trimmed_end(s, s.len() as int)
}

/// A component that names the current or the parent directory.
pub open spec fn is_dots(n: Seq<char>) -> bool {
    (n.len() == 1 && n[0] == '.') || (n.len() == 2 && n[0] == '.' && n[1] == '.')
}

/// Whether path `s` names a file: its last component is neither empty, nor
/// `.`, nor `..`.
pub open spec fn has_file_name(s: Seq<char>) -> bool {
    name_start(s) < name_end(s) && !is_dots(s.subrange(name_start(s), name_end(s)))
}

/// Where the stem of the file name ends: at its last `.`, unless that dot
/// starts the name or there is none, in which case the stem is the whole
/// name.
pub open spec fn stem_end(s: Seq<char>) -> int {
    let d = last_dot(s, name_end(s), name_start(s));
    if d > name_start(s) {
        d
    } else {
        name_end(s)
    }
}

/// The directory that holds the file: the text before the file name, with
/// its trailing `/` and `/.` parts dropped.
pub open spec fn parent_path(s: Seq<char>) -> Seq<char> {
    s.take(trimmed_end(s, name_start(s)))
}

/// The separator put between a directory and a file name: none after an
/// empty directory or one that already ends with `/`.
pub open spec fn separator(dir: Seq<char>) -> Seq<char> {
    if dir.len() > 0 && dir.last() != '/' {
        "/"@
    } else {
        Seq::empty()
    }
}

/// The output path for an input path: the directory of the file, then its
/// stem with the extension `.pdf`. A path that names no file is returned
/// as it is.
pub open spec fn output_pdf_path(s: Seq<char>) -> Seq<char> {
    if has_file_name(s) {
        parent_path(s) + separator(parent_path(s)) + s.subrange(name_start(s), stem_end(s))
            + ".pdf"@
    } else {
        s
    }
}

proof fn lemma_trimmed_end_bounds(s: Seq<char>, i: int)
    requires
        0 <= i <= s.len(),
    ensures
        0 <= trimmed_end(s, i) <= i,
        i >= 1 ==> trimmed_end(s, i) >= 1,
    decreases i,
{
    if i >= 2 && (s[i - 1] == '/' || (s[i - 1] == '.' && s[i - 2] == '/')) {
        lemma_trimmed_end_bounds(s, i - 1);
    }
}

proof fn lemma_last_slash_bounds(s: Seq<char>, i: int)
    requires
        i <= s.len(),
    ensures
        -1 <= last_slash(s, i) < i || (i <= 0 && last_slash(s, i) == -1),
    decreases i,
{
    if i > 0 && s[i - 1] != '/' {
        lemma_last_slash_bounds(s, i - 1);
    }
}

proof fn lemma_last_dot_bounds(s: Seq<char>, i: int, lo: int)
    ensures
        last_dot(s, i, lo) == -1 || lo <= last_dot(s, i, lo) < i,
    decreases i - lo,
{
    if i > lo && s[i - 1] != '.' {
        lemma_last_dot_bounds(s, i - 1, lo);
    }
}

/// The end of `s[..i]` once trailing `/` and `/.` parts are dropped.
fn trim_end(s: &str, i: usize) -> (r: usize)
    requires
        i <= s@.len(),
    ensures
        r == trimmed_end(s@, i as int),
{
    let mut j = i;
    while j >= 2 && (s.get_char(j - 1) == '/' || (s.get_char(j - 1) == '.' && s.get_char(j - 2)
        == '/'))
        invariant
            j <= i <= s@.len(),
            trimmed_end(s@, i as int) == trimmed_end(s@, j as int),
        decreases j,
    {
        j = j - 1;
    }
    j
}

/// Builds the output path for an input file: the directory of the file,
/// then its stem with the extension `.pdf` (`dir/report.json` gives
/// `dir/report.pdf`, `dir/` gives `dir.pdf`). A path whose last component is
/// empty, `.` or `..` names no file and is returned as it is.
pub fn get_output_pdf_path(file_path: &str) -> (r: String)
    ensures
        r@ == output_pdf_path(file_path@),
{
    let ghost s = file_path@;
    let n = file_path.unicode_len();
    let e = trim_end(file_path, n);
    proof {
        lemma_trimmed_end_bounds(s, n as int);
    }
    let mut i: usize = e;
    while i > 0 && file_path.get_char(i - 1) != '/'
        invariant
            i <= e <= n == s.len(),
            s == file_path@,
            last_slash(s, e as int) == last_slash(s, i as int),
        decreases i,
    {
        i = i - 1;
    }
    let start: usize = i;
    proof {
        lemma_last_slash_bounds(s, e as int);
    }
    assert(start == name_start(s));
    let len = e - start;
    let dots = (len == 1 && file_path.get_char(start) == '.') || (len == 2 && file_path.get_char(
        start,
    ) == '.' && file_path.get_char(start + 1) == '.');
    proof {
        let nm = s.subrange(start as int, e as int);
        if len >= 1 {
            assert(nm[0] == s[start as int]);
        }
        if len == 2 {
            assert(nm[1] == s[start + 1]);
        }
    }
    if len == 0 || dots {
        return String::from_str(file_path);
    }
    let mut j: usize = e;
    while j > start && file_path.get_char(j - 1) != '.'
        invariant
            start <= j <= e <= n == s.len(),
            s == file_path@,
            last_dot(s, e as int, start as int) == last_dot(s, j as int, start as int),
        decreases j,
    {
        j = j - 1;
    }
    proof {
        lemma_last_dot_bounds(s, e as int, start as int);
    }
    let stem_stop: usize = if j > start && j - 1 > start {
        j - 1
    } else {
        e
    };
    let p = trim_end(file_path, start);
    proof {
        lemma_trimmed_end_bounds(s, start as int);
    }
    let mut r = String::from_str(file_path.substring_char(0, p));
    if p > 0 && file_path.get_char(p - 1) != '/' {
        r.append("/");
    }
    r.append(file_path.substring_char(start, stem_stop));
    r.append(".pdf");
    assert(s.subrange(0, p as int) =~= parent_path(s));
    r
}

} // verus!
