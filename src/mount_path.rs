//! Mount-point paths compared component by component: a repeated separator
//! counts once, trailing separators do not count, and a `.` component counts
//! only at the start of a relative path.
use vstd::prelude::*;
use vstd::string::StrSliceExecFns;

verus! {

/// Whether the character at `i` is a whole `.` component.
pub open spec fn lone_dot(s: Seq<char>, i: int) -> bool {
    &&& s[i] == '.'
    &&& (i == 0 || s[i - 1] == '/')
    &&& (i + 1 == s.len() || s[i + 1] == '/')
}

/// The first `n` characters of `s` without the `.` components that do not
/// open the path.
pub open spec fn dots_dropped_prefix(s: Seq<char>, n: nat) -> Seq<char>
    decreases n,
{
    if n == 0 {
        Seq::empty()
    } else if lone_dot(s, n - 1) && n - 1 > 0 {
        dots_dropped_prefix(s, (n - 1) as nat)
    } else {
        dots_dropped_prefix(s, (n - 1) as nat).push(s[n - 1])
    }
}

/// `s` without the `.` components that do not open the path; what is left
/// of their separators then repeats or trails.
pub open spec fn dots_dropped(s: Seq<char>) -> Seq<char> {
    dots_dropped_prefix(s, s.len())
}

/// Length of `s` without its trailing separators.
pub open spec fn content_end(s: Seq<char>) -> int
    decreases s.len(),
{
    if s.len() == 0 {
        0
    } else if s[s.len() - 1] != '/' {
        s.len() as int
    } else {
        content_end(s.subrange(0, s.len() - 1))
    }
}

/// Whether the character at `i` stays when separators are collapsed: all but
/// separators that repeat the one before them or only trail the path. A
/// leading separator always stays, so the root keeps its name.
pub open spec fn kept(s: Seq<char>, i: int) -> bool {
    s[i] != '/' || i == 0 || (s[i - 1] != '/' && i < content_end(s))
}

/// The first `n` characters of `s` with separators collapsed.
pub open spec fn collapsed_prefix(s: Seq<char>, n: nat) -> Seq<char>
    decreases n,
{
    if n == 0 {
        Seq::empty()
    } else if kept(s, n - 1) {
        collapsed_prefix(s, (n - 1) as nat).push(s[n - 1])
    } else {
        collapsed_prefix(s, (n - 1) as nat)
    }
}

/// The path's components, written with one separator between them and a
/// leading one for an absolute path; two mount points name the same
/// directory when their keys are equal.
pub open spec fn path_key(s: Seq<char>) -> Seq<char> {
    let t = dots_dropped(s);
    collapsed_prefix(t, t.len())
}

fn without_dots(s: &str) -> (r: Vec<char>)
    ensures
        r@ == dots_dropped(s@),
{
    let len = s.unicode_len();
    let mut out: Vec<char> = Vec::new();
    let mut i: usize = 0;
    while i < len
        invariant
            len == s@.len(),
            i <= len,
            out@ == dots_dropped_prefix(s@, i as nat),
        decreases len - i,
    {
        let c = s.get_char(i);
        let dot = c == '.' && (i == 0 || s.get_char(i - 1) == '/') && (i + 1 == len || s.get_char(
            i + 1,
        ) == '/');
        if !(dot && i > 0) {
            out.push(c);
        }
        i = i + 1;
    }
    out
}

fn trimmed_len(t: &Vec<char>) -> (r: usize)
    ensures
        r == content_end(t@),
{
    let mut e = t.len();
    assert(t@.subrange(0, e as int) =~= t@);
    while e > 0 && t[e - 1] == '/'
        invariant
            e <= t@.len(),
            content_end(t@) == content_end(t@.subrange(0, e as int)),
        decreases e,
    {
        assert(t@.subrange(0, e as int).subrange(0, e - 1) =~= t@.subrange(0, e - 1));
        e = e - 1;
    }
    e
}

/// The key of `s`, as characters.
pub fn path_key_of(s: &str) -> (r: Vec<char>)
    ensures
        r@ == path_key(s@),
{
    let t = without_dots(s);
    let len = t.len();
    let end = trimmed_len(&t);
    let mut key: Vec<char> = Vec::new();
    let mut i: usize = 0;
    while i < len
        invariant
            len == t@.len(),
            end == content_end(t@),
            i <= len,
            key@ == collapsed_prefix(t@, i as nat),
        decreases len - i,
    {
        let c = t[i];
        if c != '/' || i == 0 || (t[i - 1] != '/' && i < end) {
            key.push(c);
        }
        i = i + 1;
    }
    key
}

/// Whether two keys are the same sequence of characters.
pub fn same_key(a: &Vec<char>, b: &Vec<char>) -> (r: bool)
    ensures
        r == (a@ == b@),
{
    if a.len() != b.len() {
        return false;
    }
    let mut i: usize = 0;
    while i < a.len()
        invariant
            a@.len() == b@.len(),
            i <= a@.len(),
            forall|j: int| 0 <= j < i ==> a@[j] == b@[j],
        decreases a.len() - i,
    {
        if a[i] != b[i] {
            return false;
        }
        i = i + 1;
    }
    assert(a@ =~= b@);
    true
}

} // verus!
