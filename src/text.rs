use vstd::prelude::*;
use vstd::string::StrSliceExecFns;

verus! {

/// The characters of `s`, in order.
pub fn chars_of(s: &str) -> (r: Vec<char>)
    ensures
        r@ == s@,
{
    let mut out: Vec<char> = Vec::new();
    proof { vstd::string::axiom_spec_iter(s); }
    for c in it: s.chars()
        invariant
            out@ == it.seq().take(it.index()),
            it.seq() == s@,
    {
        out.push(c);
    }
    out
}

/// Whether `c` has the Unicode White_Space property.
pub uninterp spec fn white_space(c: char) -> bool;

/// Relies on `char::is_whitespace`: the Unicode White_Space property, which
/// the space and the line feed have.
#[verifier::external_body]
fn is_whitespace(c: char) -> (r: bool)
    ensures
        r == white_space(c),
        c == ' ' ==> r,
        c == '\n' ==> r,
{
    c.is_whitespace()
}

/// A text made of white space alone (the empty text among them): what
/// trimming leaves empty.
pub open spec fn is_blank(s: Seq<char>) -> bool {
    forall|i: int| 0 <= i < s.len() ==> white_space(#[trigger] s[i])
}

/// Whether `s` holds white space alone.
pub fn blank(s: &str) -> (r: bool)
    ensures
        r == is_blank(s@),
{
    let cs = chars_of(s);
    let mut i: usize = 0;
    while i < cs.len()
        invariant
            i <= cs.len(),
            cs@ == s@,
            forall|k: int| 0 <= k < i ==> white_space(#[trigger] s@[k]),
        decreases cs.len() - i,
    {
        if !is_whitespace(cs[i]) {
            return false;
        }
        i = i + 1;
    }
    true
}

/// What `str::to_lowercase` makes of a text.
pub uninterp spec fn lower_of(s: Seq<char>) -> Seq<char>;

/// Relies on `str::to_lowercase`: the lowercase form of `s`, which is empty
/// for the empty text.
#[verifier::external_body]
pub(crate) fn lowercase(s: &str) -> (r: String)
    ensures
        r@ == lower_of(s@),
        s@.len() == 0 ==> r@.len() == 0,
{
    s.to_lowercase()
}

/// `q` occurs in `t` as a run of consecutive characters.
pub open spec fn occurs_in(q: Seq<char>, t: Seq<char>) -> bool {
    exists|i: int| 0 <= i && i + q.len() <= t.len() && #[trigger] t.subrange(i, i + q.len()) == q
}

/// Relies on `str::contains` with a `&str` pattern: whether the pattern
/// matches a sub-slice of `t`.
#[verifier::external_body]
pub(crate) fn contains_text(t: &str, q: &str) -> (r: bool)
    ensures
        r == occurs_in(q@, t@),
{
    t.contains(q)
}

/// The position of the last '/' in `s`, or -1 where there is none.
pub open spec fn last_slash(s: Seq<char>) -> int
    decreases s.len(),
{
    if s.len() == 0 {
        -1
    } else if s.last() == '/' {
        s.len() - 1
    } else {
        last_slash(s.drop_last())
    }
}

proof fn lemma_last_slash(s: Seq<char>)
    ensures
        -1 <= last_slash(s) < s.len(),
        last_slash(s) >= 0 ==> s[last_slash(s)] == '/',
        forall|k: int| last_slash(s) < k < s.len() ==> s[k] != '/',
    decreases s.len(),
{
    if s.len() > 0 && s.last() != '/' {
        lemma_last_slash(s.drop_last());
        assert forall|k: int| last_slash(s) < k < s.len() implies s[k] != '/' by {
            if k < s.len() - 1 {
                assert(s.drop_last()[k] == s[k]);
            }
        }
    }
}

/// The name of the directory that holds the file at `path`: its
/// second-to-last '/'-separated segment, or "unknown" where the path has a
/// single segment.
pub open spec fn project_name_of(path: Seq<char>) -> Seq<char> {
    let last = last_slash(path);
    if last < 0 {
        "unknown"@
    } else {
        let before = path.subrange(0, last);
        before.subrange(last_slash(before) + 1, last)
    }
}

/// The position of the last '/' among the first `end` characters.
fn find_last_slash(cs: &Vec<char>, end: usize) -> (r: Option<usize>)
    requires
        end <= cs.len(),
    ensures
        match r {
            Some(p) => p == last_slash(cs@.subrange(0, end as int)),
            None => last_slash(cs@.subrange(0, end as int)) == -1,
        },
{
    let mut k: usize = end;
    while k > 0
        invariant
            k <= end <= cs.len(),
            last_slash(cs@.subrange(0, end as int)) == last_slash(cs@.subrange(0, k as int)),
        decreases k,
    {
        assert(cs@.subrange(0, k as int).drop_last() =~= cs@.subrange(0, k - 1));
        if cs[k - 1] == '/' {
            return Some(k - 1);
        }
        k = k - 1;
    }
    None
}

/// The project name that belongs to the file at `path`.
pub fn project_name(path: &str) -> (r: String)
    ensures
        r@ == project_name_of(path@),
{
    let cs = chars_of(path);
    assert(cs@.subrange(0, cs.len() as int) =~= cs@);
    match find_last_slash(&cs, cs.len()) {
        None => {
            proof { reveal_strlit("unknown"); }
            "unknown".to_owned()
        },
        Some(last) => {
            proof {
                lemma_last_slash(cs@);
                lemma_last_slash(cs@.subrange(0, last as int));
            }
            let start = match find_last_slash(&cs, last) {
                Some(prev) => prev + 1,
                None => 0,
            };
            let seg = path.substring_char(start, last);
            assert(seg@ =~= cs@.subrange(0, last as int).subrange(start as int, last as int));
            seg.to_owned()
        },
    }
}

} // verus!
