use vstd::prelude::*;
use crate::decode::{decode_message, message_of};
use crate::json::{json_text_value, parse_json};
use crate::text::{
    blank, contains_text, is_blank, lower_of, lowercase, occurs_in, project_name_of,
};
use crate::types::{ProjectFile, ProjectFileView, SessionMessage, SessionMessageView, fragments};

verus! {

/// Loads, selects and searches projects.
pub struct ProjectParser;

/// A log file found on disk, with its last-modified time in nanoseconds
/// since the Unix epoch where the file system gives one.
pub struct FileCandidate {
    pub path: String,
    pub modified: Option<u128>,
}

// ---------------------------------------------------------------
// Lines and files
// ---------------------------------------------------------------

/// The record that one line of a log file holds, if any: blank lines, text
/// that is no JSON document, and documents of no known record shape hold
/// none.
pub open spec fn line_record(line: Seq<char>) -> Option<SessionMessageView> {
    if is_blank(line) {
        None
    } else {
        match json_text_value(line) {
            Some(j) => message_of(j),
            None => None,
        }
    }
}

/// The records of a file's lines, in file order.
pub open spec fn records_of(lines: Seq<Seq<char>>) -> Seq<SessionMessageView>
    decreases lines.len(),
{
    if lines.len() == 0 {
        Seq::empty()
    } else {
        let rest = records_of(lines.drop_last());
        match line_record(lines.last()) {
            Some(m) => rest.push(m),
            None => rest,
        }
    }
}

// ---------------------------------------------------------------
// Search
// ---------------------------------------------------------------

/// Some text among `frags`, lowercased, contains `ql`.
pub open spec fn any_fragment_has(frags: Seq<Seq<char>>, ql: Seq<char>) -> bool
    decreases frags.len(),
{
    if frags.len() == 0 {
        false
    } else {
        any_fragment_has(frags.drop_last(), ql) || occurs_in(ql, lower_of(frags.last()))
    }
}

/// A record matches the lowercased query `ql` where one of its texts does.
pub open spec fn is_match(m: SessionMessageView, ql: Seq<char>) -> bool {
    any_fragment_has(fragments(m), ql)
}

/// The records among `ms` that match, in their order.
pub open spec fn matching(ms: Seq<SessionMessageView>, ql: Seq<char>) -> Seq<SessionMessageView>
    decreases ms.len(),
{
    if ms.len() == 0 {
        Seq::empty()
    } else {
        let rest = matching(ms.drop_last(), ql);
        if is_match(ms.last(), ql) {
            rest.push(ms.last())
        } else {
            rest
        }
    }
}

/// For each project in order that has a matching record: its name and its
/// matching records.
pub open spec fn search_result(ps: Seq<ProjectFileView>, ql: Seq<char>) -> Seq<
    (Seq<char>, Seq<SessionMessageView>),
>
    decreases ps.len(),
{
    if ps.len() == 0 {
        Seq::empty()
    } else {
        let rest = search_result(ps.drop_last(), ql);
        let g = matching(ps.last().messages, ql);
        if g.len() > 0 {
            rest.push((ps.last().project_name, g))
        } else {
            rest
        }
    }
}

// ---------------------------------------------------------------
// Selection by recency
// ---------------------------------------------------------------

/// A modification time as a number; a file without one sorts below all
/// others.
pub open spec fn stamp_key(m: Option<u128>) -> int {
    match m {
        Some(t) => t as int,
        None => -1,
    }
}

/// Candidate `a` comes before candidate `b`: it is newer, or as new and
/// found earlier.
pub open spec fn ranks_before(c: Seq<FileCandidate>, a: int, b: int) -> bool {
    stamp_key(c[a].modified) > stamp_key(c[b].modified) || (stamp_key(c[a].modified)
        == stamp_key(c[b].modified) && a < b)
}

/// `r` lists, newest first, the `limit` newest candidates (all of them where
/// there are fewer), as positions in `c`.
pub open spec fn is_recent_selection(c: Seq<FileCandidate>, limit: int, r: Seq<usize>) -> bool {
    &&& r.len() == if limit < c.len() { limit } else { c.len() as int }
    &&& forall|j: int| 0 <= j < r.len() ==> #[trigger] r[j] < c.len()
    &&& forall|j: int, k: int|
        0 <= j < k < r.len() ==> ranks_before(c, #[trigger] r[j] as int, #[trigger] r[k] as int)
    &&& forall|x: int, j: int|
        0 <= x < c.len() && !r.contains(x as usize) && 0 <= j < r.len()
            ==> #[trigger] ranks_before(c, r[j] as int, x)
}

/// Whether time `a` is at least as recent as time `b`.
fn at_least_as_new(a: &Option<u128>, b: &Option<u128>) -> (r: bool)
    ensures
        r == (stamp_key(*a) >= stamp_key(*b)),
{
    match (a, b) {
        (_, None) => true,
        (None, Some(_)) => false,
        (Some(x), Some(y)) => *x >= *y,
    }
}

impl ProjectParser {
    /// The record that one line holds, if any.
    pub fn parse_line(line: &str) -> (r: Option<SessionMessage>)
        ensures
            r.deep_view() == line_record(line@),
            is_blank(line@) ==> r is None,
            json_text_value(line@) is None ==> r is None,
    {
        if blank(line) {
            return None;
        }
        match parse_json(line) {
            Some(j) => decode_message(&j),
            None => None,
        }
    }

    /// The project of the file at `path` whose lines are `lines`: the
    /// records of those lines in file order, lines that hold none skipped.
    pub fn load_project_file(path: String, lines: &Vec<String>) -> (r: ProjectFile)
        ensures
            r.deep_view() == (ProjectFileView {
                path: path@,
                project_name: project_name_of(path@),
                messages: records_of(lines.deep_view()),
            }),
    {
        let mut project = ProjectFile::new(path);
        let ghost all = lines.deep_view();
        let mut i: usize = 0;
        assert(all.subrange(0, 0) =~= Seq::<Seq<char>>::empty());
        assert(project.messages.deep_view() =~= Seq::<SessionMessageView>::empty());
        while i < lines.len()
            invariant
                i <= lines.len(),
                all == lines.deep_view(),
                project.path@ == path@,
                project.project_name@ == project_name_of(path@),
                project.messages.deep_view() == records_of(all.subrange(0, i as int)),
            decreases lines.len() - i,
        {
            assert(all.subrange(0, i + 1).drop_last() =~= all.subrange(0, i as int));
            match Self::parse_line(lines[i].as_str()) {
                Some(m) => {
                    project.messages.push(m);
                    assert(project.messages.deep_view() =~= records_of(
                        all.subrange(0, i as int),
                    ).push(line_record(all[i as int])->0));
                },
                None => {},
            }
            i = i + 1;
        }
        assert(all.subrange(0, lines.len() as int) =~= all);
        project
    }

    /// Whether `m` has a text that, lowercased, contains `ql`.
    fn message_matches(m: &SessionMessage, ql: &str) -> (r: bool)
        ensures
            r == is_match(m.deep_view(), ql@),
    {
        let frags = m.get_text_content();
        let ghost all = frags.deep_view();
        let mut found = false;
        let mut i: usize = 0;
        while i < frags.len()
            invariant
                i <= frags.len(),
                all == frags.deep_view(),
                all == fragments(m.deep_view()),
                found == any_fragment_has(all.subrange(0, i as int), ql@),
            decreases frags.len() - i,
        {
            assert(all.subrange(0, i + 1).drop_last() =~= all.subrange(0, i as int));
            let lf = lowercase(frags[i].as_str());
            let hit = contains_text(lf.as_str(), ql);
            found = found || hit;
            i = i + 1;
        }
        assert(all.subrange(0, frags.len() as int) =~= all);
        found
    }

    /// For each project in order, its name and those of its records that
    /// have a text containing `query`, both lowercased; projects with no
    /// such record are left out.
    pub fn search_messages(projects: &Vec<ProjectFile>, query: &str) -> (r: Vec<
        (String, Vec<SessionMessage>),
    >)
        ensures
            r.deep_view() == search_result(projects.deep_view(), lower_of(query@)),
            query@.len() == 0 ==> lower_of(query@).len() == 0,
    {
        let query_lower = lowercase(query);
        let ghost ql = lower_of(query@);
        let ghost ps = projects.deep_view();
        let mut results: Vec<(String, Vec<SessionMessage>)> = Vec::new();
        let mut p: usize = 0;
        assert(ps.subrange(0, 0) =~= Seq::<ProjectFileView>::empty());
        while p < projects.len()
            invariant
                p <= projects.len(),
                ps == projects.deep_view(),
                query_lower@ == ql,
                results.deep_view() == search_result(ps.subrange(0, p as int), ql),
            decreases projects.len() - p,
        {
            let project = &projects[p];
            let ghost ms = project.messages.deep_view();
            let mut group: Vec<SessionMessage> = Vec::new();
            let mut i: usize = 0;
            assert(ms.subrange(0, 0) =~= Seq::<SessionMessageView>::empty());
            while i < project.messages.len()
                invariant
                    i <= project.messages.len(),
                    ms == project.messages.deep_view(),
                    query_lower@ == ql,
                    group.deep_view() == matching(ms.subrange(0, i as int), ql),
                decreases project.messages.len() - i,
            {
                assert(ms.subrange(0, i + 1).drop_last() =~= ms.subrange(0, i as int));
                let message = &project.messages[i];
                if Self::message_matches(message, query_lower.as_str()) {
                    group.push(message.clone());
                    assert(group.deep_view() =~= matching(ms.subrange(0, i as int), ql).push(
                        ms[i as int],
                    ));
                }
                i = i + 1;
            }
            assert(ms.subrange(0, project.messages.len() as int) =~= ms);
            assert(ps.subrange(0, p + 1).drop_last() =~= ps.subrange(0, p as int));
            if group.len() > 0 {
                results.push((project.project_name.clone(), group));
                assert(results.deep_view() =~= search_result(ps.subrange(0, p as int), ql).push(
                    (ps[p as int].project_name, matching(ms, ql)),
                ));
            }
            p = p + 1;
        }
        assert(ps.subrange(0, projects.len() as int) =~= ps);
        results
    }

    /// The positions of the `limit` newest candidates (all of them where
    /// there are fewer), newest first; of two equally new candidates the
    /// one found first comes first.
    pub fn select_recent(candidates: &Vec<FileCandidate>, limit: usize) -> (r: Vec<usize>)
        ensures
            is_recent_selection(candidates@, limit as int, r@),
    {
        let ghost c = candidates@;
        let mut order: Vec<usize> = Vec::new();
        let mut i: usize = 0;
        while i < candidates.len()
            invariant
                i <= candidates.len(),
                c == candidates@,
                order.len() == i,
                forall|j: int| 0 <= j < order.len() ==> #[trigger] order[j] < i,
                forall|x: int| 0 <= x < i ==> #[trigger] order@.contains(x as usize),
                forall|j: int, k: int|
                    0 <= j < k < order.len() ==> ranks_before(
                        c,
                        #[trigger] order[j] as int,
                        #[trigger] order[k] as int,
                    ),
            decreases candidates.len() - i,
        {
            let mut pos: usize = 0;
            while pos < order.len() && at_least_as_new(
                &candidates[order[pos]].modified,
                &candidates[i].modified,
            )
                invariant
                    pos <= order.len(),
                    i < candidates.len(),
                    c == candidates@,
                    forall|j: int| 0 <= j < order.len() ==> #[trigger] order[j] < i,
                    forall|j: int|
                        0 <= j < pos ==> stamp_key(c[#[trigger] order[j] as int].modified)
                            >= stamp_key(c[i as int].modified),
                decreases order.len() - pos,
            {
                pos = pos + 1;
            }
            let ghost old_order = order@;
            proof {
                if pos < order.len() {
                    assert forall|k: int| pos <= k < old_order.len() implies stamp_key(
                        c[#[trigger] old_order[k] as int].modified,
                    ) < stamp_key(c[i as int].modified) by {
                        if k > pos {
                            assert(ranks_before(c, old_order[pos as int] as int, old_order[k] as int));
                        }
                    }
                }
            }
            order.insert(pos, i);
            proof {
                assert forall|x: int| 0 <= x < i + 1 implies #[trigger] order@.contains(x as usize) by {
                    if x < i {
                        assert(old_order.contains(x as usize));
                        let w = choose|w: int| 0 <= w < old_order.len() && old_order[w] == x as usize;
                        if w < pos {
                            assert(order@[w] == x as usize);
                        } else {
                            assert(order@[w + 1] == x as usize);
                        }
                    } else {
                        assert(order@[pos as int] == i);
                    }
                }
            }
            i = i + 1;
        }
        let ghost full = order@;
        if limit < order.len() {
            order.truncate(limit);
        }
        proof {
            assert forall|x: int, j: int|
                0 <= x < c.len() && !order@.contains(x as usize) && 0 <= j < order@.len()
                implies #[trigger] ranks_before(c, order@[j] as int, x) by {
                assert(full.contains(x as usize));
                let w = choose|w: int| 0 <= w < full.len() && full[w] == x as usize;
                if w < order@.len() {
                    assert(order@[w] == x as usize);
                }
                assert(order@[j] == full[j]);
                assert(ranks_before(c, full[j] as int, full[w] as int));
            }
        }
        order
    }
}

// ---------------------------------------------------------------
// Laws
// ---------------------------------------------------------------

proof fn lemma_any_fragment_has(frags: Seq<Seq<char>>, ql: Seq<char>)
    ensures
        any_fragment_has(frags, ql) <==> exists|f: int|
            0 <= f < frags.len() && occurs_in(ql, lower_of(#[trigger] frags[f])),
    decreases frags.len(),
{
    if frags.len() > 0 {
        let init = frags.drop_last();
        lemma_any_fragment_has(init, ql);
        if any_fragment_has(init, ql) {
            let f = choose|f: int| 0 <= f < init.len() && occurs_in(ql, lower_of(#[trigger] init[f]));
            assert(frags[f] == init[f]);
        }
        if exists|f: int| 0 <= f < frags.len() && occurs_in(ql, lower_of(#[trigger] frags[f])) {
            let f = choose|f: int| 0 <= f < frags.len() && occurs_in(ql, lower_of(#[trigger] frags[f]));
            if f < frags.len() - 1 {
                assert(init[f] == frags[f]);
            }
        }
    }
}

proof fn lemma_matching_only_matches(ms: Seq<SessionMessageView>, ql: Seq<char>)
    ensures
        forall|i: int| 0 <= i < matching(ms, ql).len() ==> is_match(#[trigger] matching(ms, ql)[i], ql),
    decreases ms.len(),
{
    if ms.len() > 0 {
        let init = ms.drop_last();
        lemma_matching_only_matches(init, ql);
        let prev = matching(init, ql);
        assert forall|i: int| 0 <= i < matching(ms, ql).len() implies is_match(
            #[trigger] matching(ms, ql)[i],
            ql,
        ) by {
            if i < prev.len() {
                assert(matching(ms, ql)[i] == prev[i]);
            }
        }
    }
}

/// One of the texts of `m`, lowercased, contains `ql`.
pub open spec fn has_matching_fragment(m: SessionMessageView, ql: Seq<char>) -> bool {
    exists|f: int| 0 <= f < fragments(m).len() && occurs_in(ql, lower_of(#[trigger] fragments(m)[f]))
}

/// Every record that a search returns has a text that, lowercased, contains
/// the lowercased query.
pub proof fn lemma_search_only_matches(ps: Seq<ProjectFileView>, ql: Seq<char>)
    ensures
        forall|g: int, i: int|
            0 <= g < search_result(ps, ql).len() && 0 <= i < search_result(ps, ql)[g].1.len()
                ==> has_matching_fragment(#[trigger] search_result(ps, ql)[g].1[i], ql),
    decreases ps.len(),
{
    if ps.len() > 0 {
        lemma_search_only_matches(ps.drop_last(), ql);
        lemma_matching_only_matches(ps.last().messages, ql);
        let r = search_result(ps, ql);
        assert forall|g: int, i: int| 0 <= g < r.len() && 0 <= i < r[g].1.len() implies has_matching_fragment(
            #[trigger] r[g].1[i],
            ql,
        ) by {
            lemma_any_fragment_has(fragments(r[g].1[i]), ql);
            let prev = search_result(ps.drop_last(), ql);
            if g < prev.len() {
                assert(r[g] == prev[g]);
            } else {
                assert(is_match(r[g].1[i], ql));
            }
        }
    }
}

/// The projects among `ps` that have records, each with all of them, in
/// order.
pub open spec fn non_empty_projects(ps: Seq<ProjectFileView>) -> Seq<
    (Seq<char>, Seq<SessionMessageView>),
>
    decreases ps.len(),
{
    if ps.len() == 0 {
        Seq::empty()
    } else {
        let rest = non_empty_projects(ps.drop_last());
        if ps.last().messages.len() > 0 {
            rest.push((ps.last().project_name, ps.last().messages))
        } else {
            rest
        }
    }
}

proof fn lemma_empty_query_matching(ms: Seq<SessionMessageView>)
    requires
        forall|i: int| 0 <= i < ms.len() ==> fragments(#[trigger] ms[i]).len() > 0,
    ensures
        matching(ms, Seq::empty()) == ms,
    decreases ms.len(),
{
    if ms.len() > 0 {
        let init = ms.drop_last();
        assert forall|i: int| 0 <= i < init.len() implies fragments(#[trigger] init[i]).len() > 0 by {
            assert(init[i] == ms[i]);
        }
        lemma_empty_query_matching(init);
        let frags = fragments(ms.last());
        assert(fragments(ms[ms.len() - 1]).len() > 0);
        let t = lower_of(frags[0]);
        let e = Seq::<char>::empty();
        assert(t.subrange(0int, 0int + e.len()) =~= e);
        assert(occurs_in(Seq::empty(), t));
        lemma_any_fragment_has(frags, Seq::empty());
        assert(ms.drop_last().push(ms.last()) =~= ms);
    }
}

/// An empty (lowercased) query keeps every record of every project that has
/// records, projects and records in their order, where each record has at
/// least one text.
pub proof fn lemma_empty_query_keeps_all(ps: Seq<ProjectFileView>)
    requires
        forall|p: int, i: int|
            0 <= p < ps.len() && 0 <= i < ps[p].messages.len() ==> fragments(
                #[trigger] ps[p].messages[i],
            ).len() > 0,
    ensures
        search_result(ps, Seq::empty()) == non_empty_projects(ps),
    decreases ps.len(),
{
    if ps.len() > 0 {
        let init = ps.drop_last();
        assert forall|p: int, i: int|
            0 <= p < init.len() && 0 <= i < init[p].messages.len() implies fragments(
                #[trigger] init[p].messages[i],
            ).len() > 0 by {
            assert(init[p] == ps[p]);
        }
        lemma_empty_query_keeps_all(init);
        let last = ps[ps.len() - 1];
        assert forall|i: int| 0 <= i < last.messages.len() implies fragments(
            #[trigger] last.messages[i],
        ).len() > 0 by {
            assert(fragments(ps[ps.len() - 1].messages[i]).len() > 0);
        }
        lemma_empty_query_matching(last.messages);
    }
}

/// A selection holds at most `limit` candidates, and their modification
/// times never increase along it.
pub proof fn lemma_selection_bounded_and_recent(c: Seq<FileCandidate>, limit: int, r: Seq<usize>)
    requires
        0 <= limit,
        is_recent_selection(c, limit, r),
    ensures
        r.len() <= limit,
        forall|j: int, k: int|
            0 <= j < k < r.len() ==> stamp_key(c[#[trigger] r[j] as int].modified) >= stamp_key(
                c[#[trigger] r[k] as int].modified,
            ),
{
    assert forall|j: int, k: int| 0 <= j < k < r.len() implies stamp_key(
        c[#[trigger] r[j] as int].modified,
    ) >= stamp_key(c[#[trigger] r[k] as int].modified) by {
        assert(ranks_before(c, r[j] as int, r[k] as int));
    }
}

} // verus!
