//! The stored list of project directories: reading it from the text of the
//! projects file (one path per line), writing it back, adding and removing
//! a project.

use vstd::prelude::*;
use crate::listing::{chars_of, lemma_scan_append_plain, spec_joined, spec_scan};

verus! {

/// A line without the carriage return that closed it with the newline.
pub open spec fn strip_cr(line: Seq<char>) -> Seq<char> {
    if line.len() > 0 && line.last() == '\r' {
        line.drop_last()
    } else {
        line
    }
}

/// The lines of a text as `str::lines` gives them: the pieces between
/// newlines, each without a carriage return just before its newline, and the
/// text after the last newline as a last line unless it is empty.
pub open spec fn spec_lines(s: Seq<char>) -> Seq<Seq<char>> {
    let (done, rest) = spec_scan(s);
    done.map_values(|l: Seq<char>| strip_cr(l)) + if rest.len() > 0 {
        seq![rest]
    } else {
        Seq::<Seq<char>>::empty()
    }
}

/// The projects listed in the text of the projects file, one per line.
pub fn parse_projects(text: &str) -> (projects: Vec<String>)
    ensures
        projects.deep_view() == spec_lines(text@),
{
    let chars = chars_of(text);
    let mut projects: Vec<String> = Vec::new();
    let mut start: usize = 0;
    let mut i: usize = 0;
    while i < chars.len()
        invariant
            chars@ == text@,
            start <= i <= chars.len(),
            projects.deep_view() == spec_scan(text@.take(i as int)).0.map_values(
                |l: Seq<char>| strip_cr(l),
            ),
            spec_scan(text@.take(i as int)).1 == text@.subrange(start as int, i as int),
        decreases chars.len() - i,
    {
        let ghost prev = projects.deep_view();
        let ghost done = spec_scan(text@.take(i as int)).0;
        assert(text@.take(i + 1).drop_last() =~= text@.take(i as int));
        assert(text@.take(i + 1).last() == text@[i as int]);
        if chars[i] == '\n' {
            let end = if i > start && chars[i - 1] == '\r' { i - 1 } else { i };
            let line = text.substring_char(start, end).to_owned();
            let ghost piece = text@.subrange(start as int, i as int);
            assert(line@ == strip_cr(piece)) by {
                if i > start && chars@[i - 1] == '\r' {
                    assert(piece.drop_last() =~= text@.subrange(start as int, end as int));
                } else {
                    assert(piece =~= text@.subrange(start as int, end as int));
                }
            }
            projects.push(line);
            assert(done.push(piece).map_values(|l: Seq<char>| strip_cr(l)) =~= done.map_values(
                |l: Seq<char>| strip_cr(l),
            ).push(strip_cr(piece)));
            assert(projects.deep_view() =~= prev.push(line@));
            start = i + 1;
            assert(text@.subrange(start as int, i + 1) =~= Seq::<char>::empty());
        } else {
            assert(text@.subrange(start as int, i + 1) =~= text@.subrange(start as int, i as int).push(
                text@[i as int],
            ));
        }
        i = i + 1;
    }
    assert(text@.take(chars.len() as int) =~= text@);
    let ghost before = projects.deep_view();
    if start < chars.len() {
        let last = text.substring_char(start, chars.len()).to_owned();
        projects.push(last);
        assert(projects.deep_view() =~= before + seq![last@]);
    } else {
        assert(projects.deep_view() =~= before + Seq::<Seq<char>>::empty());
    }
    projects
}


/// The text of the projects file for a list of projects: each path followed
/// by a newline.
pub fn render_projects(projects: &Vec<String>) -> (text: String)
    ensures
        text@ == spec_joined(projects.deep_view()),
{
    let mut text = String::new();
    let mut i: usize = 0;
    while i < projects.len()
        invariant
            i <= projects.len(),
            text@ == spec_joined(projects.deep_view().take(i as int)),
        decreases projects.len() - i,
    {
        assert(projects.deep_view().take(i + 1).drop_last() =~= projects.deep_view().take(i as int));
        let ghost before = text@;
        text.append(projects[i].as_str());
        text.append("\n");
        proof {
            reveal_strlit("\n");
            assert(projects.deep_view().take(i + 1).last() == projects@[i as int]@);
            assert(text@ =~= before + projects@[i as int]@ + seq!['\n']);
        }
        i = i + 1;
    }
    assert(projects.deep_view().take(projects.len() as int) =~= projects.deep_view());
    text
}

/// Why a path was not added to the projects.
#[derive(Clone, Copy, Debug, PartialEq, Eq, Structural)]
pub enum AddRefusal {
    /// Nothing exists at the path.
    NoSuchPath,
    /// The path is listed already.
    AlreadyListed,
}

pub open spec fn spec_refusal_text(r: AddRefusal) -> Seq<char> {
    match r {
        AddRefusal::NoSuchPath => "Path does not exist!"@,
        AddRefusal::AlreadyListed => "Project already exists!"@,
    }
}

impl AddRefusal {
    /// The text telling the user why the path was not added.
    pub fn text(&self) -> (r: String)
        ensures
            r@ == spec_refusal_text(*self),
    {
        match self {
            AddRefusal::NoSuchPath => "Path does not exist!".to_owned(),
            AddRefusal::AlreadyListed => "Project already exists!".to_owned(),
        }
    }
}

/// Adding a path to the projects: refused when nothing exists at it or when
/// it is listed already; otherwise it goes at the end.
pub open spec fn spec_add(path: Seq<char>, projects: Seq<Seq<char>>, path_exists: bool) -> Result<
    Seq<Seq<char>>,
    AddRefusal,
> {
    if !path_exists {
        Err(AddRefusal::NoSuchPath)
    } else if projects.contains(path) {
        Err(AddRefusal::AlreadyListed)
    } else {
        Ok(projects.push(path))
    }
}

pub open spec fn result_view(r: Result<Vec<String>, AddRefusal>) -> Result<Seq<Seq<char>>, AddRefusal> {
    match r {
        Ok(v) => Ok(v.deep_view()),
        Err(e) => Err(e),
    }
}

/// Whether `projects` lists `path`.
pub fn lists_project(projects: &Vec<String>, path: &str) -> (r: bool)
    ensures
        r == projects.deep_view().contains(path@),
{
    let wanted = path.to_owned();
    let mut i: usize = 0;
    while i < projects.len()
        invariant
            i <= projects.len(),
            wanted@ == path@,
            forall|k: int| 0 <= k < i ==> projects.deep_view()[k] != path@,
        decreases projects.len() - i,
    {
        if projects[i] == wanted {
            assert(projects.deep_view()[i as int] == path@);
            return true;
        }
        i = i + 1;
    }
    false
}

/// The projects with `path` added at the end, or why it is not added;
/// `path_exists` tells whether anything exists at the path.
pub fn add_project(path: &str, projects: &Vec<String>, path_exists: bool) -> (r: Result<Vec<String>, AddRefusal>)
    ensures
        result_view(r) == spec_add(path@, projects.deep_view(), path_exists),
{
    if !path_exists {
        Err(AddRefusal::NoSuchPath)
    } else if lists_project(projects, path) {
        Err(AddRefusal::AlreadyListed)
    } else {
        let mut out = projects.clone();
        out.push(path.to_owned());
        assert(out.deep_view() =~= projects.deep_view().push(path@));
        Ok(out)
    }
}

/// The projects without any entry equal to `path`, the others kept in order.
pub open spec fn spec_remove(path: Seq<char>, projects: Seq<Seq<char>>) -> Seq<Seq<char>> {
    projects.filter(other_than(path))
}

/// Holds of the entries that differ from `path`.
pub open spec fn other_than(path: Seq<char>) -> spec_fn(Seq<char>) -> bool {
    |p: Seq<char>| p != path
}

/// Takes `path` off the projects.
pub fn remove_project(path: &str, projects: Vec<String>) -> (r: Vec<String>)
    ensures
        r.deep_view() == spec_remove(path@, projects.deep_view()),
{
    let wanted = path.to_owned();
    let mut out: Vec<String> = Vec::new();
    let mut i: usize = 0;
    while i < projects.len()
        invariant
            i <= projects.len(),
            wanted@ == path@,
            out.deep_view() == spec_remove(path@, projects.deep_view().take(i as int)),
        decreases projects.len() - i,
    {
        let ghost pre = projects.deep_view().take(i as int);
        assert(projects.deep_view().take(i + 1) =~= pre.push(projects.deep_view()[i as int]));
        reveal_with_fuel(Seq::<_>::filter, 1);
        assert(projects.deep_view().take(i + 1).drop_last() =~= pre);
        if projects[i] != wanted {
            let ghost before = out.deep_view();
            out.push(projects[i].clone());
            assert(out.deep_view() =~= before.push(projects@[i as int]@));
        }
        i = i + 1;
    }
    assert(projects.deep_view().take(projects.len() as int) =~= projects.deep_view());
    out
}


/// Paths that can be written one per line and read back unchanged: none holds
/// a newline, none ends with a carriage return.
pub open spec fn storable(projects: Seq<Seq<char>>) -> bool {
    forall|k: int|
        0 <= k < projects.len() ==> {
            &&& forall|j: int| 0 <= j < projects[k].len() ==> projects[k][j] != '\n'
            &&& !(projects[k].len() > 0 && projects[k].last() == '\r')
        }
}

proof fn lemma_scan_joined(projects: Seq<Seq<char>>)
    requires
        storable(projects),
    ensures
        spec_scan(spec_joined(projects)) == (projects, Seq::<char>::empty()),
    decreases projects.len(),
{
    if projects.len() > 0 {
        let init = projects.drop_last();
        let p = projects.last();
        assert(storable(init)) by {
            assert forall|k: int| 0 <= k < init.len() implies init[k] == projects[k] by {}
        }
        lemma_scan_joined(init);
        assert(forall|j: int| 0 <= j < p.len() ==> p[j] != '\n') by {
            assert(p == projects[projects.len() - 1]);
        }
        lemma_scan_append_plain(spec_joined(init), p);
        assert(Seq::<char>::empty() + p =~= p);
        let s = spec_joined(projects);
        assert(s.drop_last() =~= spec_joined(init) + p);
        assert(init.push(p) =~= projects);
    } else {
        assert(spec_joined(projects) =~= Seq::<char>::empty());
        assert(projects =~= Seq::<Seq<char>>::empty());
    }
}

/// What is written to the projects file is read back: for storable paths,
/// the lines of the rendered text are the paths, in order.
pub proof fn lemma_render_parse_roundtrip(projects: Seq<Seq<char>>)
    requires
        storable(projects),
    ensures
        spec_lines(spec_joined(projects)) == projects,
{
    lemma_scan_joined(projects);
    let mapped = projects.map_values(|l: Seq<char>| strip_cr(l));
    assert forall|k: int| 0 <= k < projects.len() implies mapped[k] == projects[k] by {
        assert(strip_cr(projects[k]) == projects[k]);
    }
    assert(mapped + Seq::<Seq<char>>::empty() =~= projects);
}

/// Adding a path that is accepted puts it at the end of the projects, keeps
/// every other entry in place, and keeps the projects free of duplicates.
pub proof fn lemma_add_appends(path: Seq<char>, projects: Seq<Seq<char>>, path_exists: bool)
    requires
        spec_add(path, projects, path_exists) is Ok,
    ensures
        spec_add(path, projects, path_exists)->Ok_0 == projects.push(path),
        spec_add(path, projects, path_exists)->Ok_0.contains(path),
        projects.no_duplicates() ==> spec_add(path, projects, path_exists)->Ok_0.no_duplicates(),
{
    let r = projects.push(path);
    assert(r[projects.len() as int] == path);
    if projects.no_duplicates() {
        assert forall|i: int, j: int| 0 <= i < r.len() && 0 <= j < r.len() && i != j implies r[i]
            != r[j] by {
            if i == projects.len() {
                assert(!projects.contains(path));
                assert(r[j] == projects[j]);
            } else if j == projects.len() {
                assert(!projects.contains(path));
                assert(r[i] == projects[i]);
            }
        }
    }
}

/// A path is refused exactly when nothing exists at it or it is listed
/// already, and a refused path leaves the projects as they were.
pub proof fn lemma_add_refusals(path: Seq<char>, projects: Seq<Seq<char>>, path_exists: bool)
    ensures
        spec_add(path, projects, path_exists) == Err::<Seq<Seq<char>>, AddRefusal>(AddRefusal::NoSuchPath)
            <==> !path_exists,
        spec_add(path, projects, path_exists) == Err::<Seq<Seq<char>>, AddRefusal>(AddRefusal::AlreadyListed)
            <==> path_exists && projects.contains(path),
{
}

proof fn lemma_filter_keeps_all(path: Seq<char>, projects: Seq<Seq<char>>)
    requires
        !projects.contains(path),
    ensures
        spec_remove(path, projects) == projects,
    decreases projects.len(),
{
    reveal_with_fuel(Seq::<_>::filter, 1);
    if projects.len() > 0 {
        let init = projects.drop_last();
        assert(!init.contains(path)) by {
            if init.contains(path) {
                let k = choose|k: int| 0 <= k < init.len() && init[k] == path;
                assert(projects[k] == path);
            }
        }
        lemma_filter_keeps_all(path, init);
        assert(projects.last() != path) by {
            assert(projects[projects.len() - 1] == projects.last());
        }
        assert(init.push(projects.last()) =~= projects);
    }
}

/// Removing a path leaves no entry equal to it and keeps every other entry.
pub proof fn lemma_remove_drops_only_path(path: Seq<char>, projects: Seq<Seq<char>>, other: Seq<char>)
    requires
        other != path,
    ensures
        !spec_remove(path, projects).contains(path),
        spec_remove(path, projects).contains(other) == projects.contains(other),
{
    let pred = other_than(path);
    let r = projects.filter(pred);
    if r.contains(other) {
        projects.lemma_filter_contains_rev(pred, other);
    }
    if projects.contains(other) {
        let k = choose|k: int| 0 <= k < projects.len() && projects[k] == other;
        projects.lemma_filter_contains(pred, k);
    }
    if r.contains(path) {
        let k = choose|k: int| 0 <= k < r.len() && r[k] == path;
        projects.lemma_filter_pred(pred, k);
    }
}

/// Removing a path works entry by entry: a list without the path is kept
/// as it is, a lone copy of the path disappears, and removing from two lists
/// joined is removing from each and joining the results. So the other
/// entries keep their order: removing `path` from `q1 + [path] + q2`, where
/// neither part holds it, gives `q1 + q2`.
pub proof fn lemma_remove_keeps_order(path: Seq<char>, q1: Seq<Seq<char>>, q2: Seq<Seq<char>>)
    ensures
        !q1.contains(path) ==> spec_remove(path, q1) == q1,
        spec_remove(path, seq![path]) == Seq::<Seq<char>>::empty(),
        spec_remove(path, q1 + q2) == spec_remove(path, q1) + spec_remove(path, q2),
        !q1.contains(path) && !q2.contains(path) ==> spec_remove(path, q1 + seq![path] + q2) == q1 + q2,
{
    reveal_with_fuel(Seq::<_>::filter, 2);
    let pred = other_than(path);
    Seq::filter_distributes_over_add(q1, q2, pred);
    Seq::filter_distributes_over_add(q1, seq![path], pred);
    Seq::filter_distributes_over_add(q1 + seq![path], q2, pred);
    assert(seq![path].drop_last() =~= Seq::<Seq<char>>::empty());
    assert(spec_remove(path, seq![path]) =~= Seq::<Seq<char>>::empty());
    if !q1.contains(path) {
        lemma_filter_keeps_all(path, q1);
    }
    if !q1.contains(path) && !q2.contains(path) {
        lemma_filter_keeps_all(path, q2);
        assert(q1 + Seq::<Seq<char>>::empty() =~= q1);
    }
}

/// The last newline of the projects file may be left out: a text that does
/// not end in a line break (nor in a carriage return) has the same lines as
/// the same text with a newline after it. In particular, storable projects
/// written one per line read back the same without the final newline, as
/// long as the last one is not empty.
pub proof fn lemma_final_newline_optional(s: Seq<char>)
    requires
        s.len() > 0,
        s.last() != '\n',
        s.last() != '\r',
    ensures
        spec_lines(s) == spec_lines(s.push('\n')),
{
    let (done, cur) = spec_scan(s);
    let t = s.push('\n');
    assert(t.drop_last() =~= s);
    assert(spec_scan(t) == (done.push(cur), Seq::<char>::empty()));
    let (d0, c0) = spec_scan(s.drop_last());
    assert(cur == c0.push(s.last()));
    assert(cur.len() > 0 && cur.last() == s.last());
    assert(strip_cr(cur) == cur);
    assert(done.push(cur).map_values(|l: Seq<char>| strip_cr(l)) =~= done.map_values(
        |l: Seq<char>| strip_cr(l),
    ).push(strip_cr(cur)));
    assert(spec_lines(t) =~= done.push(cur).map_values(|l: Seq<char>| strip_cr(l)) + Seq::<
        Seq<char>,
    >::empty());
    assert(spec_lines(s) =~= done.map_values(|l: Seq<char>| strip_cr(l)) + seq![cur]);
}

/// Storable projects, the last one not empty, written one per line without
/// the final newline, read back as the same projects.
pub proof fn lemma_parse_without_final_newline(projects: Seq<Seq<char>>)
    requires
        storable(projects),
        projects.len() > 0,
        projects.last().len() > 0,
    ensures
        spec_lines(spec_joined(projects).drop_last()) == projects,
{
    lemma_render_parse_roundtrip(projects);
    let s = spec_joined(projects);
    let init = projects.drop_last();
    let p = projects.last();
    assert(s =~= spec_joined(init) + p + seq!['\n']);
    let t = s.drop_last();
    assert(t =~= spec_joined(init) + p);
    assert(p == projects[projects.len() - 1]);
    assert(t.last() == p.last());
    assert(p.last() == p[p.len() - 1]);
    assert(t.push('\n') =~= s);
    lemma_final_newline_optional(t);
}

/// Removing a path that was just added gives back the projects from before.
pub proof fn lemma_remove_undoes_add(path: Seq<char>, projects: Seq<Seq<char>>, path_exists: bool)
    requires
        spec_add(path, projects, path_exists) is Ok,
    ensures
        spec_remove(path, spec_add(path, projects, path_exists)->Ok_0) == projects,
{
    reveal_with_fuel(Seq::<_>::filter, 1);
    let r = projects.push(path);
    assert(r.drop_last() =~= projects);
    lemma_filter_keeps_all(path, projects);
}

} // verus!
