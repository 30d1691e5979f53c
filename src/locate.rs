use vstd::prelude::*;
use crate::project::{has_descriptor, DockerCompose, ProjectView};
use crate::status::ComposeStatus;
use crate::text::{occurs_in, text_contains, text_eq};

verus! {

/// A subdirectory of the search root, as read from disk: its base name, its
/// path and the names of the regular files directly inside it.
pub struct Candidate {
    pub name: String,
    pub path: String,
    pub files: Vec<String>,
}

/// A base name passes the filter: there is none, or the name equals it or
/// contains it.
pub open spec fn passes_filter(name: Seq<char>, filter: Option<String>) -> bool {
    match filter {
        None => true,
        Some(f) => name == f@ || occurs_in(name, f@),
    }
}

/// A candidate is kept: it is a compose project and its name passes the filter.
pub open spec fn kept(c: Candidate, filter: Option<String>) -> bool {
    has_descriptor(c.files@) && passes_filter(c.name@, filter)
}

/// The project that a kept candidate becomes.
pub open spec fn project_of(c: Candidate) -> ProjectView {
    ProjectView { name: c.name@, path: c.path@, status: ComposeStatus::Stop }
}

/// The projects found among `cs`, in the order of `cs`.
pub open spec fn located(cs: Seq<Candidate>, filter: Option<String>) -> Seq<ProjectView>
    decreases cs.len(),
{
    if cs.len() == 0 {
        Seq::empty()
    } else {
        let rest = located(cs.drop_last(), filter);
        if kept(cs.last(), filter) {
            rest.push(project_of(cs.last()))
        } else {
            rest
        }
    }
}

/// The views of a list of projects.
pub open spec fn views(ps: Seq<DockerCompose>) -> Seq<ProjectView> {
    ps.map_values(|p: DockerCompose| p@)
}

/// Whether a base name passes the filter.
pub fn matches_filter(name: &str, filter: &Option<String>) -> (r: bool)
    ensures
        r == passes_filter(name@, *filter),
{
    match filter {
        None => true,
        Some(f) => text_contains(name, f.as_str()) || text_eq(name, f.as_str()),
    }
}

/// The compose projects among the subdirectories `candidates` whose names
/// pass `filter`, in the order in which the directories were listed. Every
/// project starts out stopped.
pub fn search_compose_dir(candidates: &Vec<Candidate>, filter: &Option<String>) -> (r: Vec<
    DockerCompose,
>)
    ensures
        views(r@) == located(candidates@, *filter),
{
    let mut found: Vec<DockerCompose> = Vec::new();
    let mut i: usize = 0;
    while i < candidates.len()
        invariant
            i <= candidates@.len(),
            views(found@) == located(candidates@.subrange(0, i as int), *filter),
        decreases candidates.len() - i,
    {
        let c = &candidates[i];
        proof {
            let pre = candidates@.subrange(0, i + 1);
            assert(pre.drop_last() =~= candidates@.subrange(0, i as int));
            assert(pre.last() == *c);
        }
        if let Some(p) = DockerCompose::build(c.name.as_str(), c.path.as_str(), &c.files) {
            if matches_filter(c.name.as_str(), filter) {
                found.push(p);
                assert(views(found@) =~= located(candidates@.subrange(0, i + 1), *filter));
            }
        }
        i = i + 1;
    }
    assert(candidates@.subrange(0, candidates@.len() as int) =~= candidates@);
    found
}

/// Every located project comes from a candidate that is kept, at an index no
/// later than its own.
proof fn lemma_located_from_kept(cs: Seq<Candidate>, filter: Option<String>, j: int)
    requires
        0 <= j < located(cs, filter).len(),
    ensures
        exists|i: int|
            0 <= i < cs.len() && kept(cs[i], filter) && #[trigger] located(cs, filter)[j]
                == project_of(cs[i]),
    decreases cs.len(),
{
    let rest = located(cs.drop_last(), filter);
    if j < rest.len() {
        lemma_located_from_kept(cs.drop_last(), filter, j);
        let i = choose|i: int|
            0 <= i < cs.drop_last().len() && kept(cs.drop_last()[i], filter) && #[trigger] rest[j]
                == project_of(cs.drop_last()[i]);
        assert(cs[i] == cs.drop_last()[i]);
        assert(located(cs, filter)[j] == rest[j]);
    } else {
        assert(kept(cs[cs.len() - 1], filter));
        assert(located(cs, filter)[j] == project_of(cs[cs.len() - 1]));
    }
}

/// Every kept candidate is located.
proof fn lemma_kept_located(cs: Seq<Candidate>, filter: Option<String>, i: int)
    requires
        0 <= i < cs.len(),
        kept(cs[i], filter),
    ensures
        exists|j: int|
            0 <= j < located(cs, filter).len() && #[trigger] located(cs, filter)[j]
                == project_of(cs[i]),
    decreases cs.len(),
{
    let rest = located(cs.drop_last(), filter);
    if i < cs.len() - 1 {
        assert(cs.drop_last()[i] == cs[i]);
        lemma_kept_located(cs.drop_last(), filter, i);
        let j = choose|j: int|
            0 <= j < rest.len() && #[trigger] rest[j] == project_of(cs.drop_last()[i]);
        assert(located(cs, filter)[j] == rest[j]);
    } else {
        assert(located(cs, filter)[rest.len() as int] == project_of(cs[i]));
    }
}

/// A directory without a compose descriptor is never located, and neither is
/// one whose name fails the filter: each located project is a kept
/// candidate.
pub proof fn lemma_only_projects_located(cs: Seq<Candidate>, filter: Option<String>)
    ensures
        forall|j: int|
            0 <= j < located(cs, filter).len() ==> exists|i: int|
                0 <= i < cs.len() && kept(cs[i], filter) && #[trigger] located(cs, filter)[j]
                    == project_of(cs[i]),
{
    assert forall|j: int| 0 <= j < located(cs, filter).len() implies exists|i: int|
        0 <= i < cs.len() && kept(cs[i], filter) && #[trigger] located(cs, filter)[j]
            == project_of(cs[i]) by {
        lemma_located_from_kept(cs, filter, j);
    }
}

/// Every compose project whose name passes the filter is located; in
/// particular, under a filter, every project whose name contains it.
pub proof fn lemma_matching_projects_located(cs: Seq<Candidate>, filter: Option<String>)
    ensures
        forall|i: int|
            0 <= i < cs.len() && has_descriptor(#[trigger] cs[i].files@) && passes_filter(
                cs[i].name@,
                filter,
            ) ==> exists|j: int|
                0 <= j < located(cs, filter).len() && located(cs, filter)[j] == project_of(
                    cs[i],
                ),
{
    assert forall|i: int|
        0 <= i < cs.len() && has_descriptor(#[trigger] cs[i].files@) && passes_filter(
            cs[i].name@,
            filter,
        ) implies exists|j: int|
        0 <= j < located(cs, filter).len() && located(cs, filter)[j] == project_of(cs[i]) by {
        lemma_kept_located(cs, filter, i);
    }
}

} // verus!
