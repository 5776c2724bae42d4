//! Finding the manifest of the Cargo workspace that a project belongs to.

use vstd::prelude::*;

verus! {

/// What to ask the project next, or what was found. `P` is the type of paths.
#[derive(Debug)]
pub enum ManifestStep<P> {
    /// Which worktree is the project's first?
    FirstWorktree,
    /// Which entry of the worktree has this name?
    Entry {
        worktree: usize,
        name: String,
    },
    /// Where is the entry of the worktree at this path on disk?
    AbsolutePath {
        worktree: usize,
        path: P,
    },
    /// The manifest, if the project has one.
    Done(Option<P>),
}

/// What the project replies to a step.
#[derive(Debug)]
pub enum ManifestReply<P> {
    /// The first worktree, if the project has any.
    Worktree(Option<usize>),
    /// The path of the entry, if there is one.
    Entry(Option<P>),
    /// The path on disk, if the entry has one.
    AbsolutePath(Option<P>),
}

/// Whether a reply is one to the step.
pub open spec fn answers<P>(step: ManifestStep<P>, reply: ManifestReply<P>) -> bool {
    match step {
        ManifestStep::FirstWorktree => reply is Worktree,
        ManifestStep::Entry { .. } => reply is Entry,
        ManifestStep::AbsolutePath { .. } => reply is AbsolutePath,
        ManifestStep::Done(..) => false,
    }
}

/// Whether `next` is the step after `step` and the project's reply to it: the
/// manifest is the entry `Cargo.toml` of the first worktree, and there is none
/// where a question has no answer.
pub open spec fn leads_to<P>(
    step: ManifestStep<P>,
    reply: ManifestReply<P>,
    next: ManifestStep<P>,
) -> bool {
    match (step, reply) {
        (_, ManifestReply::Worktree(Some(first))) => {
            &&& next matches ManifestStep::Entry { worktree, name }
            &&& worktree == first
            &&& name@ == "Cargo.toml"@
        },
        (ManifestStep::Entry { worktree, .. }, ManifestReply::Entry(Some(path))) => next
            == ManifestStep::AbsolutePath { worktree, path },
        (_, ManifestReply::AbsolutePath(Some(path))) => next == ManifestStep::Done(Some(path)),
        _ => next == ManifestStep::Done(None::<P>),
    }
}

/// The step after `step` and the project's reply to it. The first step is
/// `ManifestStep::FirstWorktree`.
pub fn path_to_cargo_toml<P>(step: ManifestStep<P>, reply: ManifestReply<P>) -> (next: ManifestStep<
    P,
>)
    requires
        answers(step, reply),
    ensures
        leads_to(step, reply, next),
{
    match (step, reply) {
        (_, ManifestReply::Worktree(Some(worktree))) => ManifestStep::Entry {
            worktree,
            name: "Cargo.toml".to_owned(),
        },
        (ManifestStep::Entry { worktree, .. }, ManifestReply::Entry(Some(path))) => {
            ManifestStep::AbsolutePath { worktree, path }
        },
        (_, ManifestReply::AbsolutePath(Some(path))) => ManifestStep::Done(Some(path)),
        _ => ManifestStep::Done(None),
    }
}

/// Three replies end the search. It asks for `Cargo.toml` in the first worktree,
/// and then where the entry that was found is on disk. It finds what the project answered last, if
/// it had an answer to every question, and nothing otherwise.
pub proof fn law_manifest_search_ends<P>(
    worktree: Option<usize>,
    entry: Option<P>,
    absolute: Option<P>,
    s1: ManifestStep<P>,
    s2: ManifestStep<P>,
    s3: ManifestStep<P>,
)
    requires
        leads_to(ManifestStep::FirstWorktree, ManifestReply::Worktree(worktree), s1),
        s1 is Entry ==> leads_to(s1, ManifestReply::Entry(entry), s2),
        s2 is AbsolutePath ==> leads_to(s2, ManifestReply::AbsolutePath(absolute), s3),
    ensures
        worktree is None ==> s1 == ManifestStep::Done(None::<P>),
        worktree is Some ==> {
            &&& s1 is Entry
            &&& s1->Entry_worktree == worktree->0
            &&& s1->name@ == "Cargo.toml"@
        },
        worktree is Some && entry is None ==> s2 == ManifestStep::Done(None::<P>),
        worktree is Some && entry is Some ==> s2 == (ManifestStep::AbsolutePath {
            worktree: worktree->0,
            path: entry->0,
        }) && s3 == ManifestStep::Done(absolute),
{
}

} // verus!
