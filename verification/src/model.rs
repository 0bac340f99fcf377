//! A model of the filesystem writer's effect: a plan's write actions
//! applied, in order, to a map from path to file content. The writer
//! overwrites, so running the same plan a second time changes nothing —
//! re-scaffolding is not detected, only repeated.

use vstd::prelude::*;

use crate::plan::SpecAction;

verus! {

/// One action applied to the written files: a write stores its content
/// under its path, overwriting what was there; every other action leaves
/// the files as they are.
pub open spec fn apply_action(
    files: Map<Seq<char>, Seq<char>>,
    a: SpecAction,
) -> Map<Seq<char>, Seq<char>> {
    match a {
        SpecAction::WriteFile { path, content } => files.insert(path, content),
        _ => files,
    }
}

/// A whole plan applied to the written files, first action first.
pub open spec fn apply_plan(
    files: Map<Seq<char>, Seq<char>>,
    plan: Seq<SpecAction>,
) -> Map<Seq<char>, Seq<char>>
    decreases plan.len(),
{
    if plan.len() == 0 {
        files
    } else {
        apply_action(apply_plan(files, plan.drop_last()), plan.last())
    }
}

/// The content of the last write to `path` in `plan`, if the plan writes
/// that path at all.
pub open spec fn last_write(plan: Seq<SpecAction>, path: Seq<char>) -> Option<Seq<char>>
    decreases plan.len(),
{
    if plan.len() == 0 {
        Option::None
    } else {
        match plan.last() {
            SpecAction::WriteFile { path: p, content } => if p == path {
                Option::Some(content)
            } else {
                last_write(plan.drop_last(), path)
            },
            _ => last_write(plan.drop_last(), path),
        }
    }
}

/// A write overwrites: after it, the file holds exactly the written
/// content, whatever stood there before.
pub proof fn lemma_write_overwrites(
    files: Map<Seq<char>, Seq<char>>,
    path: Seq<char>,
    content: Seq<char>,
)
    ensures
        apply_action(files, (SpecAction::WriteFile { path, content })).contains_key(path),
        apply_action(files, (SpecAction::WriteFile { path, content }))[path] == content,
{
}

/// After a plan runs, each path holds the content of the plan's last write
/// to it; a path the plan never writes keeps its prior content.
pub proof fn lemma_apply_plan_last_write(
    files: Map<Seq<char>, Seq<char>>,
    plan: Seq<SpecAction>,
    path: Seq<char>,
)
    ensures
        apply_plan(files, plan).contains_key(path) <==> files.contains_key(path) || last_write(
            plan,
            path,
        ) is Some,
        last_write(plan, path) matches Option::Some(c) ==> apply_plan(files, plan)[path] == c,
        last_write(plan, path) is None && files.contains_key(path) ==> apply_plan(files, plan)[path]
            == files[path],
    decreases plan.len(),
{
    if plan.len() != 0 {
        lemma_apply_plan_last_write(files, plan.drop_last(), path);
    }
}

/// Re-running a plan is not an append: the second run overwrites each file
/// with the same content, so the files after two runs equal the files after
/// one.
pub proof fn lemma_rerun_overwrites(files: Map<Seq<char>, Seq<char>>, plan: Seq<SpecAction>)
    ensures
        apply_plan(apply_plan(files, plan), plan) == apply_plan(files, plan),
{
    let once = apply_plan(files, plan);
    let twice = apply_plan(once, plan);
    assert forall|path: Seq<char>| #[trigger]
        twice.dom().contains(path) <==> once.dom().contains(path) by {
        lemma_apply_plan_last_write(files, plan, path);
        lemma_apply_plan_last_write(once, plan, path);
    }
    assert forall|path: Seq<char>| once.dom().contains(path) implies #[trigger] (twice[path])
        == once[path] by {
        lemma_apply_plan_last_write(files, plan, path);
        lemma_apply_plan_last_write(once, plan, path);
    }
    assert(twice =~= once);
}

} // verus!
