//! The laws of the placement plan, stated once and proved for every
//! category table and every list of file names.

use vstd::prelude::*;

use crate::model::{
    apply_plan, category_for, count_eq, count_placed, ext_of, first_match_from,
    lemma_no_dot_no_extension, plan_for, CategoryModel, PlacementModel,
};

verus! {

/// Every placement of a plan is the classification of its own file: a file
/// is only ever sent to the folder `category_for` picks for it.
pub proof fn lemma_placements_classified(files: Seq<Seq<char>>, cats: Seq<CategoryModel>)
    ensures
        forall|j: int|
            0 <= j < plan_for(files, cats).len() ==> category_for(
                #[trigger] plan_for(files, cats)[j].1,
                cats,
            ) == Some(plan_for(files, cats)[j].0),
    decreases files.len(),
{
    if files.len() > 0 {
        lemma_placements_classified(files.drop_last(), cats);
        let prefix = plan_for(files.drop_last(), cats);
        let plan = plan_for(files, cats);
        assert forall|j: int|
            0 <= j < plan.len() implies category_for(#[trigger] plan[j].1, cats) == Some(
            plan[j].0,
        ) by {
            if j < prefix.len() {
                assert(plan[j] == prefix[j]);
            } else {
                assert(category_for(files.last(), cats) == Some(plan[j].0));
            }
        }
    }
}

/// A file that classifies is placed: its (folder, name) pair stands in the
/// plan. Together with [`lemma_placements_classified`] this pins down which
/// folder receives it.
pub proof fn lemma_matched_file_is_placed(
    files: Seq<Seq<char>>,
    cats: Seq<CategoryModel>,
    i: int,
    c: Seq<char>,
)
    requires
        0 <= i < files.len(),
        category_for(files[i], cats) == Some(c),
    ensures
        plan_for(files, cats).contains((c, files[i])),
    decreases files.len(),
{
    let plan = plan_for(files, cats);
    let prefix = plan_for(files.drop_last(), cats);
    if i == files.len() - 1 {
        assert(plan[prefix.len() as int] == (c, files[i]));
    } else {
        assert(files.drop_last()[i] == files[i]);
        lemma_matched_file_is_placed(files.drop_last(), cats, i, c);
        let j = choose|j: int| 0 <= j < prefix.len() && prefix[j] == (c, files[i]);
        assert(plan[j] == (c, files[i]));
    }
}

/// A file that does not classify — its extension matches no category, or it
/// has none — is never placed: no placement of the plan names it.
pub proof fn lemma_unmatched_file_not_placed(
    files: Seq<Seq<char>>,
    cats: Seq<CategoryModel>,
    name: Seq<char>,
)
    requires
        category_for(name, cats) is None,
    ensures
        forall|j: int|
            0 <= j < plan_for(files, cats).len() ==> #[trigger] plan_for(files, cats)[j].1
                != name,
{
    lemma_placements_classified(files, cats);
}

/// A file whose name holds no `'.'` is never placed, under any category
/// table.
pub proof fn lemma_no_dot_never_placed(
    files: Seq<Seq<char>>,
    cats: Seq<CategoryModel>,
    name: Seq<char>,
)
    requires
        forall|k: int| 0 <= k < name.len() ==> name[k] != '.',
    ensures
        forall|j: int|
            0 <= j < plan_for(files, cats).len() ==> #[trigger] plan_for(files, cats)[j].1
                != name,
{
    lemma_no_dot_no_extension(name);
    lemma_unmatched_file_not_placed(files, cats, name);
}

/// Where classification starting at position `i` finds a category, there is
/// a first one: its position, at which the extension is listed, while no
/// earlier category from `i` on lists it.
proof fn lemma_first_match_from_wins(
    ext: Seq<char>,
    cats: Seq<CategoryModel>,
    i: int,
    c: Seq<char>,
) -> (k: int)
    requires
        0 <= i,
        first_match_from(ext, cats, i) == Some(c),
    ensures
        i <= k < cats.len(),
        cats[k].0 == c,
        cats[k].1.contains(ext),
        forall|m: int| i <= m < k ==> !(#[trigger] cats[m].1.contains(ext)),
    decreases cats.len() - i,
{
    if cats[i].1.contains(ext) {
        i
    } else {
        lemma_first_match_from_wins(ext, cats, i + 1, c)
    }
}

/// First match wins: when a file is sent to folder `c`, some category named
/// `c` lists the file's extension, and no category before it in the table
/// does. When several categories list the same extension, the earliest one
/// alone receives the file.
pub proof fn lemma_first_match_wins(name: Seq<char>, cats: Seq<CategoryModel>, c: Seq<char>) -> (k:
    int)
    requires
        category_for(name, cats) == Some(c),
    ensures
        0 <= k < cats.len(),
        cats[k].0 == c,
        ext_of(name) is Some,
        cats[k].1.contains(ext_of(name).unwrap()),
        forall|m: int| 0 <= m < k ==> !(#[trigger] cats[m].1.contains(ext_of(name).unwrap())),
{
    lemma_first_match_from_wins(ext_of(name).unwrap(), cats, 0, c)
}

/// A plan places a file exactly as often as it occurs among the candidates
/// when it classifies, and never when it does not.
pub proof fn lemma_placed_count(files: Seq<Seq<char>>, cats: Seq<CategoryModel>, name: Seq<char>)
    ensures
        count_placed(plan_for(files, cats), name) == (if category_for(name, cats) is Some {
            count_eq(files, name)
        } else {
            0nat
        }),
    decreases files.len(),
{
    if files.len() > 0 {
        lemma_placed_count(files.drop_last(), cats, name);
        let prefix = plan_for(files.drop_last(), cats);
        let plan = plan_for(files, cats);
        match category_for(files.last(), cats) {
            Some(c) => {
                assert(plan.drop_last() =~= prefix);
                assert(plan.last() == (c, files.last()));
            },
            None => {
                assert(plan =~= prefix);
            },
        }
    }
}

/// Exactly one: a candidate that occurs once and classifies is placed once —
/// into one folder, not several — even when several categories list its
/// extension.
pub proof fn lemma_exactly_one_placement(
    files: Seq<Seq<char>>,
    cats: Seq<CategoryModel>,
    name: Seq<char>,
)
    requires
        count_eq(files, name) == 1,
        category_for(name, cats) is Some,
    ensures
        count_placed(plan_for(files, cats), name) == 1,
{
    lemma_placed_count(files, cats, name);
}

/// Idempotence of a run: carrying the same placements out a second time
/// leaves the destination files as they were. Since a run copies and never
/// moves or deletes, the top-level candidates — and with them the plan
/// itself, a pure function of candidates and table — are the same on a
/// second run, so running twice yields the tree of running once.
pub proof fn lemma_apply_plan_idempotent(dests: Set<PlacementModel>, plan: Seq<PlacementModel>)
    ensures
        apply_plan(apply_plan(dests, plan), plan) == apply_plan(dests, plan),
{
    assert(apply_plan(apply_plan(dests, plan), plan) =~= apply_plan(dests, plan));
}

/// A run only adds: every destination file present before the placements
/// are carried out is still present after. A category folder that already
/// exists keeps its contents.
pub proof fn lemma_apply_plan_keeps_existing(dests: Set<PlacementModel>, plan: Seq<PlacementModel>)
    ensures
        dests.subset_of(apply_plan(dests, plan)),
{
}

} // verus!
