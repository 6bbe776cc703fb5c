//! The mathematical model of classification and placement.
//!
//! Everything here is specification-level: category tables, file names and
//! placements are modelled as character sequences, and the plan a run
//! produces is a sequence of (folder, file name) pairs.

use vstd::prelude::*;

verus! {

/// A category as specifications see it: the destination folder's name and
/// the ordered list of extensions it matches.
pub type CategoryModel = (Seq<char>, Seq<Seq<char>>);

/// A planned placement: the destination folder's name and the name of the
/// file copied into it.
pub type PlacementModel = (Seq<char>, Seq<char>);

/// The extension of a file name: the characters after the last `'.'`.
/// A name without a `'.'` has none.
pub open spec fn ext_of(name: Seq<char>) -> Option<Seq<char>>
    decreases name.len(),
{
    if name.len() == 0 {
        None
    } else if name.last() == '.' {
        Some(Seq::empty())
    } else {
        match ext_of(name.drop_last()) {
            None => None,
            Some(e) => Some(e.push(name.last())),
        }
    }
}

/// The first category at or after position `i` whose extension list
/// contains `ext`, if any.
pub open spec fn first_match_from(ext: Seq<char>, cats: Seq<CategoryModel>, i: int) -> Option<
    Seq<char>,
>
    decreases cats.len() - i,
{
    if i < 0 || i >= cats.len() {
        None
    } else if cats[i].1.contains(ext) {
        Some(cats[i].0)
    } else {
        first_match_from(ext, cats, i + 1)
    }
}

/// The folder a file is placed in: the first category, in table order, whose
/// extension list contains the file's extension. `None` when the name has no
/// extension or no category lists it; such a file is never copied.
pub open spec fn category_for(name: Seq<char>, cats: Seq<CategoryModel>) -> Option<Seq<char>> {
    match ext_of(name) {
        None => None,
        Some(e) => first_match_from(e, cats, 0),
    }
}

/// The placements produced for `files`, in order: one per file that
/// classifies, none for a file that does not.
pub open spec fn plan_for(files: Seq<Seq<char>>, cats: Seq<CategoryModel>) -> Seq<PlacementModel>
    decreases files.len(),
{
    if files.len() == 0 {
        Seq::empty()
    } else {
        plan_for(files.drop_last(), cats) + (match category_for(files.last(), cats) {
            Some(c) => seq![(c, files.last())],
            None => Seq::empty(),
        })
    }
}

/// How many entries of `s` equal `x`.
pub open spec fn count_eq(s: Seq<Seq<char>>, x: Seq<char>) -> nat
    decreases s.len(),
{
    if s.len() == 0 {
        0
    } else {
        count_eq(s.drop_last(), x) + (if s.last() == x {
            1nat
        } else {
            0nat
        })
    }
}

/// How many placements of `plan` place the file named `name`.
pub open spec fn count_placed(plan: Seq<PlacementModel>, name: Seq<char>) -> nat
    decreases plan.len(),
{
    if plan.len() == 0 {
        0
    } else {
        count_placed(plan.drop_last(), name) + (if plan.last().1 == name {
            1nat
        } else {
            0nat
        })
    }
}

/// The destination files a plan creates, as (folder, file name) pairs.
pub open spec fn destinations(plan: Seq<PlacementModel>) -> Set<PlacementModel> {
    plan.to_set()
}

/// The destination files present after the placements of `plan` are carried
/// out over a directory tree that already holds the destinations `dests`.
/// Copying overwrites, so carrying a placement out twice leaves one file:
/// the result is a union.
pub open spec fn apply_plan(dests: Set<PlacementModel>, plan: Seq<PlacementModel>) -> Set<
    PlacementModel,
> {
    dests + destinations(plan)
}

/// An empty category table places nothing.
pub proof fn lemma_plan_for_empty_table(files: Seq<Seq<char>>)
    ensures
        plan_for(files, Seq::empty()) == Seq::<PlacementModel>::empty(),
    decreases files.len(),
{
    if files.len() > 0 {
        lemma_plan_for_empty_table(files.drop_last());
        assert(plan_for(files, Seq::empty()) =~= Seq::<PlacementModel>::empty());
    }
}

/// A name in which no character is a `'.'` has no extension.
pub proof fn lemma_no_dot_no_extension(name: Seq<char>)
    requires
        forall|k: int| 0 <= k < name.len() ==> name[k] != '.',
    ensures
        ext_of(name) is None,
    decreases name.len(),
{
    if name.len() > 0 {
        lemma_no_dot_no_extension(name.drop_last());
    }
}

/// When position `j` holds the last `'.'` of a name, the extension is
/// exactly the characters after `j`.
pub proof fn lemma_ext_after_last_dot(name: Seq<char>, j: int)
    requires
        0 <= j < name.len(),
        name[j] == '.',
        forall|k: int| j < k < name.len() ==> name[k] != '.',
    ensures
        ext_of(name) == Some(name.subrange(j + 1, name.len() as int)),
    decreases name.len(),
{
    let len = name.len() as int;
    if j == len - 1 {
        assert(name.last() == '.');
        assert(name.subrange(j + 1, len) =~= Seq::<char>::empty());
    } else {
        lemma_ext_after_last_dot(name.drop_last(), j);
        let prev = name.drop_last().subrange(j + 1, len - 1);
        assert(prev.push(name.last()) =~= name.subrange(j + 1, len));
    }
}

} // verus!
