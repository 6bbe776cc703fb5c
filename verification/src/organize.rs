//! The organizer: binds a directory path to a configuration and turns the
//! directory's file names into a placement plan.

use vstd::prelude::*;

use crate::method::{cats_model, classify, Category, OrganizeMethod};
use crate::model::{lemma_plan_for_empty_table, plan_for, PlacementModel};
use crate::options::OrganizeOptions;

verus! {

/// One planned copy: the file named `file_name`, found directly under the
/// target path, is copied into the folder `category` under that same path,
/// keeping its name.
pub struct Placement {
    pub category: String,
    pub file_name: String,
}

impl View for Placement {
    type V = PlacementModel;

    open spec fn view(&self) -> PlacementModel {
        (self.category@, self.file_name@)
    }
}

/// The model of a whole plan.
pub open spec fn placements_model(plan: Seq<Placement>) -> Seq<PlacementModel> {
    plan.map_values(|p: Placement| p@)
}

/// Why a run was refused outright. Per-file troubles (an unreadable
/// directory, a vanished file, a failed copy) never surface here: the
/// front end reports them and goes on.
#[derive(Debug)]
pub enum OrganizeError {
    /// The target path was empty. Nothing was planned.
    InvalidInput,
}

impl OrganizeError {
    /// A human-readable description of the failure.
    pub fn message(&self) -> (r: &'static str)
        ensures
            r@ == "Path cannot be empty"@,
    {
        "Path cannot be empty"
    }
}

/// The placement plan for `files` under the table `cats`: files are taken in
/// order, and each that classifies contributes one placement.
fn build_plan(files: &Vec<String>, cats: &Vec<Category>) -> (r: Vec<Placement>)
    ensures
        placements_model(r@) == plan_for(files.deep_view(), cats_model(cats@)),
{
    let ghost m = cats_model(cats@);
    let ghost fseq = files.deep_view();
    let mut plan: Vec<Placement> = Vec::new();
    let mut i: usize = 0;
    while i < files.len()
        invariant
            i <= files.len(),
            m == cats_model(cats@),
            fseq == files.deep_view(),
            fseq.len() == files@.len(),
            placements_model(plan@) == plan_for(fseq.take(i as int), m),
        decreases files.len() - i,
    {
        let ghost prev = plan_for(fseq.take(i as int), m);
        proof {
            assert(fseq.take(i + 1).drop_last() =~= fseq.take(i as int));
            assert(fseq.take(i + 1).last() == fseq[i as int]);
            assert(fseq[i as int] == files@[i as int]@);
        }
        match classify(&files[i], cats) {
            Some(category) => {
                let p = Placement { category, file_name: files[i].clone() };
                proof {
                    assert(plan_for(fseq.take(i + 1), m) =~= prev + seq![p@]);
                }
                plan.push(p);
                proof {
                    assert(placements_model(plan@) =~= prev + seq![p@]);
                }
            },
            None => {
                proof {
                    assert(plan_for(fseq.take(i + 1), m) =~= prev);
                }
            },
        }
        i = i + 1;
    }
    proof {
        assert(fseq.take(files@.len() as int) =~= fseq);
    }
    plan
}

/// Binds a target directory path to an [`OrganizeOptions`] and plans the
/// run.
pub struct Organize {
    pub options: OrganizeOptions,
    pub path: String,
}

impl Organize {
    /// Binds `path` and `options`, unchanged. No work happens yet.
    pub fn new(path: String, options: OrganizeOptions) -> (r: Self)
        ensures
            r.path == path,
            r.options == options,
    {
        Self { path, options }
    }

    /// Replaces the target path.
    pub fn set_path(&mut self, path: String)
        ensures
            final(self).path == path,
            final(self).options == old(self).options,
    {
        self.path = path;
    }

    /// Replaces the configuration.
    pub fn set_options(&mut self, options: OrganizeOptions)
        ensures
            final(self).options == options,
            final(self).path == old(self).path,
    {
        self.options = options;
    }

    /// Plans the run over `files`, the names of the regular files found
    /// directly under the target path.
    ///
    /// An empty path is the one fatal condition: it is refused before any
    /// file is considered, and an empty plan means no folder is created and
    /// no file copied. Otherwise the plan holds one placement per file that
    /// classifies under the configured method, in the order the files were
    /// given; methods other than extension classification classify no files,
    /// so their plan is empty.
    pub fn execute(self, files: Vec<String>) -> (r: Result<Vec<Placement>, OrganizeError>)
        ensures
            r is Err <==> self.path@.len() == 0,
            r matches Ok(plan) ==> placements_model(plan@) == plan_for(
                files.deep_view(),
                self.options.method.spec_categories(),
            ),
    {
        if self.path.as_str().is_empty() {
            return Err(OrganizeError::InvalidInput);
        }
        match &self.options.method {
            OrganizeMethod::Extension(cats) => Ok(build_plan(&files, cats)),
            _ => {
                proof {
                    lemma_plan_for_empty_table(files.deep_view());
                }
                Ok(Vec::new())
            },
        }
    }
}

} // verus!
