//! The organizer's configuration: a classification method and a concurrency
//! preference.

use vstd::prelude::*;

use crate::method::{cats_model, Category, OrganizeMethod};
use crate::model::CategoryModel;

verus! {

/// The category table of [`OrganizeOptions::default`]: five categories for
/// common document, image, audio, video and spreadsheet extensions.
pub open spec fn default_categories() -> Seq<CategoryModel> {
    seq![
        ("Documents"@, seq!["pdf"@, "txt"@, "docs"@]),
        ("Images"@, seq!["png"@, "jpg"@, "jpeg"@]),
        ("Audios"@, seq!["mp3"@, "wav"@, "flac"@]),
        ("Videos"@, seq!["mp4"@, "mov"@, "avi"@]),
        ("Sheets"@, seq!["csv"@, "xlsx"@, "ods"@]),
    ]
}

/// A category with exactly three extensions.
fn category3(name: &str, a: &str, b: &str, c: &str) -> (r: Category)
    ensures
        r@ == ((name@, seq![a@, b@, c@])),
{
    let mut extensions: Vec<String> = Vec::new();
    extensions.push(a.to_owned());
    extensions.push(b.to_owned());
    extensions.push(c.to_owned());
    proof {
        assert(extensions.deep_view() =~= seq![a@, b@, c@]);
    }
    Category { name: name.to_owned(), extensions }
}

/// How a directory is organized: the classification method, and whether the
/// categories may be worked on in parallel. The flag is advisory: it does
/// not change which file goes where.
#[derive(Debug)]
pub struct OrganizeOptions {
    pub method: OrganizeMethod,
    pub parallel: bool,
}

impl OrganizeOptions {
    /// Binds a method to a concurrency preference, unchanged.
    pub fn new(method: OrganizeMethod, parallel: bool) -> (r: Self)
        ensures
            r.method == method,
            r.parallel == parallel,
    {
        Self { method, parallel }
    }

    /// The default configuration: classify by extension with the
    /// [`default_categories`] table, with parallel work allowed.
    pub fn default() -> (r: Self)
        ensures
            r.parallel == true,
            r.method.spec_categories() == default_categories(),
    {
        let mut cats: Vec<Category> = Vec::new();
        cats.push(category3("Documents", "pdf", "txt", "docs"));
        cats.push(category3("Images", "png", "jpg", "jpeg"));
        cats.push(category3("Audios", "mp3", "wav", "flac"));
        cats.push(category3("Videos", "mp4", "mov", "avi"));
        cats.push(category3("Sheets", "csv", "xlsx", "ods"));
        proof {
            assert(cats_model(cats@) =~~= default_categories());
        }
        Self { method: OrganizeMethod::Extension(cats), parallel: true }
    }

    /// Replaces the classification method.
    pub fn set_method(&mut self, method: OrganizeMethod)
        ensures
            final(self).method == method,
            final(self).parallel == old(self).parallel,
    {
        self.method = method;
    }

    /// Replaces the concurrency preference.
    pub fn set_parallel(&mut self, parallel: bool)
        ensures
            final(self).method == old(self).method,
            final(self).parallel == parallel,
    {
        self.parallel = parallel;
    }
}

} // verus!
