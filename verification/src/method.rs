//! Classification methods and the verified classification routines.

use vstd::prelude::*;

use crate::model::{
    category_for, ext_of, first_match_from, lemma_ext_after_last_dot, lemma_no_dot_no_extension,
    CategoryModel,
};

verus! {

/// One category of an extension table: the destination folder's name and the
/// extensions it matches. Extensions are matched case-sensitively, without a
/// leading `'.'` (write `"pdf"`, not `".pdf"`).
#[derive(Debug)]
pub struct Category {
    pub name: String,
    pub extensions: Vec<String>,
}

impl View for Category {
    type V = CategoryModel;

    open spec fn view(&self) -> CategoryModel {
        (self.name@, self.extensions.deep_view())
    }
}

/// The model of a whole category table.
pub open spec fn cats_model(cats: Seq<Category>) -> Seq<CategoryModel> {
    cats.map_values(|c: Category| c@)
}

/// How to assign a file to a destination folder.
#[derive(Debug)]
pub enum OrganizeMethod {
    /// Classify by the file name's extension, against an ordered table of
    /// categories. The first category listing the extension wins.
    Extension(Vec<Category>),
    /// Classify by last-modified date. Not implemented: classifies no files.
    Date,
    /// Classify by the name's first character. Not implemented: classifies
    /// no files.
    Alphabetical,
    /// Classify by file size. Not implemented: classifies no files.
    Size,
}

impl OrganizeMethod {
    /// The category table the method classifies with: the listed categories
    /// for `Extension`, and an empty table for the methods that classify no
    /// files.
    pub open spec fn spec_categories(&self) -> Seq<CategoryModel> {
        match self {
            OrganizeMethod::Extension(cats) => cats_model(cats@),
            _ => Seq::empty(),
        }
    }

    /// Wraps a caller-supplied extension table.
    pub fn custom_extension(extensions: Vec<Category>) -> (r: Self)
        ensures
            r == OrganizeMethod::Extension(extensions),
    {
        OrganizeMethod::Extension(extensions)
    }
}

/// The extension of `name`: the characters after the last `'.'`, or `None`
/// when the name holds no `'.'`.
pub fn extension_of(name: &str) -> (r: Option<String>)
    ensures
        r matches Some(e) ==> ext_of(name@) == Some(e@),
        r is None ==> ext_of(name@) is None,
{
    let len = name.unicode_len();
    let mut i = len;
    while i > 0
        invariant
            i <= len,
            len == name@.len(),
            forall|k: int| i <= k < len ==> name@[k] != '.',
        decreases i,
    {
        i = i - 1;
        if name.get_char(i) == '.' {
            proof {
                lemma_ext_after_last_dot(name@, i as int);
            }
            let ext = name.substring_char(i + 1, len);
            return Some(ext.to_owned());
        }
    }
    proof {
        lemma_no_dot_no_extension(name@);
    }
    None
}

/// Whether some entry of `v` equals `s`.
fn contains_string(v: &Vec<String>, s: &String) -> (r: bool)
    ensures
        r == v.deep_view().contains(s@),
{
    let mut i: usize = 0;
    while i < v.len()
        invariant
            i <= v.len(),
            forall|k: int| 0 <= k < i ==> v.deep_view()[k] != s@,
        decreases v.len() - i,
    {
        if v[i].eq(s) {
            assert(v.deep_view()[i as int] == s@);
            return true;
        }
        i = i + 1;
    }
    false
}

/// The name of the first category in `cats`, in table order, whose extension
/// list contains `ext`.
pub fn first_match(cats: &Vec<Category>, ext: &String) -> (r: Option<String>)
    ensures
        r matches Some(c) ==> first_match_from(ext@, cats_model(cats@), 0) == Some(c@),
        r is None ==> first_match_from(ext@, cats_model(cats@), 0) is None,
{
    let ghost m = cats_model(cats@);
    let mut i: usize = 0;
    while i < cats.len()
        invariant
            i <= cats.len(),
            m == cats_model(cats@),
            m.len() == cats@.len(),
            first_match_from(ext@, m, 0) == first_match_from(ext@, m, i as int),
        decreases cats.len() - i,
    {
        assert(m[i as int] == cats@[i as int]@);
        if contains_string(&cats[i].extensions, ext) {
            assert(m[i as int].1.contains(ext@));
            return Some(cats[i].name.clone());
        }
        assert(!m[i as int].1.contains(ext@));
        i = i + 1;
    }
    None
}

/// The destination folder for `name` under the table `cats`: the first
/// category whose extension list contains the name's extension. A name with
/// no `'.'`, or whose extension no category lists, gets none.
pub fn classify(name: &String, cats: &Vec<Category>) -> (r: Option<String>)
    ensures
        r matches Some(c) ==> category_for(name@, cats_model(cats@)) == Some(c@),
        r is None ==> category_for(name@, cats_model(cats@)) is None,
{
    match extension_of(name.as_str()) {
        None => None,
        Some(ext) => first_match(cats, &ext),
    }
}

} // verus!
