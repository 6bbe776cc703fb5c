//! Behavioral tests of the placement engine on concrete directories.

use organize::method::{Category, OrganizeMethod};
use organize::options::OrganizeOptions;
use organize::organize::{Organize, OrganizeError, Placement};

fn strings(xs: &[&str]) -> Vec<String> {
    xs.iter().map(|s| s.to_string()).collect()
}

fn cat(name: &str, exts: &[&str]) -> Category {
    Category { name: name.to_string(), extensions: strings(exts) }
}

fn plan_default(files: &[&str]) -> Vec<Placement> {
    Organize::new("dir".to_string(), OrganizeOptions::default())
        .execute(strings(files))
        .unwrap()
}

fn plan_with(cats: Vec<Category>, files: &[&str]) -> Vec<Placement> {
    let options = OrganizeOptions::new(OrganizeMethod::custom_extension(cats), false);
    Organize::new("dir".to_string(), options).execute(strings(files)).unwrap()
}

#[test]
fn default_scenario_places_known_extensions() {
    let plan = plan_default(&["a.pdf", "b.png", "c.xyz"]);
    assert_eq!(plan.len(), 2);
    assert_eq!(plan[0].category, "Documents");
    assert_eq!(plan[0].file_name, "a.pdf");
    assert_eq!(plan[1].category, "Images");
    assert_eq!(plan[1].file_name, "b.png");
    assert!(plan.iter().all(|p| p.file_name != "c.xyz"));
}

#[test]
fn default_table_covers_all_five_categories() {
    let plan = plan_default(&["t.txt", "j.jpeg", "d.mp3", "v.mov", "s.ods"]);
    let expect = [
        ("Documents", "t.txt"),
        ("Images", "j.jpeg"),
        ("Audios", "d.mp3"),
        ("Videos", "v.mov"),
        ("Sheets", "s.ods"),
    ];
    assert_eq!(plan.len(), expect.len());
    for (p, (category, file_name)) in plan.iter().zip(expect.iter()) {
        assert_eq!(p.category, *category);
        assert_eq!(p.file_name, *file_name);
    }
}

#[test]
fn unmatched_extension_is_left_in_place() {
    let plan = plan_default(&["notes.abc"]);
    assert!(plan.is_empty());
}

#[test]
fn name_without_dot_is_never_moved() {
    let plan = plan_default(&["README", "Makefile", "pdf"]);
    assert!(plan.is_empty());
}

#[test]
fn name_without_dot_is_skipped_even_when_listed() {
    // A category listing the bare name does not catch it: only the part
    // after a '.' is an extension.
    let plan = plan_with(vec![cat("Docs", &["README"])], &["README"]);
    assert!(plan.is_empty());
}

#[test]
fn only_last_dot_counts() {
    let plan = plan_with(vec![cat("Archives", &["gz", "tar"])], &["backup.tar.gz"]);
    assert_eq!(plan.len(), 1);
    assert_eq!(plan[0].category, "Archives");
    assert_eq!(plan[0].file_name, "backup.tar.gz");
}

#[test]
fn leading_dot_name_has_an_extension() {
    let plan = plan_default(&[".pdf"]);
    assert_eq!(plan.len(), 1);
    assert_eq!(plan[0].category, "Documents");
    assert_eq!(plan[0].file_name, ".pdf");
}

#[test]
fn trailing_dot_is_an_empty_extension() {
    let plan = plan_default(&["file."]);
    assert!(plan.is_empty());
}

#[test]
fn matching_is_case_sensitive() {
    let plan = plan_default(&["A.PDF"]);
    assert!(plan.is_empty());
}

#[test]
fn shared_extension_goes_to_exactly_one_category() {
    let cats = vec![cat("First", &["pdf"]), cat("Second", &["pdf"])];
    let plan = plan_with(cats, &["x.pdf"]);
    let hits: Vec<&Placement> = plan.iter().filter(|p| p.file_name == "x.pdf").collect();
    assert_eq!(hits.len(), 1);
    assert_eq!(hits[0].category, "First");
}

#[test]
fn placements_follow_file_order() {
    let plan = plan_default(&["b.png", "a.pdf"]);
    assert_eq!(plan.len(), 2);
    assert_eq!(plan[0].file_name, "b.png");
    assert_eq!(plan[1].file_name, "a.pdf");
}

#[test]
fn repeated_candidate_is_placed_each_time() {
    let plan = plan_default(&["x.pdf", "x.pdf"]);
    assert_eq!(plan.len(), 2);
    assert!(plan.iter().all(|p| p.category == "Documents" && p.file_name == "x.pdf"));
}

#[test]
fn no_files_means_no_placements() {
    let plan = plan_default(&[]);
    assert!(plan.is_empty());
}

#[test]
fn empty_table_places_nothing() {
    let plan = plan_with(vec![], &["a.pdf", "b.png"]);
    assert!(plan.is_empty());
}

#[test]
fn empty_path_is_invalid_input() {
    let org = Organize::new(String::new(), OrganizeOptions::default());
    let r = org.execute(strings(&["a.pdf"]));
    assert!(matches!(r, Err(OrganizeError::InvalidInput)));
}

#[test]
fn invalid_input_message() {
    let e = OrganizeError::InvalidInput;
    assert_eq!(e.message(), "Path cannot be empty");
}

#[test]
fn planning_is_deterministic() {
    let first = plan_default(&["a.pdf", "b.png", "c.xyz", "d.mp3"]);
    let second = plan_default(&["a.pdf", "b.png", "c.xyz", "d.mp3"]);
    assert_eq!(first.len(), second.len());
    for (p, q) in first.iter().zip(second.iter()) {
        assert_eq!(p.category, q.category);
        assert_eq!(p.file_name, q.file_name);
    }
}

#[test]
fn unimplemented_methods_place_nothing() {
    for method in [OrganizeMethod::Date, OrganizeMethod::Alphabetical, OrganizeMethod::Size] {
        let options = OrganizeOptions::new(method, true);
        let plan =
            Organize::new("dir".to_string(), options).execute(strings(&["a.pdf"])).unwrap();
        assert!(plan.is_empty());
    }
}

#[test]
fn set_method_replaces_the_table() {
    let mut options = OrganizeOptions::default();
    options.set_method(OrganizeMethod::custom_extension(vec![cat("Text", &["txt"])]));
    let plan =
        Organize::new("dir".to_string(), options).execute(strings(&["a.pdf", "b.txt"])).unwrap();
    assert_eq!(plan.len(), 1);
    assert_eq!(plan[0].category, "Text");
    assert_eq!(plan[0].file_name, "b.txt");
}

#[test]
fn set_parallel_does_not_change_the_plan() {
    let mut options = OrganizeOptions::default();
    options.set_parallel(false);
    let plan =
        Organize::new("dir".to_string(), options).execute(strings(&["a.pdf"])).unwrap();
    assert_eq!(plan.len(), 1);
    assert_eq!(plan[0].category, "Documents");
}

#[test]
fn set_path_can_invalidate_a_run() {
    let mut org = Organize::new("dir".to_string(), OrganizeOptions::default());
    org.set_path(String::new());
    let r = org.execute(strings(&["a.pdf"]));
    assert!(matches!(r, Err(OrganizeError::InvalidInput)));
}

#[test]
fn set_options_replaces_the_configuration() {
    let mut org = Organize::new("dir".to_string(), OrganizeOptions::default());
    org.set_options(OrganizeOptions::new(OrganizeMethod::Date, false));
    let plan = org.execute(strings(&["a.pdf"])).unwrap();
    assert!(plan.is_empty());
}
