use ibs::discover::{find_project_entry, xcodeproj_stem, DirEntryInfo};

fn entry(name: &str, is_dir: bool) -> DirEntryInfo {
    DirEntryInfo { name: name.to_string(), is_dir }
}

#[test]
fn stem_of_a_project_bundle_name() {
    assert_eq!(xcodeproj_stem("MyApp.xcodeproj"), Some("MyApp".to_string()));
}

#[test]
fn stem_keeps_earlier_dots() {
    assert_eq!(xcodeproj_stem("a.b.xcodeproj"), Some("a.b".to_string()));
}

#[test]
fn bare_suffix_is_not_a_project_bundle() {
    assert_eq!(xcodeproj_stem(".xcodeproj"), None);
}

#[test]
fn missing_dot_is_not_a_project_bundle() {
    assert_eq!(xcodeproj_stem("MyAppxcodeproj"), None);
}

#[test]
fn other_extension_is_not_a_project_bundle() {
    assert_eq!(xcodeproj_stem("MyApp.xcworkspace"), None);
    assert_eq!(xcodeproj_stem("short"), None);
    assert_eq!(xcodeproj_stem(""), None);
}

#[test]
fn finds_the_first_project_bundle() {
    let entries = vec![
        entry("README.md", false),
        entry("Sources", true),
        entry("First.xcodeproj", true),
        entry("Second.xcodeproj", true),
    ];
    assert_eq!(find_project_entry(&entries), Some("First".to_string()));
}

#[test]
fn skips_a_plain_file_with_the_suffix() {
    let entries = vec![entry("NotADir.xcodeproj", false), entry("Real.xcodeproj", true)];
    assert_eq!(find_project_entry(&entries), Some("Real".to_string()));
}

#[test]
fn reports_nothing_without_a_project_bundle() {
    let entries = vec![entry("Sources", true), entry("project.yml", false)];
    assert_eq!(find_project_entry(&entries), None);
    let empty: Vec<DirEntryInfo> = Vec::new();
    assert_eq!(find_project_entry(&empty), None);
}
