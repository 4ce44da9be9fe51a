use s3_browser::util::{create_unique_filepath, object_filename, u64_to_string};

fn names(list: &[&str]) -> Vec<String> {
    list.iter().map(|s| s.to_string()).collect()
}

#[test]
fn test_free_name_is_kept() {
    let existing = names(&["other.txt"]);
    assert_eq!(create_unique_filepath(&existing, "report.txt"), "report.txt");
    assert_eq!(create_unique_filepath(&Vec::new(), "report.txt"), "report.txt");
}

#[test]
fn test_collision_counts_upward() {
    let existing = names(&["report.txt", "report (1).txt"]);
    assert_eq!(create_unique_filepath(&existing, "report.txt"), "report (2).txt");
}

#[test]
fn test_first_gap_wins() {
    let existing = names(&["report.txt", "report (2).txt"]);
    assert_eq!(create_unique_filepath(&existing, "report.txt"), "report (1).txt");
}

#[test]
fn test_name_without_extension() {
    let existing = names(&["report", "report (1)"]);
    assert_eq!(create_unique_filepath(&existing, "report"), "report (2)");
}

#[test]
fn test_hidden_file_keeps_its_leading_dot() {
    let existing = names(&[".profile"]);
    assert_eq!(create_unique_filepath(&existing, ".profile"), ".profile (1)");
}

#[test]
fn test_only_the_last_dot_separates_the_extension() {
    let existing = names(&["archive.tar.gz"]);
    assert_eq!(create_unique_filepath(&existing, "archive.tar.gz"), "archive.tar (1).gz");
}

#[test]
fn test_object_filename_takes_the_last_segment() {
    assert_eq!(object_filename("folder/sub/report.txt"), "report.txt");
    assert_eq!(object_filename("report.txt"), "report.txt");
    assert_eq!(object_filename("folder/"), "");
    assert_eq!(object_filename(""), "");
}

#[test]
fn test_decimal_rendering() {
    assert_eq!(u64_to_string(0), "0");
    assert_eq!(u64_to_string(7), "7");
    assert_eq!(u64_to_string(10), "10");
    assert_eq!(u64_to_string(90217), "90217");
}
