use auto_fast_dl::naming::{batch_destinations, destination_path, unique_file_name};
use auto_fast_dl::sweep::{plan_sweep, EntryKind};

fn has_identifier_form(id: &str) -> bool {
    id.len() == 36
        && id.chars().enumerate().all(|(i, c)| {
            if i == 8 || i == 13 || i == 18 || i == 23 {
                c == '-'
            } else {
                c.is_ascii_digit() || ('a'..='f').contains(&c)
            }
        })
}

#[test]
fn file_name_is_an_identifier_with_the_extension() {
    for _ in 0..50 {
        let name = unique_file_name();
        assert_eq!(name.len(), 40);
        assert!(name.ends_with(".dat"));
        assert!(has_identifier_form(&name[..36]));
        assert!(!name.contains('/'));
    }
}

#[test]
fn file_names_differ() {
    let mut names: Vec<String> = (0..200).map(|_| unique_file_name()).collect();
    names.sort();
    names.dedup();
    assert_eq!(names.len(), 200);
}

#[test]
fn destination_lies_directly_under_the_directory() {
    assert_eq!(destination_path("downloads", "a.dat"), "downloads/a.dat");
    assert_eq!(destination_path("", "a.dat"), "/a.dat");
    assert_eq!(destination_path("/tmp/spill", "b.dat"), "/tmp/spill/b.dat");
}

#[test]
fn batch_gets_one_destination_per_item() {
    assert!(batch_destinations("downloads", 0).is_empty());
    let paths = batch_destinations("spill", 20);
    assert_eq!(paths.len(), 20);
    for path in &paths {
        let name = path.strip_prefix("spill/").expect("the directory comes first");
        assert_eq!(name.len(), 40);
        assert!(has_identifier_form(&name[..36]));
        assert_eq!(&name[36..], ".dat");
    }
    let mut distinct = paths.clone();
    distinct.sort();
    distinct.dedup();
    assert_eq!(distinct.len(), 20);
}

#[test]
fn sweep_targets_every_regular_file() {
    let listing = vec![
        EntryKind::Other,
        EntryKind::RegularFile,
        EntryKind::RegularFile,
        EntryKind::Other,
        EntryKind::RegularFile,
    ];
    assert_eq!(plan_sweep(&listing), vec![1, 2, 4]);
}

#[test]
fn sweep_of_an_empty_directory_removes_nothing() {
    assert_eq!(plan_sweep(&Vec::new()), Vec::<usize>::new());
}

#[test]
fn second_sweep_removes_nothing() {
    let listing = vec![EntryKind::RegularFile, EntryKind::Other, EntryKind::RegularFile];
    let targets = plan_sweep(&listing);
    let left: Vec<EntryKind> = listing
        .iter()
        .enumerate()
        .filter(|(i, _)| !targets.contains(i))
        .map(|(_, kind)| *kind)
        .collect();
    assert_eq!(left, vec![EntryKind::Other]);
    assert_eq!(plan_sweep(&left), Vec::<usize>::new());
}

#[test]
fn sweep_leaves_directories_alone() {
    assert_eq!(plan_sweep(&vec![EntryKind::Other, EntryKind::Other]), Vec::<usize>::new());
}
