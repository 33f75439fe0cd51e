use epsilon_templates::templates::archive::Archive;
use epsilon_templates::templates::utils::{
    compose, lies_below, member_path, write_paths_in_zip, ArchiveError, Entry, EntryKind,
};
use std::io::Read;

fn entry(path: &[&str], kind: EntryKind) -> Entry {
    Entry { segments: path.iter().map(|s| s.to_string()).collect(), kind }
}

fn segments(path: &[&str]) -> Vec<String> {
    path.iter().map(|s| s.to_string()).collect()
}

fn member_names(bytes: &[u8]) -> Vec<String> {
    let mut reader = zip::ZipArchive::new(std::io::Cursor::new(bytes.to_vec())).unwrap();
    let mut names = Vec::new();
    for i in 0..reader.len() {
        names.push(reader.by_index(i).unwrap().name().to_string());
    }
    names
}

fn member_content(bytes: &[u8], name: &str) -> Vec<u8> {
    let mut reader = zip::ZipArchive::new(std::io::Cursor::new(bytes.to_vec())).unwrap();
    let mut member = reader.by_name(name).unwrap();
    let mut content = Vec::new();
    member.read_to_end(&mut content).unwrap();
    content
}

fn parent_root() -> Vec<String> {
    segments(&[".", "data", "parents", "p"])
}

fn template_root() -> Vec<String> {
    segments(&[".", "data", "templates", "t"])
}

fn parent_tree() -> Vec<Entry> {
    vec![
        entry(&[".", "data", "parents", "p", "a"], EntryKind::Directory),
        entry(&[".", "data", "parents", "p", "a", "b.txt"], EntryKind::File(b"parent file".to_vec())),
    ]
}

fn template_tree() -> Vec<Entry> {
    vec![entry(&[".", "data", "templates", "t", "c.txt"], EntryKind::File(b"template file".to_vec()))]
}

#[test]
fn member_path_is_what_follows_the_root() {
    assert_eq!(
        member_path(&segments(&[".", "data", "parents", "p", "a", "b.txt"]), &parent_root()),
        Some("a/b.txt".to_string())
    );
    assert_eq!(member_path(&segments(&["p", "a"]), &segments(&["p"])), Some("a".to_string()));
    assert_eq!(member_path(&segments(&["a"]), &segments(&[])), Some("a".to_string()));
}

#[test]
fn member_path_keeps_names_that_repeat_the_root() {
    assert_eq!(
        member_path(&segments(&["data", "parents", "p", "p", "x.txt"]), &segments(&["data", "parents", "p"])),
        Some("p/x.txt".to_string())
    );
    assert_eq!(
        member_path(
            &segments(&[".", "data", "parents", "parents", "a.txt"]),
            &segments(&[".", "data", "parents", "parents"])
        ),
        Some("a.txt".to_string())
    );
    assert_eq!(
        member_path(&segments(&[".", "data", "parents", "data", "a.txt"]), &segments(&[".", "data", "parents", "data"])),
        Some("a.txt".to_string())
    );
}

#[test]
fn member_path_outside_the_root_is_none() {
    assert_eq!(member_path(&segments(&["x", "y"]), &segments(&["p"])), None);
    assert_eq!(member_path(&segments(&["p"]), &segments(&["p"])), None);
    assert_eq!(member_path(&segments(&[]), &segments(&["p"])), None);
    assert_eq!(member_path(&segments(&["pp", "a"]), &segments(&["p"])), None);
    assert_eq!(member_path(&segments(&["x", "p", "a"]), &segments(&["p"])), None);
    assert!(lies_below(&segments(&["p", "a"]), &segments(&["p"])));
    assert!(!lies_below(&segments(&["q", "a"]), &segments(&["p"])));
}

#[test]
fn compose_round_trip() {
    let bytes = compose(&parent_tree(), &parent_root(), &template_tree(), &template_root()).unwrap();
    let mut names = member_names(&bytes);
    names.sort();
    assert_eq!(names, vec!["a/".to_string(), "a/b.txt".to_string(), "c.txt".to_string()]);
    assert_eq!(member_content(&bytes, "a/b.txt"), b"parent file".to_vec());
    assert_eq!(member_content(&bytes, "c.txt"), b"template file".to_vec());
}

#[test]
fn compose_of_a_parent_named_like_its_directory() {
    let root = segments(&[".", "data", "parents", "parents"]);
    let parent = vec![entry(&[".", "data", "parents", "parents", "a.txt"], EntryKind::File(vec![7]))];
    let template_root = segments(&[".", "data", "templates", "data"]);
    let template = vec![entry(&[".", "data", "templates", "data", "b.txt"], EntryKind::File(vec![8]))];
    let bytes = compose(&parent, &root, &template, &template_root).unwrap();
    assert_eq!(member_names(&bytes), vec!["a.txt".to_string(), "b.txt".to_string()]);
}

#[test]
fn compose_writes_parent_before_template() {
    let bytes = compose(&parent_tree(), &parent_root(), &template_tree(), &template_root()).unwrap();
    assert_eq!(member_names(&bytes), vec!["a/".to_string(), "a/b.txt".to_string(), "c.txt".to_string()]);
}

#[test]
fn compose_twice_gives_identical_bytes() {
    let first = compose(&parent_tree(), &parent_root(), &template_tree(), &template_root()).unwrap();
    let second = compose(&parent_tree(), &parent_root(), &template_tree(), &template_root()).unwrap();
    assert_eq!(first, second);
}

#[test]
fn compose_of_empty_trees_is_a_valid_empty_archive() {
    let bytes = compose(&Vec::new(), &parent_root(), &Vec::new(), &template_root()).unwrap();
    assert!(!bytes.is_empty());
    assert!(member_names(&bytes).is_empty());
}

#[test]
fn compose_keeps_empty_directories() {
    let parent = vec![entry(&["p", "plugins"], EntryKind::Directory)];
    let bytes = compose(&parent, &segments(&["p"]), &Vec::new(), &segments(&["t"])).unwrap();
    assert_eq!(member_names(&bytes), vec!["plugins/".to_string()]);
}

#[test]
fn compose_lets_the_template_override_the_parent() {
    let parent = vec![entry(&["p", "server.properties"], EntryKind::File(b"from parent".to_vec()))];
    let template = vec![entry(&["t", "server.properties"], EntryKind::File(b"from template".to_vec()))];
    let bytes = compose(&parent, &segments(&["p"]), &template, &segments(&["t"])).unwrap();
    assert_eq!(member_content(&bytes, "server.properties"), b"from template".to_vec());
}

#[test]
fn compose_passes_over_what_is_neither_file_nor_directory() {
    let parent = vec![
        entry(&["p", "socket"], EntryKind::Other),
        entry(&["elsewhere"], EntryKind::Other),
        entry(&["p", "file"], EntryKind::File(Vec::new())),
    ];
    let bytes = compose(&parent, &segments(&["p"]), &Vec::new(), &segments(&["t"])).unwrap();
    assert_eq!(member_names(&bytes), vec!["file".to_string()]);
    assert!(member_content(&bytes, "file").is_empty());
}

#[test]
fn compose_fails_on_an_unreadable_source() {
    let template = vec![
        entry(&[".", "data", "templates", "t", "ok.txt"], EntryKind::File(vec![1])),
        entry(&[".", "data", "templates", "t", "locked.txt"], EntryKind::Unreadable("Permission denied".to_string())),
        entry(&["elsewhere", "x"], EntryKind::Directory),
    ];
    match compose(&parent_tree(), &parent_root(), &template, &template_root()) {
        Err(ArchiveError::Source(reason)) => assert_eq!(reason, "Permission denied"),
        other => panic!("an unreadable source was expected, not {:?}", other.map(|b| b.len())),
    }
}

#[test]
fn compose_fails_on_an_entry_outside_its_tree() {
    let parent = vec![
        entry(&[".", "data", "parents", "p", "a"], EntryKind::Directory),
        entry(&[".", "data", "parents", "q", "b.txt"], EntryKind::File(vec![1])),
    ];
    let done = compose(&parent, &parent_root(), &template_tree(), &template_root());
    assert!(matches!(done, Err(ArchiveError::Outside)));
    let root_itself = vec![entry(&[".", "data", "parents", "p"], EntryKind::Directory)];
    let done = compose(&root_itself, &parent_root(), &Vec::new(), &template_root());
    assert!(matches!(done, Err(ArchiveError::Outside)));
}

#[test]
fn the_first_failure_is_reported() {
    let parent = vec![
        entry(&["elsewhere"], EntryKind::File(vec![1])),
        entry(&["p", "locked"], EntryKind::Unreadable("Permission denied".to_string())),
    ];
    let done = compose(&parent, &segments(&["p"]), &Vec::new(), &segments(&["t"]));
    assert!(matches!(done, Err(ArchiveError::Outside)));
    let template = vec![entry(&["t", "locked"], EntryKind::Unreadable("first".to_string()))];
    let parent = vec![entry(&["p", "locked"], EntryKind::Unreadable("parent".to_string()))];
    match compose(&parent, &segments(&["p"]), &template, &segments(&["t"])) {
        Err(ArchiveError::Source(reason)) => assert_eq!(reason, "parent"),
        other => panic!("the parent's failure was expected, not {:?}", other.map(|b| b.len())),
    }
}

#[test]
fn archive_error_messages() {
    assert_eq!(ArchiveError::Source("a".to_string()).message(), "a");
    assert_eq!(ArchiveError::Write("b".to_string()).message(), "b");
    assert_eq!(ArchiveError::Outside.message(), "A path lies outside its tree.");
    assert_eq!(ArchiveError::Finish.message(), "An error occurred on finish writing zip file.");
}

#[test]
fn write_paths_in_zip_adds_to_what_is_there() {
    let mut archive = Archive::new();
    write_paths_in_zip(&mut archive, &parent_tree(), &parent_root()).unwrap();
    write_paths_in_zip(&mut archive, &template_tree(), &template_root()).unwrap();
    let bytes = archive.finish().unwrap();
    assert_eq!(member_names(&bytes), vec!["a/".to_string(), "a/b.txt".to_string(), "c.txt".to_string()]);
    assert_eq!(
        bytes,
        compose(&parent_tree(), &parent_root(), &template_tree(), &template_root()).unwrap()
    );
}

#[test]
fn write_paths_in_zip_without_entries_leaves_the_archive() {
    let mut archive = Archive::new();
    write_paths_in_zip(&mut archive, &Vec::new(), &parent_root()).unwrap();
    write_paths_in_zip(&mut archive, &vec![entry(&["socket"], EntryKind::Other)], &template_root()).unwrap();
    let bytes = archive.finish().unwrap();
    assert!(member_names(&bytes).is_empty());
    assert_eq!(bytes, Archive::new().finish().unwrap());
}
