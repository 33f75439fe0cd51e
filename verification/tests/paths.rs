use epsilon_templates::global;
use epsilon_templates::maps::manager::{get_map_path, map_exist, map_names};
use epsilon_templates::parents::manager::{
    get_parent_file_path, get_parent_path, get_parent_plugins_path, parent_exist,
};
use epsilon_templates::templates::manager::{
    get_details_file_path, get_template_path, get_template_plugins_path, template_exist,
};
use epsilon_templates::templates::utils::{
    composed_archive_path, context_archive_path, scratch_dir,
};

#[test]
fn directories_of_the_store() {
    assert_eq!(global::PARENTS_DIR, "./data/parents");
    assert_eq!(global::TEMPLATES_DIR, "./data/templates");
    assert_eq!(global::MAPS_DIR, "./data/maps");
    assert_eq!(global::DATA_DIR, "./data");
    assert_eq!(global::DATA_TMP_FILES_DIR, "./data/tmp");
    assert_eq!(global::TMP_DIR, "./tmp");
}

#[test]
fn parent_paths() {
    assert_eq!(get_parent_path("base"), "./data/parents/base");
    assert_eq!(get_parent_plugins_path("base"), "./data/parents/base/plugins");
    assert_eq!(get_parent_file_path("base"), "./data/parents/base/parents.epsilon");
}

#[test]
fn template_paths() {
    assert_eq!(get_template_path("srv1"), "./data/templates/srv1");
    assert_eq!(get_template_plugins_path("srv1"), "./data/templates/srv1/plugins");
    assert_eq!(get_details_file_path("srv1"), "./data/templates/srv1/details.epsilon");
}

#[test]
fn map_paths() {
    assert_eq!(get_map_path("lobby"), "./data/maps/lobby.zip");
    assert_eq!(get_map_path(""), "./data/maps/.zip");
}

#[test]
fn scratch_paths() {
    assert_eq!(scratch_dir("srv1"), "./tmp/srv1");
    assert_eq!(context_archive_path("srv1"), "./tmp/srv1/srv1.tar");
    assert_eq!(composed_archive_path("srv1"), "./tmp/srv1/srv1.zip");
}

#[test]
fn nothing_exists_under_an_unused_name() {
    let name = "no-such-entity-7f3a9c1e5b";
    assert!(!parent_exist(name));
    assert!(!template_exist(name));
    assert!(!map_exist(name));
}

#[test]
fn map_names_keep_only_archives() {
    let files = vec![
        "lobby.zip".to_string(),
        "notes.txt".to_string(),
        "arena.zip".to_string(),
        "zip".to_string(),
        ".zip".to_string(),
    ];
    assert_eq!(map_names(&files), vec!["lobby".to_string(), "arena".to_string(), "".to_string()]);
}

#[test]
fn map_names_take_off_one_ending() {
    let files = vec!["a.zip.zip".to_string(), "b.zipped.zip".to_string(), "c.zip.bak".to_string()];
    assert_eq!(map_names(&files), vec!["a.zip".to_string(), "b.zipped".to_string()]);
}

#[test]
fn a_listed_map_has_its_file() {
    let files = vec!["lobby.zip".to_string(), "a.zip.zip".to_string(), ".zip".to_string()];
    let paths: Vec<String> = map_names(&files).iter().map(|name| get_map_path(name)).collect();
    assert_eq!(
        paths,
        vec![
            "./data/maps/lobby.zip".to_string(),
            "./data/maps/a.zip.zip".to_string(),
            "./data/maps/.zip".to_string(),
        ]
    );
}

#[test]
fn map_names_of_no_files() {
    let files: Vec<String> = Vec::new();
    assert!(map_names(&files).is_empty());
}
