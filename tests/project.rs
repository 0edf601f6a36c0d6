use std::path::Path;
use std::time::SystemTime;
use std::time::UNIX_EPOCH;

use cid::config::CidConfig;
use cid::project::CreateInput;
use cid::project::OpenInput;
use cid::project::Project;
use cid::project_manager::CreateProjectInput;
use cid::project_manager::MainProjectManager;
use cid::project_manager::OpenProjectInput;
use cid::project_manager::ProjectManager;
use cid::git::RepoError;

/// A directory under /tmp that no earlier run used.
fn unique_dir(name: &str) -> String {
    let nanos = SystemTime::now().duration_since(UNIX_EPOCH).unwrap().as_nanos();
    format!("/tmp/cid-test-{}-{}", name, nanos)
}

/// Writes `content` to the working tree's `dump.sql`, leaving the index alone.
fn write_dump(repo_path: &str, content: &[u8]) {
    let raw = git2::Repository::open(repo_path).unwrap();
    let blob = raw.blob(content).unwrap();
    let mut builder = raw.treebuilder(None).unwrap();
    builder.insert("dump.sql", blob, 0o100644).unwrap();
    let tree = raw.find_tree(builder.write().unwrap()).unwrap();
    let mut checkout = git2::build::CheckoutBuilder::new();
    checkout.force().update_index(false);
    raw.checkout_tree(tree.as_object(), Some(&mut checkout)).unwrap();
}

fn set_identity(repo_path: &str) {
    let raw = git2::Repository::open(repo_path).unwrap();
    let mut config = raw.config().unwrap();
    config.set_str("user.name", "Tester").unwrap();
    config.set_str("user.email", "tester@example.com").unwrap();
}

fn commit_dump(project: &Project, message: &str, dump: &[u8]) -> Option<String> {
    write_dump(project.repo_path(), dump);
    project.commit(message).unwrap()
}

#[test]
fn open_binds_paths_without_touching_disk() {
    let project = Project::open(OpenInput {
        project_dir: "/nonexistent/root".to_string(),
        project_name: "shop".to_string(),
        db_uri: "u:p@host/db".to_string(),
    })
    .unwrap();
    assert_eq!(project.name(), "shop");
    assert_eq!(project.db_uri(), "u:p@host/db");
    assert_eq!(project.project_dir(), "/nonexistent/root");
    assert_eq!(project.repo_path(), "/nonexistent/root/shop");
    assert_eq!(project.sql_path(), "dump.sql");
    assert_eq!(project.absolute_sql_path(), "/nonexistent/root/shop/dump.sql");
    match project.commit("v1") {
        Err(RepoError::ProjectNotFound { name }) => assert_eq!(name, "shop"),
        other => panic!("unexpected {:?}", other),
    }
}

#[test]
fn create_makes_the_repository() {
    let root = unique_dir("create");
    let root = root.as_str();
    let project = Project::create(CreateInput {
        project_name: "shop".to_string(),
        project_dir: root.to_string(),
        db_uri: "u@h/d".to_string(),
    })
    .unwrap();
    assert!(Path::new(root).join("shop").join(".git").exists());
    assert_eq!(project.repo_path(), format!("{}/shop", root));
    // Creating it again opens the same repository.
    assert!(Project::create(CreateInput {
        project_name: "shop".to_string(),
        project_dir: root.to_string(),
        db_uri: "u@h/d".to_string(),
    })
    .is_ok());
}

#[test]
fn end_to_end_create_commit_and_read_back() {
    let root = unique_dir("end-to-end");
    let root = root.as_str();

    let mut manager = MainProjectManager::new(CidConfig::empty());
    let project = manager
        .create_project(&CreateProjectInput { project_dir: root, project_name: "shop", db_uri: "u:p@host/db" })
        .unwrap();
    assert!(Path::new(project.repo_path()).join(".git").exists());
    assert_eq!(manager.get_project_names(), vec!["shop"]);
    assert_eq!(manager.cid_config().project_configs().len(), 1);
    set_identity(project.repo_path());

    let h1 = commit_dump(&project, "v1", b"A").unwrap();
    assert_eq!(commit_dump(&project, "v1", b"A"), None);
    let h2 = commit_dump(&project, "v2", b"B").unwrap();
    assert_ne!(h1, h2);
    assert_eq!(project.get_dump_at_commit(&h1).unwrap(), b"A".to_vec());
    assert_eq!(project.get_dump_at_commit(&h2).unwrap(), b"B".to_vec());
    assert_eq!(project.get_latest_dump().unwrap(), b"B".to_vec());

    let reopened = manager.open_registered_project(root, "shop").unwrap();
    assert_eq!(reopened.db_uri(), "u:p@host/db");
    assert_eq!(reopened.get_latest_dump().unwrap(), b"B".to_vec());
    assert!(manager.open_registered_project(root, "missing").is_err());

    let opened = manager
        .open_project(&OpenProjectInput { project_dir: root, project_name: "shop", db_uri: "x@y/z" })
        .unwrap();
    assert_eq!(opened.db_uri(), "x@y/z");
}
