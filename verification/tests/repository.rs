use kbs::repository::{
    push_path, LocalFs, LocalFsRepoDesc, RepositoryError, ResourceDesc, DEFAULT_REPO_DIR_PATH,
};

fn desc(repo: &str, ty: &str, tag: &str) -> ResourceDesc {
    ResourceDesc {
        repository_name: repo.to_string(),
        resource_type: ty.to_string(),
        resource_tag: tag.to_string(),
    }
}

#[test]
fn default_repo_desc_names_default_dir() {
    let d = LocalFsRepoDesc::default();
    assert_eq!(d.dir_path.as_deref(), Some("/opt/confidential-containers/kbs/repository"));
    assert_eq!(DEFAULT_REPO_DIR_PATH, "/opt/confidential-containers/kbs/repository");
}

#[test]
fn new_uses_configured_dir() {
    let d = LocalFsRepoDesc { dir_path: Some("/tmp/repo".to_string()) };
    let fs = LocalFs::new(&d).expect("create local fs failed");
    assert_eq!(fs.repo_dir_path, "/tmp/repo");
}

#[test]
fn new_falls_back_to_default_dir() {
    let d = LocalFsRepoDesc { dir_path: None };
    let fs = LocalFs::new(&d).expect("create local fs failed");
    assert_eq!(fs.repo_dir_path, DEFAULT_REPO_DIR_PATH);
}

#[test]
fn push_path_joins_like_a_path_buffer() {
    let mut p = "a".to_string();
    push_path(&mut p, "b");
    assert_eq!(p, "a/b");
    let mut p = "a/".to_string();
    push_path(&mut p, "b");
    assert_eq!(p, "a/b");
    let mut p = String::new();
    push_path(&mut p, "b");
    assert_eq!(p, "b");
    let mut p = "a".to_string();
    push_path(&mut p, "/etc");
    assert_eq!(p, "/etc");
    let mut p = "a".to_string();
    push_path(&mut p, "");
    assert_eq!(p, "a/");
}

#[test]
fn write_locations() {
    let fs = LocalFs { repo_dir_path: "/tmp/repo".to_string() };
    let d = desc("default", "test", "test");
    assert_eq!(fs.resource_dir(&d), "/tmp/repo/default/test");
    assert_eq!(fs.resource_file(&d), "/tmp/repo/default/test/test");
    assert_eq!(d.ref_path(), "default/test/test");
}

#[test]
fn read_asks_tool_for_written_file() {
    let fs = LocalFs { repo_dir_path: "/tmp/repo/".to_string() };
    let d = desc("alice", "key", "example");
    let args = fs.read_command_args(&d);
    assert_eq!(
        args,
        vec!["get", "-d", "/tmp/repo/", "-r", "alice", "-k", "key", "-t", "example"]
    );
    let mut joined = args[2].clone();
    push_path(&mut joined, &args[4]);
    push_path(&mut joined, &args[6]);
    push_path(&mut joined, &args[8]);
    assert_eq!(joined, fs.resource_file(&d));
    assert_eq!(joined, "/tmp/repo/alice/key/example");
}

#[test]
fn read_outcome_returns_tool_output() {
    let fs = LocalFs { repo_dir_path: "/r".to_string() };
    let d = desc("default", "test", "test");
    let out = fs.read_outcome(&d, true, b"testdata".to_vec());
    assert_eq!(out.unwrap(), b"testdata".to_vec());
}

#[test]
fn read_outcome_failure_names_resource() {
    let fs = LocalFs { repo_dir_path: "/r".to_string() };
    let d = desc("default", "test", "test");
    match fs.read_outcome(&d, false, b"ignored".to_vec()) {
        Err(RepositoryError::ReadFailed(m)) => assert_eq!(m, "fail to read default/test/test"),
        other => panic!("unexpected {:?}", other),
    }
}

#[test]
fn different_resources_get_different_files() {
    let fs = LocalFs { repo_dir_path: "/tmp/repo".to_string() };
    let files = [
        fs.resource_file(&desc("a", "b", "c")),
        fs.resource_file(&desc("a", "bc", "d")),
        fs.resource_file(&desc("ab", "c", "d")),
        fs.resource_file(&desc("a", "b", "cd")),
    ];
    for i in 0..files.len() {
        for j in 0..files.len() {
            if i != j {
                assert_ne!(files[i], files[j]);
            }
        }
    }
}
