use rocket_cc_file_server::ConfigError;
use rocket_cc_file_server::MountConfig;
use rocket_cc_file_server::Policy;
use rocket_cc_file_server::ResolvedTarget;
use rocket_cc_file_server::resolve::candidate_path;
use rocket_cc_file_server::resolve::resolve;
use rocket_cc_file_server::resolve::validate_root;

fn policy() -> Policy {
    Policy { dot_files: false, index: true, index_file: false, normalize_dirs: false, missing: false }
}

fn mount_with(policy: Policy) -> MountConfig {
    MountConfig { root: String::from("test_dir"), rank: 10, policy }
}

fn segs(parts: &[&str]) -> Vec<String> {
    parts.iter().map(|s| String::from(*s)).collect()
}

fn expect_serve(r: ResolvedTarget) -> String {
    match r {
        ResolvedTarget::ServeFile(p) => p,
        _ => panic!("expected a file to serve"),
    }
}

fn expect_redirect(r: ResolvedTarget) -> String {
    match r {
        ResolvedTarget::Redirect(p) => p,
        _ => panic!("expected a redirect"),
    }
}

#[test]
fn file_request_serves_joined_path() {
    let config = mount_with(policy());
    let r = resolve(&config, &segs(&["a", "b.txt"]), "/files/a/b.txt", false, false);
    assert_eq!(expect_serve(r), "test_dir/a/b.txt");
}

#[test]
fn empty_request_serves_root() {
    let config = mount_with(policy());
    let r = resolve(&config, &segs(&[]), "/files", false, false);
    assert_eq!(expect_serve(r), "test_dir");
}

#[test]
fn traversal_cannot_escape_root() {
    let config = mount_with(policy());

    let r = resolve(&config, &segs(&["..", "..", "secret"]), "/files/../../secret", false, false);
    assert_eq!(expect_serve(r), "test_dir/secret");

    let r = resolve(&config, &segs(&["a", "..", "b"]), "/files/a/../b", false, false);
    assert_eq!(expect_serve(r), "test_dir/b");

    let r = resolve(&config, &segs(&["..", "a", "..", ".."]), "/files/../a/../..", false, false);
    assert_eq!(expect_serve(r), "test_dir");
}

#[test]
fn dotfile_segment_is_not_handled() {
    let config = mount_with(policy());
    let r = resolve(&config, &segs(&[".hidden"]), "/files/.hidden", false, false);
    assert!(matches!(r, ResolvedTarget::NotHandled));

    let mut allowing = policy();
    allowing.dot_files = true;
    let config = mount_with(allowing);
    let r = resolve(&config, &segs(&[".hidden"]), "/files/.hidden", false, false);
    assert_eq!(expect_serve(r), "test_dir/.hidden");
}

#[test]
fn reserved_characters_are_not_handled() {
    let config = mount_with(policy());
    for bad in ["*glob", "name:", "name>", "name<", "a/b"] {
        let r = resolve(&config, &segs(&[bad]), "/files/x", false, false);
        assert!(matches!(r, ResolvedTarget::NotHandled));
        assert!(candidate_path(&config, &segs(&[bad])).is_none());
    }
}

#[test]
fn empty_segment_contributes_nothing() {
    let config = mount_with(policy());
    let r = resolve(&config, &segs(&["", "x"]), "/files//x", false, false);
    assert_eq!(expect_serve(r), "test_dir/x");
}

#[test]
fn normalize_dirs_redirects_with_one_slash() {
    let mut p = policy();
    p.normalize_dirs = true;
    let config = mount_with(p);
    let r = resolve(&config, &segs(&["dir"]), "/files/dir", false, true);
    assert_eq!(expect_redirect(r), "/files/dir/");

    // The redirect is owed whatever the index policy says.
    let mut without_index = p;
    without_index.index = false;
    let config = mount_with(without_index);
    let r = resolve(&config, &segs(&["dir"]), "/files/dir", false, true);
    assert_eq!(expect_redirect(r), "/files/dir/");
}

#[test]
fn directory_with_index_serves_index_html() {
    let config = mount_with(policy());
    let r = resolve(&config, &segs(&["dir"]), "/files/dir/", false, true);
    assert_eq!(expect_serve(r), "test_dir/dir/index.html");
}

#[test]
fn normalized_path_still_resolves_index() {
    let mut p = policy();
    p.normalize_dirs = true;
    let config = mount_with(p);
    let r = resolve(&config, &segs(&["dir"]), "/files/dir/", false, true);
    assert_eq!(expect_serve(r), "test_dir/dir/index.html");
}

#[test]
fn directory_without_index_is_not_handled() {
    let mut p = policy();
    p.index = false;
    let config = mount_with(p);
    let r = resolve(&config, &segs(&["dir"]), "/files/dir/", false, true);
    assert!(matches!(r, ResolvedTarget::NotHandled));
}

#[test]
fn index_file_mount_serves_only_the_empty_path() {
    let mut p = policy();
    p.index_file = true;
    let config = mount_with(p);

    let r = resolve(&config, &segs(&[]), "/files", true, false);
    assert_eq!(expect_serve(r), "test_dir");

    let r = resolve(&config, &segs(&["anything"]), "/files/anything", true, false);
    assert!(matches!(r, ResolvedTarget::NotHandled));
}

#[test]
fn index_file_mount_with_directory_root_uses_normal_flow() {
    let mut p = policy();
    p.index_file = true;
    let config = mount_with(p);
    let r = resolve(&config, &segs(&["x"]), "/files/x", false, false);
    assert_eq!(expect_serve(r), "test_dir/x");
}

#[test]
fn candidate_path_joins_sanitized_segments() {
    let config = mount_with(policy());
    assert_eq!(candidate_path(&config, &segs(&["a", "b"])), Some(String::from("test_dir/a/b")));
    assert_eq!(candidate_path(&config, &segs(&[])), Some(String::from("test_dir")));
    assert_eq!(candidate_path(&config, &segs(&[".x"])), None);
}

#[test]
fn validate_root_demands_a_serving_root() {
    let p = policy();
    assert_eq!(validate_root(&p, true, true), Ok(()));
    assert_eq!(validate_root(&p, false, true), Err(ConfigError::RootNotDirectory));
    assert_eq!(validate_root(&p, false, false), Err(ConfigError::RootNotDirectory));

    let mut index_file = p;
    index_file.index_file = true;
    assert_eq!(validate_root(&index_file, false, true), Ok(()));
    assert_eq!(validate_root(&index_file, false, false), Err(ConfigError::RootMissing));

    let mut missing = p;
    missing.missing = true;
    assert_eq!(validate_root(&missing, false, false), Ok(()));
}

#[test]
fn rank_is_passed_through() {
    let config = mount_with(policy());
    assert_eq!(config.rank, 10);
    let config = config.rank(-3);
    assert_eq!(config.rank, -3);
    assert_eq!(config.root, "test_dir");
}
