use rocket_cc_file_server::CCOptionsBuilder;
use rocket_cc_file_server::MountConfig;
use rocket_cc_file_server::Policy;
use rocket_cc_file_server::ResolvedTarget;

type NoExpiry = fn(&str) -> String;

const FIXED_DATE: &str = "Thu, 21 Feb 2222 23:00:00 GMT";

fn expires(_path: &str) -> String {
    String::from(FIXED_DATE)
}

fn default_policy() -> Policy {
    Policy { dot_files: false, index: true, index_file: false, normalize_dirs: false, missing: false }
}

fn mount(root: &str) -> MountConfig {
    MountConfig { root: String::from(root), rank: 10, policy: default_policy() }
}

fn serve_target(config: &MountConfig, segments: &[&str]) -> String {
    let segs: Vec<String> = segments.iter().map(|s| String::from(*s)).collect();
    match rocket_cc_file_server::resolve::resolve(config, &segs, "/test_file", false, false) {
        ResolvedTarget::ServeFile(p) => p,
        _ => panic!("expected a file to serve"),
    }
}

#[test]
fn it_works() {
    assert_eq!(2 + 2, 4);
}

#[test]
fn simple_example() {
    let options = CCOptionsBuilder::<NoExpiry>::builder()
        .max_age(Some(300))
        .is_public(Some(true))
        .no_cache(Some(()))
        .build();

    let config = mount("test_dir");
    let path = serve_target(&config, &["test_file"]);
    assert_eq!(path, "test_dir/test_file");

    let headers = options.compose_headers(&path, true);
    assert_eq!(headers.cache_control, "public, no-cache, max-age=300;");
    assert_eq!(headers.expires, None);
}

#[test]
fn max_age() {
    let options = CCOptionsBuilder::<NoExpiry>::builder().max_age(Some(3600)).build();

    let config = mount("test_dir");
    let path = serve_target(&config, &["test_file"]);
    let headers = options.compose_headers(&path, true);
    assert_eq!(headers.cache_control, "max-age=3600;");
    assert_eq!(headers.expires, None);
}

#[test]
fn is_public_no_cache_no_store() {
    let options = CCOptionsBuilder::<NoExpiry>::builder()
        .is_public(Some(true))
        .no_cache(Some(()))
        .no_store(Some(()))
        .build();

    let config = mount("test_dir");
    let path = serve_target(&config, &["test_file"]);
    let headers = options.compose_headers(&path, true);
    assert_eq!(headers.cache_control, "public, no-cache, no-store;");
    assert_eq!(headers.expires, None);
}

#[test]
fn expires_closure() {
    let options = CCOptionsBuilder::builder()
        .expires(Some(|_path: &str| -> String { String::from(FIXED_DATE) }))
        .build();

    let config = mount("test_dir");
    let path = serve_target(&config, &["test_file"]);
    let headers = options.compose_headers(&path, true);
    assert_eq!(headers.expires, Some(String::from(FIXED_DATE)));
}

#[test]
fn expires_fun() {
    let options = CCOptionsBuilder::builder().expires(Some(expires)).build();

    let config = mount("test_dir");
    let path = serve_target(&config, &["test_file"]);
    let headers = options.compose_headers(&path, true);
    assert_eq!(headers.expires, Some(String::from(FIXED_DATE)));
}

#[test]
fn expires_non_existing_file() {
    let options = CCOptionsBuilder::builder().expires(Some(expires)).build();
    let config = mount("test_dir");

    let path = serve_target(&config, &["not_existing"]);
    let headers = options.compose_headers(&path, false);
    assert_eq!(headers.expires, None);

    let path = serve_target(&config, &["not_existing_2"]);
    let headers = options.compose_headers(&path, false);
    assert_eq!(headers.expires, None);

    let closure_options = CCOptionsBuilder::builder()
        .expires(Some(|_path: &str| -> String { String::from(FIXED_DATE) }))
        .build();
    let path = serve_target(&config, &["not_existing"]);
    let headers = closure_options.compose_headers(&path, false);
    assert_eq!(headers.expires, None);

    let headers = closure_options.compose_headers(&path, false);
    assert_ne!(headers.expires, Some(String::from(FIXED_DATE)));
}

#[test]
fn all_absent_yields_bare_terminator() {
    let options = CCOptionsBuilder::<NoExpiry>::builder().build();
    let headers = options.compose_headers("test_dir/test_file", true);
    assert_eq!(headers.cache_control, ";");
    assert_eq!(headers.expires, None);
}

#[test]
fn builder_order_does_not_change_output() {
    let a = CCOptionsBuilder::<NoExpiry>::builder()
        .max_age(Some(7))
        .no_store(Some(()))
        .is_public(Some(false))
        .build();
    let b = CCOptionsBuilder::<NoExpiry>::builder()
        .is_public(Some(false))
        .no_store(Some(()))
        .max_age(Some(7))
        .build();
    assert_eq!(a.cache_control_value(), b.cache_control_value());
    assert_eq!(a.cache_control_value(), "private, no-store, max-age=7;");
}

#[test]
fn private_visibility_token() {
    let options = CCOptionsBuilder::<NoExpiry>::builder().is_public(Some(false)).build();
    assert_eq!(options.cache_control_value(), "private;");
}

#[test]
fn no_visibility_token_without_is_public() {
    let options = CCOptionsBuilder::<NoExpiry>::builder().no_cache(Some(())).build();
    assert_eq!(options.cache_control_value(), "no-cache;");
}

#[test]
fn max_age_decimal_rendering() {
    let zero = CCOptionsBuilder::<NoExpiry>::builder().max_age(Some(0)).build();
    assert_eq!(zero.cache_control_value(), "max-age=0;");

    let large = CCOptionsBuilder::<NoExpiry>::builder().max_age(Some(u32::MAX)).build();
    assert_eq!(large.cache_control_value(), "max-age=4294967295;");
}

#[test]
fn clear_resets_every_field() {
    let options = CCOptionsBuilder::builder()
        .expires(Some(expires))
        .max_age(Some(60))
        .no_cache(Some(()))
        .clear()
        .build();
    assert_eq!(options.cache_control_value(), ";");
    assert_eq!(options.compose_headers("p", true).expires, None);
}

#[test]
fn new_sets_fields_directly() {
    let options = CCOptionsBuilder::<NoExpiry>::new(None, Some(5), None, None, Some(())).build();
    assert_eq!(options.cache_control_value(), "no-store, max-age=5;");
}

#[test]
fn cloned_options_share_the_configuration() {
    let options = CCOptionsBuilder::builder().expires(Some(expires)).max_age(Some(9)).build();
    let copy = options.clone();
    assert_eq!(copy.cache_control_value(), "max-age=9;");
    assert_eq!(copy.compose_headers("p", true).expires, Some(String::from(FIXED_DATE)));
}
