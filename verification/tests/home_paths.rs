use xargo::errors::Error;
use xargo::home::SysrootHome;
use xargo::paths::AbsPath;

fn path(segments: &[&str]) -> AbsPath {
    AbsPath::from_segments(segments.iter().map(|s| s.to_string()).collect())
}

fn segs(p: &AbsPath) -> Vec<String> {
    p.segments.clone()
}

#[test]
fn override_wins_over_home_directory() {
    let home = SysrootHome::resolve(
        Some(path(&["opt", "cache"])),
        Some(path(&["home", "me"])),
        false,
    )
    .expect("home resolves");
    assert_eq!(segs(&home.display()), vec!["opt", "cache"]);
}

#[test]
fn home_directory_gets_the_cache_folder() {
    let home = SysrootHome::resolve(None, Some(path(&["home", "me"])), false)
        .expect("home resolves");
    assert_eq!(segs(&home.display()), vec!["home", "me", ".xargo"]);
}

#[test]
fn no_home_and_no_override_is_fatal() {
    match SysrootHome::resolve(None, None, false) {
        Err(Error::ConfigurationError) => {}
        _ => panic!("expected the configuration error"),
    }
}

#[test]
fn native_mode_appends_the_marker() {
    let native = SysrootHome::resolve(Some(path(&["opt", "cache"])), None, true)
        .expect("native home resolves");
    assert_eq!(segs(&native.display()), vec!["opt", "cache", "HOST"]);
}

#[test]
fn native_and_cross_sysroots_never_collide() {
    let native = SysrootHome::resolve(Some(path(&["opt", "cache"])), None, true)
        .expect("native home resolves");
    let cross = SysrootHome::resolve(Some(path(&["opt", "cache"])), None, false)
        .expect("cross home resolves");
    let triple = "x86_64-unknown-linux-gnu";
    let native_path = segs(&native.sysroot_path(triple));
    let cross_path = segs(&cross.sysroot_path(triple));
    assert_eq!(
        native_path,
        vec!["opt", "cache", "HOST", "lib", "rustlib", triple]
    );
    assert_eq!(cross_path, vec!["opt", "cache", "lib", "rustlib", triple]);
    assert_ne!(native_path, cross_path);
    assert!(native_path.contains(&"HOST".to_string()));
    assert!(!cross_path.contains(&"HOST".to_string()));
}

#[test]
fn sentinel_lives_inside_the_sysroot() {
    let home = SysrootHome::resolve(Some(path(&["opt", "cache"])), None, false)
        .expect("home resolves");
    assert_eq!(
        segs(&home.sentinel_path("thumbv6m-none-eabi")),
        vec!["opt", "cache", "lib", "rustlib", "thumbv6m-none-eabi", ".sentinel"]
    );
}

#[test]
fn join_appends_one_component() {
    let p = path(&["a", "b"]).join("c");
    assert_eq!(segs(&p), vec!["a", "b", "c"]);
}
