//! Environment construction for the launched target, and fork classification.

use talk_dbg::launch::{build_environment, classify_fork, ForkRole, LaunchConfig};

fn pair(name: &str, value: &str) -> (String, String) {
    (String::from(name), String::from(value))
}

#[test]
fn fixed_environment_is_exactly_the_overrides() {
    let config = LaunchConfig::fixed(vec![pair("HOME", "/vagrant")]);
    let parent = vec![pair("PATH", "/usr/bin"), pair("TERM", "xterm")];
    let env = build_environment(config, parent);
    assert_eq!(env, vec![pair("HOME", "/vagrant")]);
}

#[test]
fn inherited_environment_puts_overrides_first() {
    let config = LaunchConfig::inheriting(vec![pair("HOME", "/vagrant")]);
    let parent = vec![pair("PATH", "/usr/bin"), pair("HOME", "/root")];
    let env = build_environment(config, parent);
    // The override precedes the inherited value, so a first-match lookup
    // sees it.
    assert_eq!(
        env,
        vec![pair("HOME", "/vagrant"), pair("PATH", "/usr/bin"), pair("HOME", "/root")]
    );
}

#[test]
fn empty_overrides_inherit_everything() {
    let config = LaunchConfig::inheriting(Vec::new());
    let parent = vec![pair("PATH", "/usr/bin")];
    assert_eq!(build_environment(config, parent), vec![pair("PATH", "/usr/bin")]);
}

#[test]
fn fork_roles() {
    assert_eq!(classify_fork(0, 0), ForkRole::Child);
    assert_eq!(classify_fork(1234, 0), ForkRole::Parent { child_pid: 1234 });
    assert_eq!(classify_fork(-1, 11), ForkRole::Failed { errno: 11 });
}
