use plugin_install::northstar::{common_version, launch_supported, launch_verdict, InstallType, LaunchRefusal};

#[test]
fn agreeing_versions() {
    let v = vec!["1.2.3".to_string(), "1.2.3".to_string(), "1.2.3".to_string()];
    assert_eq!(common_version(&v).ok(), Some("1.2.3".to_string()));
}

#[test]
fn mismatched_versions() {
    let v = vec!["1.2.3".to_string(), "1.2.3".to_string(), "1.2.4".to_string()];
    assert!(common_version(&v).is_err());
}

#[test]
fn supported_setups() {
    assert!(launch_supported("windows", InstallType::Steam));
    assert!(launch_supported("windows", InstallType::Unknown));
    assert!(!launch_supported("windows", InstallType::EaPlay));
    assert!(!launch_supported("linux", InstallType::Steam));
}

#[test]
fn verdict_order() {
    assert_eq!(launch_verdict(false, Some(true), true, true), Err(LaunchRefusal::Unsupported));
    assert_eq!(launch_verdict(true, Some(true), false, false), Ok(()));
    assert_eq!(launch_verdict(true, None, false, false), Err(LaunchRefusal::ChecksNotMet));
    assert_eq!(launch_verdict(true, Some(false), true, false), Err(LaunchRefusal::EaAppNotRunning));
    assert_eq!(launch_verdict(true, None, true, true), Ok(()));
}
