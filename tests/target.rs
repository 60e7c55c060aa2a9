use avva_launcher::{supported_targets, HelperDescriptor, StartupError, Target};

fn helper() -> HelperDescriptor {
    HelperDescriptor::new("avva-core".to_string())
}

#[test]
fn every_supported_target_has_one_bundled_build() {
    let bundled = supported_targets();
    assert_eq!(bundled.len(), 5);
    for (k, t) in bundled.iter().enumerate() {
        assert_eq!(helper().resolve(&bundled, *t), Ok(k));
        assert_eq!(bundled.iter().filter(|x| **x == *t).count(), 1);
    }
}

#[test]
fn resolve_finds_build_in_shorter_bundle() {
    let bundled = vec![Target::MacosAarch64, Target::WindowsX86_64];
    assert_eq!(helper().resolve(&bundled, Target::WindowsX86_64), Ok(1));
    assert_eq!(helper().resolve(&bundled, Target::MacosAarch64), Ok(0));
}

#[test]
fn resolve_without_build_is_resolution_error() {
    let bundled = vec![Target::LinuxX86_64, Target::MacosX86_64];
    assert_eq!(helper().resolve(&bundled, Target::LinuxAarch64), Err(StartupError::Resolution));
    assert_eq!(helper().resolve(&vec![], Target::LinuxX86_64), Err(StartupError::Resolution));
}

#[test]
fn resolve_takes_first_of_equal_builds() {
    let bundled = vec![Target::LinuxAarch64, Target::LinuxX86_64, Target::LinuxX86_64];
    assert_eq!(helper().resolve(&bundled, Target::LinuxX86_64), Ok(1));
}

#[test]
fn descriptor_keeps_its_name() {
    assert_eq!(helper().name, "avva-core");
}
