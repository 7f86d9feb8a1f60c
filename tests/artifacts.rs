use roc_plugin_host::artifacts::{linked_plugin_path, script_artifact_path, ArtifactPaths, Platform};
use roc_plugin_host::commands::{compile_command, link_command};

#[test]
fn extension_per_platform() {
    assert_eq!(Platform::Linux.shared_library_extension(), "so");
    assert_eq!(Platform::MacOs.shared_library_extension(), "dylib");
}

#[test]
fn script_artifact_replaces_extension() {
    assert_eq!(script_artifact_path("scripts/hello.roc", Platform::Linux), "scripts/hello.so");
    assert_eq!(script_artifact_path("scripts/hello.roc", Platform::MacOs), "scripts/hello.dylib");
}

#[test]
fn script_artifact_without_extension_gains_one() {
    assert_eq!(script_artifact_path("hello", Platform::Linux), "hello.so");
}

#[test]
fn linked_plugin_sits_beside_host() {
    assert_eq!(linked_plugin_path("host/libhost.so", Platform::Linux), "host/liblinked.so");
    assert_eq!(linked_plugin_path("host/libhost.dylib", Platform::MacOs), "host/liblinked.dylib");
    assert_eq!(linked_plugin_path("libhost.a", Platform::Linux), "liblinked.so");
}

#[test]
fn resolve_fills_every_path() {
    let paths = ArtifactPaths::resolve("app/main.roc", "build/libhost.dylib", Platform::MacOs);
    assert_eq!(paths.script, "app/main.roc");
    assert_eq!(paths.host, "build/libhost.dylib");
    assert_eq!(paths.script_artifact, "app/main.dylib");
    assert_eq!(paths.linked_plugin, "build/liblinked.dylib");
}

#[test]
fn resolve_is_deterministic() {
    for platform in [Platform::Linux, Platform::MacOs] {
        let first = ArtifactPaths::resolve("a/b/script.roc", "c/libhost.so", platform);
        let second = ArtifactPaths::resolve("a/b/script.roc", "c/libhost.so", platform);
        assert_eq!(first.script_artifact, second.script_artifact);
        assert_eq!(first.linked_plugin, second.linked_plugin);
    }
}

#[test]
fn platforms_name_artifacts_apart() {
    let linux = ArtifactPaths::resolve("s.roc", "h/libhost.so", Platform::Linux);
    let mac = ArtifactPaths::resolve("s.roc", "h/libhost.so", Platform::MacOs);
    assert_ne!(linux.script_artifact, mac.script_artifact);
    assert_ne!(linux.linked_plugin, mac.linked_plugin);
}

#[test]
fn compile_command_line() {
    let c = compile_command("scripts/hello.roc");
    assert_eq!(c.program, "roc");
    assert_eq!(c.args, vec!["build", "--lib", "scripts/hello.roc"]);
}

#[test]
fn link_command_line() {
    let c = link_command("s/hello.so", "h/libhost.so", "h/liblinked.so");
    assert_eq!(c.program, "zig");
    assert_eq!(
        c.args,
        vec!["build-lib", "-dynamic", "-lc", "s/hello.so", "h/libhost.so", "-femit-bin=h/liblinked.so"]
    );
}
