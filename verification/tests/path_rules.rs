//! Path sanitation for persisted directories, and their mapping onto the
//! encrypted volume.

use tdx_identity::paths::{container_dir_to_host_dir, sanitize_container_dir};

#[test]
fn clean_absolute_paths_are_accepted() {
    assert!(sanitize_container_dir("/data").is_ok());
    assert!(sanitize_container_dir("/var/cache").is_ok());
    assert!(sanitize_container_dir("/").is_ok());
    assert!(sanitize_container_dir("/a.b/c..d").is_ok());
    assert!(sanitize_container_dir("/...hidden").is_ok());
    assert!(sanitize_container_dir("/.config").is_ok());
}

#[test]
fn relative_paths_are_rejected() {
    assert!(sanitize_container_dir("../escape").is_err());
    assert!(sanitize_container_dir("data").is_err());
    assert!(sanitize_container_dir("./data").is_err());
}

#[test]
fn the_empty_path_is_rejected() {
    assert!(sanitize_container_dir("").is_err());
}

#[test]
fn dot_components_are_rejected() {
    assert!(sanitize_container_dir("/a/./b").is_err());
    assert!(sanitize_container_dir("/.").is_err());
    assert!(sanitize_container_dir("/a/.").is_err());
}

#[test]
fn parent_components_are_rejected() {
    assert!(sanitize_container_dir("/a/../b").is_err());
    assert!(sanitize_container_dir("/..").is_err());
    assert!(sanitize_container_dir("/a/..").is_err());
}

#[test]
fn empty_components_are_rejected() {
    assert!(sanitize_container_dir("/a//b").is_err());
    assert!(sanitize_container_dir("//").is_err());
    assert!(sanitize_container_dir("/a/").is_err());
}

#[test]
fn host_dir_lies_beneath_the_encrypted_mount() {
    assert_eq!(container_dir_to_host_dir("/data"), "/tmp/tdx-identity-persist/podman/data");
    assert_eq!(
        container_dir_to_host_dir("/var/cache"),
        "/tmp/tdx-identity-persist/podman/var/cache"
    );
    assert_eq!(container_dir_to_host_dir("data"), "/tmp/tdx-identity-persist/podman/data");
}
