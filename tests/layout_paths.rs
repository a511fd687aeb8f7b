use container_rs::layout::{
    entry_target, get_container_path, get_file_system_root_path, get_image_path, get_images_path,
    layer_order, parent_component, resolve_image, FileSystem, ImageError, ImageSource,
};

#[test]
fn root_path_is_fixed() {
    assert_eq!(get_file_system_root_path(), "/var/container_rs");
}

#[test]
fn images_path_under_root() {
    assert_eq!(get_images_path(), "/var/container_rs/images");
}

#[test]
fn image_path_replaces_separators() {
    assert_eq!(get_image_path("library/busybox"), "/var/container_rs/images/library_busybox");
    assert_eq!(get_image_path("a/b/c"), "/var/container_rs/images/a_b_c");
    assert_eq!(get_image_path("ubuntu"), "/var/container_rs/images/ubuntu");
}

#[test]
fn container_path_by_id() {
    assert_eq!(get_container_path("abc123"), "/var/container_rs/abc123");
    let fs = FileSystem::new("abc123".to_string());
    assert_eq!(fs.container_id, "abc123");
    assert_eq!(fs.path, "/var/container_rs/abc123");
}

#[test]
fn archive_reference_is_extracted_directly() {
    match resolve_image("busybox.tar") {
        ImageSource::Archive(p) => assert_eq!(p, "busybox.tar"),
        ImageSource::Cached(_) => panic!("expected an archive"),
    }
    match resolve_image("images/rootfs.tar.gz") {
        ImageSource::Archive(p) => assert_eq!(p, "images/rootfs.tar.gz"),
        ImageSource::Cached(_) => panic!("expected an archive"),
    }
}

#[test]
fn image_name_is_looked_up_in_cache() {
    match resolve_image("library/ubuntu") {
        ImageSource::Cached(d) => assert_eq!(d, "/var/container_rs/images/library_ubuntu"),
        ImageSource::Archive(_) => panic!("expected a cached image"),
    }
    match resolve_image("tarball") {
        ImageSource::Cached(d) => assert_eq!(d, "/var/container_rs/images/tarball"),
        ImageSource::Archive(_) => panic!("expected a cached image"),
    }
}

#[test]
fn missing_cache_directory_fails_resolution() {
    assert_eq!(layer_order(None).err(), Some(ImageError::ImageNotFound));
}

#[test]
fn cached_layers_in_file_name_order() {
    let listing = vec![
        "2-ccc.tar.gz".to_string(),
        "0-aaa.tar.gz".to_string(),
        "1-bbb.tar.gz".to_string(),
    ];
    let order = layer_order(Some(listing)).ok().unwrap();
    assert_eq!(order, vec!["0-aaa.tar.gz", "1-bbb.tar.gz", "2-ccc.tar.gz"]);
}

#[test]
fn empty_cache_directory_gives_no_layers() {
    let order = layer_order(Some(vec![])).ok().unwrap();
    assert!(order.is_empty());
}

#[test]
fn single_layer_entries_keep_relative_paths() {
    let root = "/var/container_rs/abc";
    let entries = ["bin/busybox", "etc/passwd", "./usr/lib/x.so", "a..b/c"];
    for e in entries.iter() {
        let t = entry_target(root, e).ok().unwrap();
        assert_eq!(t, format!("{}/{}", root, e));
    }
}

#[test]
fn traversal_entries_are_refused() {
    let root = "/var/container_rs/abc";
    for e in ["..", "../etc/passwd", "a/../../x", "a/b/..", "./../x"].iter() {
        assert_eq!(entry_target(root, e).err(), Some(ImageError::PathEscapes));
    }
}

#[test]
fn parent_component_detection() {
    assert!(parent_component(".."));
    assert!(parent_component("x/.."));
    assert!(!parent_component("..x"));
    assert!(!parent_component("x.."));
    assert!(!parent_component("."));
    assert!(!parent_component(""));
}

#[test]
fn error_messages() {
    assert_eq!(ImageError::ImageNotFound.message(), "Image could not be found");
    assert!(!ImageError::PathEscapes.message().is_empty());
}
