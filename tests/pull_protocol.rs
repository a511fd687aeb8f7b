use container_rs::pull::{
    blob_file_stem, blob_url, layer_file_name, manifest_url, pull, Descriptor, DockerRegistryError,
    Manifest, PullAction, PullEvent, PullSession, PullStage, MANIFEST_MEDIA_TYPE,
};
use container_rs::registry::{auth_url, DockerRegistry, Registry};

fn layer(digest: &str) -> Descriptor {
    Descriptor {
        media_type: "application/vnd.docker.image.rootfs.diff.tar.gzip".to_string(),
        size: 100,
        digest: digest.to_string(),
    }
}

fn two_layer_manifest() -> Manifest {
    Manifest {
        schema_version: 2,
        media_type: MANIFEST_MEDIA_TYPE.to_string(),
        config: layer("sha256:cfg"),
        layers: vec![layer("sha256:aaa"), layer("sha256:bbb")],
    }
}

fn session_at_download() -> PullSession {
    let (mut s, _) = pull("docker", Some("library/busybox".to_string())).ok().unwrap();
    s.step(PullEvent::Token(Some("tok".to_string())));
    s.step(PullEvent::Manifest(Some(two_layer_manifest())));
    assert_eq!(s.stage, PullStage::Download);
    s
}

#[test]
fn urls() {
    assert_eq!(
        auth_url("library/busybox"),
        "https://auth.docker.io/token?scope=repository:library/busybox:pull&service=registry.docker.io"
    );
    assert_eq!(
        manifest_url("https://registry-1.docker.io/v2", "library/busybox"),
        "https://registry-1.docker.io/v2/library/busybox/manifests/latest"
    );
    assert_eq!(
        blob_url("https://r/v2", "x", "sha256:abc"),
        "https://r/v2/x/blobs/sha256:abc"
    );
}

#[test]
fn blob_stem_is_last_but_one_segment() {
    assert_eq!(
        blob_file_stem("/registry-v2/docker/registry/v2/blobs/sha256/ab/abcdef/data"),
        "abcdef"
    );
    assert_eq!(blob_file_stem("/a/b"), "a");
    assert_eq!(blob_file_stem("a/b"), "a");
}

#[test]
fn blob_stem_falls_back() {
    assert_eq!(blob_file_stem(""), "tmp.bin");
    assert_eq!(blob_file_stem("/"), "tmp.bin");
    assert_eq!(blob_file_stem("/data"), "tmp.bin");
    assert_eq!(blob_file_stem("/a//b"), "tmp.bin");
}

#[test]
fn layer_file_names_are_numbered() {
    assert_eq!(layer_file_name(0, 2, "/x/abc/data"), "0-abc.tar.gz");
    assert_eq!(layer_file_name(1, 2, "/x/def/data"), "1-def.tar.gz");
    assert_eq!(layer_file_name(3, 12, "/x/abc/data"), "03-abc.tar.gz");
    assert_eq!(layer_file_name(11, 12, "/"), "11-tmp.bin.tar.gz");
    assert_eq!(layer_file_name(7, 100, "/d/e"), "007-d.tar.gz");
}

#[test]
fn pull_starts_with_auth() {
    let (s, a) = pull("docker", Some("library/busybox".to_string())).ok().unwrap();
    assert_eq!(s.stage, PullStage::Auth);
    assert_eq!(s.registry_url, "https://registry-1.docker.io/v2");
    match a {
        PullAction::FetchToken { url } => assert_eq!(
            url,
            "https://auth.docker.io/token?scope=repository:library/busybox:pull&service=registry.docker.io"
        ),
        _ => panic!("expected a token request"),
    }
}

#[test]
fn pull_without_image_name() {
    assert_eq!(pull("docker", None).err(), Some(DockerRegistryError::ImageNameNotGiven));
}

#[test]
fn pull_from_unknown_registry() {
    assert_eq!(
        pull("quay", Some("x".to_string())).err(),
        Some(DockerRegistryError::UnsupportedRegistry)
    );
}

#[test]
fn registry_trait_flow() {
    let mut r = <DockerRegistry as Registry>::new();
    assert!(r.image_name.is_none());
    r.image_name("alpine".to_string());
    let (s, _) = r.get().ok().unwrap();
    assert_eq!(s.image, "alpine");
    let empty = <DockerRegistry as Registry>::new();
    assert_eq!(empty.get().err(), Some(DockerRegistryError::ImageNameNotGiven));
}

#[test]
fn known_token_skips_auth() {
    let mut r = DockerRegistry::create();
    r.set_image_name("alpine".to_string());
    r.auth_token = Some("t0".to_string());
    let (s, a) = r.start().ok().unwrap();
    assert_eq!(s.stage, PullStage::Manifest);
    match a {
        PullAction::FetchManifest { url, token, accept } => {
            assert_eq!(url, "https://registry-1.docker.io/v2/alpine/manifests/latest");
            assert_eq!(token, "t0");
            assert_eq!(accept, MANIFEST_MEDIA_TYPE);
        }
        _ => panic!("expected a manifest request"),
    }
}

#[test]
fn simulated_pull_commits_one_file_per_layer() {
    let (mut s, _) = pull("docker", Some("library/busybox".to_string())).ok().unwrap();
    match s.step(PullEvent::Token(Some("tok".to_string()))) {
        PullAction::FetchManifest { url, token, accept } => {
            assert_eq!(url, "https://registry-1.docker.io/v2/library/busybox/manifests/latest");
            assert_eq!(token, "tok");
            assert_eq!(accept, "application/vnd.docker.distribution.manifest.v2+json");
        }
        _ => panic!("expected a manifest request"),
    }
    match s.step(PullEvent::Manifest(Some(two_layer_manifest()))) {
        PullAction::FetchBlobs { requests } => {
            assert_eq!(requests.len(), 2);
            assert_eq!(requests[0].url, "https://registry-1.docker.io/v2/library/busybox/blobs/sha256:aaa");
            assert_eq!(requests[1].url, "https://registry-1.docker.io/v2/library/busybox/blobs/sha256:bbb");
            assert_eq!(requests[0].token, "tok");
            assert_eq!(requests[1].token, "tok");
        }
        _ => panic!("expected blob requests"),
    }
    assert_eq!(s.digests, vec!["sha256:aaa", "sha256:bbb"]);
    let results = vec![
        Some("/blobs/sha256/aa/aaa/data".to_string()),
        Some("/blobs/sha256/bb/bbb/data".to_string()),
    ];
    match s.step(PullEvent::Blobs(results)) {
        PullAction::Commit { dir, files } => {
            assert_eq!(dir, "/var/container_rs/images/library_busybox");
            assert_eq!(files, vec!["0-aaa.tar.gz", "1-bbb.tar.gz"]);
        }
        _ => panic!("expected a commit"),
    }
    assert!(matches!(s.step(PullEvent::Committed(true)), PullAction::Finished));
    assert_eq!(s.stage, PullStage::Done);
}

#[test]
fn same_url_layers_still_get_two_files() {
    let mut s = session_at_download();
    let results = vec![Some("/".to_string()), Some("/".to_string())];
    match s.step(PullEvent::Blobs(results)) {
        PullAction::Commit { files, .. } => {
            assert_eq!(files.len(), 2);
            assert_ne!(files[0], files[1]);
        }
        _ => panic!("expected a commit"),
    }
}

#[test]
fn failed_blob_download_fails_the_pull() {
    let mut s = session_at_download();
    let results = vec![Some("/blobs/x/aaa/data".to_string()), None];
    assert!(matches!(
        s.step(PullEvent::Blobs(results)),
        PullAction::Fail(DockerRegistryError::LayerDownloadFailed)
    ));
    assert_eq!(s.stage, PullStage::Failed);
    // Nothing can be committed afterwards.
    assert!(matches!(s.step(PullEvent::Committed(true)), PullAction::Fail(_)));
    assert!(matches!(s.step(PullEvent::Blobs(vec![])), PullAction::Fail(_)));
    assert_eq!(s.stage, PullStage::Failed);
}

#[test]
fn missing_download_result_fails_the_pull() {
    let mut s = session_at_download();
    let results = vec![Some("/blobs/x/aaa/data".to_string())];
    assert!(matches!(
        s.step(PullEvent::Blobs(results)),
        PullAction::Fail(DockerRegistryError::LayerDownloadFailed)
    ));
}

#[test]
fn auth_failure() {
    let (mut s, _) = pull("docker", Some("x".to_string())).ok().unwrap();
    assert!(matches!(
        s.step(PullEvent::Token(None)),
        PullAction::Fail(DockerRegistryError::AuthFailed)
    ));
    let (mut s, _) = pull("docker", Some("x".to_string())).ok().unwrap();
    assert!(matches!(
        s.step(PullEvent::Token(Some(String::new()))),
        PullAction::Fail(DockerRegistryError::AuthFailed)
    ));
}

#[test]
fn manifest_failure() {
    let (mut s, _) = pull("docker", Some("x".to_string())).ok().unwrap();
    s.step(PullEvent::Token(Some("tok".to_string())));
    assert!(matches!(
        s.step(PullEvent::Manifest(None)),
        PullAction::Fail(DockerRegistryError::ManifestFailed)
    ));
}

#[test]
fn commit_failure() {
    let mut s = session_at_download();
    s.step(PullEvent::Blobs(vec![Some("/a/b".to_string()), Some("/c/d".to_string())]));
    assert!(matches!(
        s.step(PullEvent::Committed(false)),
        PullAction::Fail(DockerRegistryError::CommitFailed)
    ));
}

#[test]
fn unexpected_event() {
    let (mut s, _) = pull("docker", Some("x".to_string())).ok().unwrap();
    assert!(matches!(
        s.step(PullEvent::Committed(true)),
        PullAction::Fail(DockerRegistryError::UnexpectedEvent)
    ));
    assert_eq!(s.stage, PullStage::Failed);
}

#[test]
fn zero_layer_manifest_commits_nothing() {
    let (mut s, _) = pull("docker", Some("x".to_string())).ok().unwrap();
    s.step(PullEvent::Token(Some("tok".to_string())));
    let mut m = two_layer_manifest();
    m.layers.clear();
    assert!(matches!(s.step(PullEvent::Manifest(Some(m))), PullAction::FetchBlobs { .. }));
    match s.step(PullEvent::Blobs(vec![])) {
        PullAction::Commit { files, .. } => assert!(files.is_empty()),
        _ => panic!("expected a commit"),
    }
}

#[test]
fn error_message() {
    assert_eq!(DockerRegistryError::ImageNameNotGiven.message(), "Image name is not given");
}
