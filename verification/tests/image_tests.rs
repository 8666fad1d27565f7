use mymoulette::image::{
    auth_url, blob_url, download, http_error, manifest_url, parse_image_reference,
    select_layer, select_manifest, DockerError, DownloadAction, DownloadEvent, LayerEntry,
    ManifestEntry,
};

#[test]
fn reference_splits_at_the_colon() {
    let (name, tag) = parse_image_reference("library/alpine:latest").expect("one colon");
    assert_eq!(name, "library/alpine");
    assert_eq!(tag, "latest");
}

#[test]
fn reference_with_empty_parts_still_splits() {
    let (name, tag) = parse_image_reference(":tag").expect("one colon");
    assert_eq!(name, "");
    assert_eq!(tag, "tag");
}

#[test]
fn reference_without_colon_is_invalid() {
    assert_eq!(parse_image_reference("alpine"), Err(DockerError::InvalidImage));
}

#[test]
fn reference_with_two_colons_is_invalid() {
    assert_eq!(parse_image_reference("a:b:c"), Err(DockerError::InvalidImage));
}

#[test]
fn registry_urls() {
    assert_eq!(
        auth_url("library/alpine"),
        "https://auth.docker.io/token?service=registry.docker.io&scope=repository:library/alpine:pull"
    );
    assert_eq!(
        manifest_url("library/alpine", "latest"),
        "https://registry-1.docker.io/v2/library/alpine/manifests/latest"
    );
    assert_eq!(
        blob_url("library/alpine", "sha256:abc"),
        "https://registry-1.docker.io/v2/library/alpine/blobs/sha256:abc"
    );
}

fn entry(arch: &str, digest: &str) -> ManifestEntry {
    ManifestEntry {
        digest: String::from(digest),
        media_type: String::from("application/vnd.docker.distribution.manifest.v2+json"),
        architecture: String::from(arch),
    }
}

#[test]
fn first_amd64_manifest_wins() {
    let entries = vec![entry("arm64", "d0"), entry("amd64", "d1"), entry("amd64", "d2")];
    assert_eq!(select_manifest(&entries), Ok(1));
}

#[test]
fn no_amd64_manifest_fails() {
    let entries = vec![entry("arm64", "d0"), entry("s390x", "d1")];
    assert_eq!(select_manifest(&entries), Err(DockerError::ArchitectureNotFound));
    assert_eq!(select_manifest(&Vec::new()), Err(DockerError::ArchitectureNotFound));
}

fn layer(digest: &str) -> LayerEntry {
    LayerEntry { digest: String::from(digest), media_type: String::from("tar+gzip") }
}

#[test]
fn last_layer_wins() {
    let layers = vec![layer("l0"), layer("l1"), layer("l2")];
    assert_eq!(select_layer(&layers), Ok(2));
    assert_eq!(select_layer(&Vec::new()), Err(DockerError::Parse));
}

#[test]
fn http_errors_keep_their_status() {
    assert_eq!(http_error(Some(404)), DockerError::Http(404));
    assert_eq!(http_error(None), DockerError::RequestFailed);
}

#[test]
fn download_refuses_a_bad_reference() {
    assert!(matches!(download("noTag", "/tmp/out"), Err(DockerError::InvalidImage)));
}

#[test]
fn download_exchange_happy_path() {
    let mut flow = download("library/alpine:3.19", "/tmp/out").expect("well-formed reference");
    assert_eq!(flow.result(), None);

    let a = flow.step(DownloadEvent::Begin);
    match a {
        DownloadAction::GetToken { url } => assert_eq!(
            url,
            "https://auth.docker.io/token?service=registry.docker.io&scope=repository:library/alpine:pull"
        ),
        _ => panic!("expected a token request"),
    }

    let a = flow.step(DownloadEvent::Token { token: String::from("tok123") });
    match a {
        DownloadAction::GetManifestList { url, token, accept } => {
            assert_eq!(url, "https://registry-1.docker.io/v2/library/alpine/manifests/3.19");
            assert_eq!(token, "tok123");
            assert_eq!(accept, "application/vnd.docker.distribution.manifest.list.v2+json");
        },
        _ => panic!("expected a manifest-list request"),
    }

    let entries = vec![entry("arm64", "sha256:armd"), entry("amd64", "sha256:amdd")];
    let a = flow.step(DownloadEvent::ManifestList { entries });
    match a {
        DownloadAction::GetManifest { url, token, accept } => {
            assert_eq!(
                url,
                "https://registry-1.docker.io/v2/library/alpine/manifests/sha256:amdd"
            );
            assert_eq!(token, "tok123");
            assert_eq!(accept, "application/vnd.docker.distribution.manifest.v2+json");
        },
        _ => panic!("expected a manifest request"),
    }

    let layers = vec![layer("sha256:l0"), layer("sha256:l1")];
    let a = flow.step(DownloadEvent::Manifest { layers });
    match a {
        DownloadAction::FetchBlob { url, token, output } => {
            assert_eq!(url, "https://registry-1.docker.io/v2/library/alpine/blobs/sha256:l1");
            assert_eq!(token, "tok123");
            assert_eq!(output, "/tmp/out");
        },
        _ => panic!("expected a blob fetch"),
    }

    let a = flow.step(DownloadEvent::Unpacked);
    assert!(matches!(a, DownloadAction::Finished));
    assert_eq!(flow.result(), Some(Ok(())));
}

#[test]
fn download_exchange_http_failure() {
    let mut flow = download("alpine:latest", "/tmp/out").expect("well-formed reference");
    flow.step(DownloadEvent::Begin);
    let a = flow.step(DownloadEvent::HttpFailed { status: Some(401) });
    assert!(matches!(a, DownloadAction::Finished));
    assert_eq!(flow.result(), Some(Err(DockerError::Http(401))));
}

#[test]
fn download_exchange_no_architecture() {
    let mut flow = download("alpine:latest", "/tmp/out").expect("well-formed reference");
    flow.step(DownloadEvent::Begin);
    flow.step(DownloadEvent::Token { token: String::from("t") });
    let a = flow.step(DownloadEvent::ManifestList { entries: vec![entry("arm64", "d")] });
    assert!(matches!(a, DownloadAction::Finished));
    assert_eq!(flow.result(), Some(Err(DockerError::ArchitectureNotFound)));
}

#[test]
fn download_exchange_unpack_failure() {
    let mut flow = download("alpine:latest", "/tmp/out").expect("well-formed reference");
    flow.step(DownloadEvent::Begin);
    flow.step(DownloadEvent::Token { token: String::from("t") });
    flow.step(DownloadEvent::ManifestList { entries: vec![entry("amd64", "d")] });
    flow.step(DownloadEvent::Manifest { layers: vec![layer("l")] });
    let a = flow.step(DownloadEvent::UnpackFailed);
    assert!(matches!(a, DownloadAction::Finished));
    assert_eq!(flow.result(), Some(Err(DockerError::Unpack)));
}

#[test]
fn download_exchange_parse_failure() {
    let mut flow = download("alpine:latest", "/tmp/out").expect("well-formed reference");
    flow.step(DownloadEvent::Begin);
    let a = flow.step(DownloadEvent::ParseFailed);
    assert!(matches!(a, DownloadAction::Finished));
    assert_eq!(flow.result(), Some(Err(DockerError::Parse)));
}
