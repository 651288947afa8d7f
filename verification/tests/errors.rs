use toolkit::error::Error;
use toolkit::manifest::classify_read_failure;

#[test]
fn tags_name_the_kind() {
    assert_eq!(Error::InputDecode.tag(), "Toolkit(InputDecode)");
    assert_eq!(Error::UnsupportedAlgorithm.tag(), "Toolkit(UnsupportedAlgorithm)");
    assert_eq!(Error::AssertionParse.tag(), "Toolkit(AssertionParse)");
    assert_eq!(Error::ManifestAssertion.tag(), "Toolkit(ManifestAssertion)");
    assert_eq!(Error::ManifestThumbnail.tag(), "Toolkit(ManifestThumbnail)");
    assert_eq!(Error::ManifestEmbed.tag(), "Toolkit(ManifestEmbed)");
    assert_eq!(Error::ManifestRead.tag(), "Toolkit(ManifestRead)");
    assert_eq!(Error::RemoteManifestUrl("u".to_string()).tag(), "Toolkit(RemoteManifestUrl)");
    assert_eq!(Error::CallbackFailure.tag(), "Toolkit(CallbackFailure)");
    assert_eq!(Error::TimestampEncode.tag(), "Toolkit(TimestampEncode)");
    assert_eq!(Error::HostConversion.tag(), "Toolkit(HostConversion)");
}

#[test]
fn every_kind_has_a_message() {
    let all = vec![
        Error::InputDecode,
        Error::UnsupportedAlgorithm,
        Error::AssertionParse,
        Error::ManifestAssertion,
        Error::ManifestThumbnail,
        Error::ManifestEmbed,
        Error::ManifestRead,
        Error::RemoteManifestUrl("https://example.org/m.c2pa".to_string()),
        Error::CallbackFailure,
        Error::TimestampEncode,
        Error::HostConversion,
    ];
    for e in all.iter() {
        assert!(!e.message().is_empty());
        assert_eq!(e.envelope().message, e.message());
        assert_eq!(e.envelope().name, e.tag());
    }
    assert_eq!(Error::UnsupportedAlgorithm.message(), "unsupported signature algorithm");
    assert_eq!(
        Error::RemoteManifestUrl(String::new()).message(),
        "must fetch remote manifests from url"
    );
}

#[test]
fn only_a_remote_manifest_carries_a_url() {
    assert_eq!(Error::ManifestRead.url(), None);
    assert_eq!(Error::CallbackFailure.envelope().url, None);
    let remote = Error::RemoteManifestUrl("https://example.org/m.c2pa".to_string());
    assert_eq!(remote.url(), Some("https://example.org/m.c2pa".to_string()));
    let envelope = remote.envelope();
    assert_eq!(envelope.name, "Toolkit(RemoteManifestUrl)");
    assert_eq!(envelope.url, Some("https://example.org/m.c2pa".to_string()));
}

#[test]
fn remote_manifest_is_told_from_a_failed_read() {
    assert_eq!(
        classify_read_failure(Some("https://example.org/m.c2pa".to_string())),
        Error::RemoteManifestUrl("https://example.org/m.c2pa".to_string())
    );
    assert_eq!(classify_read_failure(None), Error::ManifestRead);
}

#[test]
fn remote_manifest_error_of_the_engine_gives_its_url() {
    let failure = c2pa::Error::RemoteManifestUrl("https://example.org/m.c2pa".to_string());
    let url = match &failure {
        c2pa::Error::RemoteManifestUrl(url) => Some(url.clone()),
        _ => None,
    };
    let e = classify_read_failure(url);
    assert_eq!(e.url(), Some("https://example.org/m.c2pa".to_string()));
    assert_eq!(e.tag(), "Toolkit(RemoteManifestUrl)");
}
