use slate::version::SlateFormat;
use slate::{Error, Slate, SlateVersionProbe, VersionCompatInfo};

fn probe(version: Option<u64>, info: Option<u16>) -> SlateVersionProbe {
    SlateVersionProbe {
        version,
        version_info: info.map(|version| VersionCompatInfo {
            version,
            orig_version: 2,
            block_header_version: 1,
        }),
    }
}

#[test]
fn probe_tells_the_version() {
    assert_eq!(probe(None, None).version(), 0);
    assert_eq!(probe(Some(7), None).version(), 1);
    assert_eq!(probe(Some(7), Some(4)).version(), 4);
    assert_eq!(probe(None, Some(3)).version(), 3);
}

#[test]
fn format_follows_the_version() {
    assert!(matches!(SlateFormat::for_version(4), Ok(SlateFormat::V4)));
    assert!(matches!(SlateFormat::for_version(3), Ok(SlateFormat::V3)));
    for v in [0u16, 1, 2, 5, 65535] {
        assert!(matches!(SlateFormat::for_version(v), Err(Error::SlateVersion(w)) if w == v));
    }
}

#[test]
fn version_is_parsed_from_the_probe() {
    let r = Slate::parse_slate_version("text", |t| {
        assert_eq!(t, "text");
        Some(probe(None, Some(4)))
    });
    assert!(matches!(r, Ok(4)));
    let r = Slate::parse_slate_version("text", |_| None);
    assert!(matches!(r, Err(Error::SlateVersionParse)));
}
