use plex_norm::error::LoadError;
use plex_norm::version::parse_plex_version;

#[test]
fn four_segment_version_parses() {
    let v = parse_plex_version("1.14.1.5488-cc260c476").unwrap();
    assert_eq!(v.major, 1);
    assert_eq!(v.minor, 14);
    assert_eq!(v.patch, 1);
    assert_eq!(v.build, "5488-cc260c476");
}

#[test]
fn three_segment_version_fails() {
    let r = parse_plex_version("1.14.1");
    match r {
        Err(LoadError::InvalidVersionFormat { raw }) => assert_eq!(raw, "1.14.1"),
        _ => panic!("a three-segment version must be rejected"),
    }
}

#[test]
fn empty_and_non_numeric_segments_fail() {
    assert!(matches!(
        parse_plex_version("1..1.5488"),
        Err(LoadError::InvalidVersionFormat { .. })
    ));
    assert!(matches!(
        parse_plex_version("1.x.1.5488"),
        Err(LoadError::InvalidVersionFormat { .. })
    ));
    assert!(matches!(
        parse_plex_version("1.14.1."),
        Err(LoadError::InvalidVersionFormat { .. })
    ));
    assert!(matches!(
        parse_plex_version("1.14.1.5488.extra"),
        Err(LoadError::InvalidVersionFormat { .. })
    ));
}

#[test]
fn build_metadata_does_not_affect_precedence() {
    let a = parse_plex_version("1.14.1.5488-cc260c476").unwrap();
    let b = parse_plex_version("1.14.1.9999-ffffffff").unwrap();
    assert!(a.eq_precedence(&b));
    assert!(!a.lt_precedence(&b));
    assert!(!b.lt_precedence(&a));
    let c = parse_plex_version("1.15.0.1-a").unwrap();
    assert!(a.lt_precedence(&c));
    assert!(!c.lt_precedence(&a));
}

#[test]
fn parsed_components_agree_with_semver() {
    let ours = parse_plex_version("1.14.1.5488-cc260c476").unwrap();
    let joined = format!(
        "{}.{}.{}+{}",
        ours.major, ours.minor, ours.patch, ours.build
    );
    let theirs = semver::Version::parse(&joined).unwrap();
    assert_eq!(ours.major, theirs.major);
    assert_eq!(ours.minor, theirs.minor);
    assert_eq!(ours.patch, theirs.patch);
    assert_eq!(ours.build, theirs.build.as_str());
}
