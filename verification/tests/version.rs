use renderdoc::{ApiVersion, Tier, Version, V100, V110};

#[test]
fn each_version_has_its_code() {
    assert_eq!(Version::V100.code(), 10000);
    assert_eq!(Version::V101.code(), 10001);
    assert_eq!(Version::V102.code(), 10002);
    assert_eq!(Version::V110.code(), 10100);
    assert_eq!(Version::V111.code(), 10101);
}

#[test]
fn a_code_is_major_minor_patch() {
    for version in [Version::V100, Version::V101, Version::V102, Version::V110, Version::V111] {
        assert_eq!(
            version.code(),
            version.major() * 10000 + version.minor() * 100 + version.patch()
        );
    }
    assert_eq!((Version::V102.major(), Version::V102.minor(), Version::V102.patch()), (1, 0, 2));
    assert_eq!((Version::V111.major(), Version::V111.minor(), Version::V111.patch()), (1, 1, 1));
}

#[test]
fn a_code_leads_back_to_its_version() {
    for version in [Version::V100, Version::V101, Version::V102, Version::V110, Version::V111] {
        assert_eq!(Version::from_code(version.code()), Some(version));
    }
    assert_eq!(Version::from_code(0), None);
    assert_eq!(Version::from_code(10003), None);
    assert_eq!(Version::from_code(10200), None);
    assert_eq!(Version::from_code(u32::MAX), None);
}

#[test]
fn numbers_lead_to_their_version() {
    assert_eq!(Version::from_numbers(1, 0, 0), Some(Version::V100));
    assert_eq!(Version::from_numbers(1, 0, 2), Some(Version::V102));
    assert_eq!(Version::from_numbers(1, 1, 1), Some(Version::V111));
    assert_eq!(Version::from_numbers(1, 1, 2), None);
    assert_eq!(Version::from_numbers(1, 2, 0), None);
    assert_eq!(Version::from_numbers(2, 0, 0), None);
    assert_eq!(Version::from_numbers(0, 0, 0), None);
    assert_eq!(Version::from_numbers(1, u32::MAX, 0), None);
}

#[test]
fn versions_are_ordered_by_code() {
    assert!(Version::V110.at_least(Version::V100));
    assert!(Version::V110.at_least(Version::V102));
    assert!(Version::V110.at_least(Version::V110));
    assert!(!Version::V102.at_least(Version::V110));
    assert!(!Version::V100.at_least(Version::V101));
    assert!(Version::V111.at_least(Version::V110));
}

#[test]
fn tiers_follow_the_minor_number() {
    assert_eq!(Version::V100.tier(), Tier::One);
    assert_eq!(Version::V101.tier(), Tier::One);
    assert_eq!(Version::V102.tier(), Tier::One);
    assert_eq!(Version::V110.tier(), Tier::Two);
    assert_eq!(Version::V111.tier(), Tier::Two);
}

#[test]
fn a_later_tier_holds_the_earlier_one() {
    assert_eq!(Tier::One.slots(), 22);
    assert_eq!(Tier::Two.slots(), 23);
    assert!(Tier::Two.includes(Tier::One));
    assert!(Tier::Two.includes(Tier::Two));
    assert!(Tier::One.includes(Tier::One));
    assert!(!Tier::One.includes(Tier::Two));
}

#[test]
fn a_later_version_keeps_the_operations_of_an_earlier_one() {
    let all = [Version::V100, Version::V101, Version::V102, Version::V110, Version::V111];
    for later in all {
        for earlier in all {
            if later.at_least(earlier) {
                assert!(later.tier().includes(earlier.tier()));
            }
        }
    }
}

#[test]
fn the_markers_request_their_versions() {
    assert_eq!(V100::version(), Version::V100);
    assert_eq!(V110::version(), Version::V110);
}
