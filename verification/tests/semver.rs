use packed_semver::semver::{SemVer, SemVerError};

#[test]
fn validate_semver_eq() {
    assert_eq!(SemVer::from_u64(8796101410819), SemVer::new(1, 2, 3).unwrap());
}

#[test]
fn validate_semver_ne() {
    assert_ne!(SemVer::from_u64(8796101410819), SemVer::new(1, 2, 4).unwrap());
}

#[test]
fn validate_semver_errors() {
    assert_eq!(SemVer::new(2097152, 2, 4).unwrap_err(), SemVerError::MajorTooLarge);
    assert_eq!(SemVer::new(1, 2097152, 4).unwrap_err(), SemVerError::MinorTooLarge);
    assert_eq!(SemVer::new(1, 2, 4194304).unwrap_err(), SemVerError::PatchTooLarge);
}

#[test]
fn validate_semver_valid() {
    SemVer::new(2097151, 2, 4).unwrap();
    SemVer::new(1, 2097151, 4).unwrap();
    SemVer::new(1, 2, 4194303).unwrap();
}

#[test]
fn validate_semver_values() {
    assert_eq!(SemVer::from_u64(8796101410819).major(), 1);
    assert_eq!(SemVer::from_u64(8796101410819).minor(), 2);
    assert_eq!(SemVer::from_u64(8796101410819).patch(), 3);
}

#[test]
fn validate_semver_set_values_valid() {
    let mut semver = SemVer::from_u64(8796101410819);

    semver.set_major(3).unwrap();
    semver.set_minor(2).unwrap();
    semver.set_patch(1).unwrap();
}

#[test]
fn validate_semver_set_values_errors() {
    let mut semver = SemVer::from_u64(8796101410819);

    assert_eq!(semver.set_major(2097152).unwrap_err(), SemVerError::MajorTooLarge);
    assert_eq!(semver.set_minor(2097152).unwrap_err(), SemVerError::MinorTooLarge);
    assert_eq!(semver.set_patch(4194304).unwrap_err(), SemVerError::PatchTooLarge);
}

#[test]
fn round_trip_samples() {
    let cases: [(u32, u32, u32); 5] =
        [(0, 0, 0), (1, 2, 3), (2097151, 2097151, 4194303), (2097151, 0, 0), (0, 0, 4194303)];
    for (major, minor, patch) in cases {
        let v = SemVer::new(major, minor, patch).unwrap();
        assert_eq!(v.major(), major);
        assert_eq!(v.minor(), minor);
        assert_eq!(v.patch(), patch);
    }
}

#[test]
fn boundary_values() {
    let v = SemVer::new(2097151, 2097151, 4194303).unwrap();
    assert_eq!(v.major(), 2097151);
    assert_eq!(v.minor(), 2097151);
    assert_eq!(v.patch(), 4194303);
    assert_eq!(SemVer::new(2097152, 0, 0).unwrap_err(), SemVerError::MajorTooLarge);
    assert_eq!(SemVer::new(0, 2097152, 0).unwrap_err(), SemVerError::MinorTooLarge);
    assert_eq!(SemVer::new(0, 0, 4194304).unwrap_err(), SemVerError::PatchTooLarge);
}

#[test]
fn first_violation_wins() {
    assert_eq!(
        SemVer::new(2097152, 2097152, 4194304).unwrap_err(),
        SemVerError::MajorTooLarge
    );
    assert_eq!(SemVer::new(0, 2097152, 4194304).unwrap_err(), SemVerError::MinorTooLarge);
}

#[test]
fn field_isolation_in_sequence() {
    let mut v = SemVer::new(1, 2, 3).unwrap();

    v.set_major(3).unwrap();
    assert_eq!(v.major(), 3);
    assert_eq!(v.minor(), 2);
    assert_eq!(v.patch(), 3);

    v.set_minor(2).unwrap();
    assert_eq!(v.major(), 3);
    assert_eq!(v.minor(), 2);
    assert_eq!(v.patch(), 3);

    v.set_patch(1).unwrap();
    assert_eq!(v.major(), 3);
    assert_eq!(v.minor(), 2);
    assert_eq!(v.patch(), 1);
}

#[test]
fn failed_mutation_is_a_no_op() {
    let mut v = SemVer::new(7, 8, 9).unwrap();

    assert!(v.set_major(2097152).is_err());
    assert_eq!(v.major(), 7);
    assert_eq!(v.minor(), 8);
    assert_eq!(v.patch(), 9);

    assert!(v.set_minor(2097152).is_err());
    assert_eq!(v.major(), 7);
    assert_eq!(v.minor(), 8);
    assert_eq!(v.patch(), 9);

    assert!(v.set_patch(4194304).is_err());
    assert_eq!(v.major(), 7);
    assert_eq!(v.minor(), 8);
    assert_eq!(v.patch(), 9);
}

#[test]
fn equality_is_packed_integer_equality() {
    assert_eq!(SemVer::new(1, 2, 3).unwrap(), SemVer::new(1, 2, 3).unwrap());
    assert_ne!(SemVer::new(1, 2, 3).unwrap(), SemVer::new(1, 2, 4).unwrap());
}

#[test]
fn rendering() {
    assert_eq!(SemVer::new(1, 2, 3).unwrap().to_string(), "1.2.3");
    assert_eq!(SemVer::new(0, 0, 0).unwrap().to_string(), "0.0.0");
    assert_eq!(
        SemVer::new(2097151, 10, 4194303).unwrap().to_string(),
        "2097151.10.4194303"
    );
}

#[test]
fn literal_decodes_to_1_2_3() {
    let v = SemVer::from_u64(8796101410819);
    assert_eq!(v.major(), 1);
    assert_eq!(v.minor(), 2);
    assert_eq!(v.patch(), 3);
    assert_eq!(SemVer::new(1, 2, 3).unwrap().as_u64(), 8796101410819);
}
