use ds4432::{validate_rfs, AsyncDS4432, Error, MockI2c, Output, RfsPolicy};

#[test]
fn recommended_policy_is_boundary_inclusive() {
    assert_eq!(validate_rfs::<()>(RfsPolicy::Recommended, Some(40_000)), Ok(()));
    assert_eq!(validate_rfs::<()>(RfsPolicy::Recommended, Some(160_000)), Ok(()));
    assert_eq!(validate_rfs::<()>(RfsPolicy::Recommended, Some(80_000)), Ok(()));
    assert_eq!(
        validate_rfs::<()>(RfsPolicy::Recommended, Some(39_999)),
        Err(Error::InvalidRfs)
    );
    assert_eq!(
        validate_rfs::<()>(RfsPolicy::Recommended, Some(160_001)),
        Err(Error::InvalidRfs)
    );
}

#[test]
fn non_zero_policy_accepts_any_nonzero_value() {
    assert_eq!(validate_rfs::<()>(RfsPolicy::NonZero, Some(1)), Ok(()));
    assert_eq!(validate_rfs::<()>(RfsPolicy::NonZero, Some(39_999)), Ok(()));
    assert_eq!(validate_rfs::<()>(RfsPolicy::NonZero, Some(0)), Err(Error::InvalidRfs));
}

#[test]
fn absent_value_is_valid_under_either_policy() {
    assert_eq!(validate_rfs::<()>(RfsPolicy::Recommended, None), Ok(()));
    assert_eq!(validate_rfs::<()>(RfsPolicy::NonZero, None), Ok(()));
}

#[test]
fn constructor_rejects_out_of_range_resistor() {
    let mock = MockI2c::new(Vec::new());
    assert!(matches!(
        AsyncDS4432::with_rfs(mock, Some(39_999), None),
        Err(Error::InvalidRfs)
    ));
    let mock = MockI2c::new(Vec::new());
    assert!(matches!(
        AsyncDS4432::with_rfs(mock, Some(80_000), Some(160_001)),
        Err(Error::InvalidRfs)
    ));
}

#[test]
fn constructor_accepts_permissive_values_under_non_zero_policy() {
    let mock = MockI2c::new(Vec::new());
    let session = AsyncDS4432::with_rfs_policy(mock, Some(1), Some(39_999), RfsPolicy::NonZero)
        .unwrap();
    assert_eq!(session.rfs(Output::Zero), Some(1));
    assert_eq!(session.rfs(Output::One), Some(39_999));
    let mock = MockI2c::new(Vec::new());
    assert!(matches!(
        AsyncDS4432::with_rfs_policy(mock, Some(0), None, RfsPolicy::NonZero),
        Err(Error::InvalidRfs)
    ));
}

#[test]
fn constructor_stores_resistor_values() {
    let mock = MockI2c::new(Vec::new());
    let session = AsyncDS4432::with_rfs(mock, Some(80_000), None).unwrap();
    assert_eq!(session.rfs(Output::Zero), Some(80_000));
    assert_eq!(session.rfs(Output::One), None);
}
