//! Tests of the version and record types.

use upgrade_governance::upgrade::logic::check_version_compatibility;
use upgrade_governance::upgrade::types::{MigrationPlan, UpgradeStatus, Version};

fn create_test_version(major: u32, minor: u32, patch: u32) -> Version {
    Version::new(major, minor, patch)
}

#[test]
fn test_version_compatibility() {
    let v1_0_0 = create_test_version(1, 0, 0);
    let v1_1_0 = create_test_version(1, 1, 0);
    let v2_0_0 = create_test_version(2, 0, 0);

    // Same version should be compatible
    assert!(v1_0_0.is_compatible_with(&v1_0_0));

    // Later minor version should be compatible
    assert!(v1_1_0.is_compatible_with(&v1_0_0));

    // Earlier minor version should not be compatible with later
    assert!(!v1_0_0.is_compatible_with(&v1_1_0));

    // Different major versions should not be compatible
    assert!(!v2_0_0.is_compatible_with(&v1_0_0));
    assert!(!v1_0_0.is_compatible_with(&v2_0_0));
}

#[test]
fn test_version_struct() {
    let version = create_test_version(1, 2, 3);
    assert_eq!(version.major, 1);
    assert_eq!(version.minor, 2);
    assert_eq!(version.patch, 3);
}

#[test]
fn test_upgrade_status_enum() {
    let pending = UpgradeStatus::Pending;
    let approved = UpgradeStatus::Approved;
    let executed = UpgradeStatus::Executed;
    let rejected = UpgradeStatus::Rejected;
    let cancelled = UpgradeStatus::Cancelled;

    assert_eq!(pending as u32, 0);
    assert_eq!(approved as u32, 1);
    assert_eq!(executed as u32, 2);
    assert_eq!(rejected as u32, 3);
    assert_eq!(cancelled as u32, 4);
}

#[test]
fn test_migration_plan() {
    let from_version = create_test_version(1, 0, 0);
    let to_version = create_test_version(1, 1, 0);
    let selector = String::from("migrate");

    let migration_plan = MigrationPlan {
        from_version,
        to_version,
        migration_function_selector: selector,
        estimated_gas: 100000,
    };

    assert_eq!(migration_plan.from_version.major, 1);
    assert_eq!(migration_plan.to_version.minor, 1);
    assert_eq!(migration_plan.estimated_gas, 100000);
}

#[test]
fn test_compatibility_is_not_symmetric() {
    // within one major series, compatibility compares minors one way only
    assert!(Version::new(1, 1, 0).is_compatible_with(&Version::new(1, 0, 0)));
    assert!(!Version::new(1, 0, 0).is_compatible_with(&Version::new(1, 1, 0)));
    assert!(!Version::new(2, 0, 0).is_compatible_with(&Version::new(1, 0, 0)));
    // the patch component is ignored
    assert!(Version::new(1, 1, 9).is_compatible_with(&Version::new(1, 1, 2)));
    assert!(Version::new(1, 1, 2).is_compatible_with(&Version::new(1, 1, 9)));
}

#[test]
fn test_check_compatibility_mirrors_is_compatible_with() {
    let older = Version::new(1, 0, 0);
    let newer = Version::new(1, 1, 0);
    // upgrade direction: moving from older to newer is fine, not backwards
    assert!(check_version_compatibility(&older, &newer));
    assert!(!check_version_compatibility(&newer, &older));
    // argument order is the mirror image of Version::is_compatible_with
    assert_eq!(
        check_version_compatibility(&older, &newer),
        newer.is_compatible_with(&older)
    );
    assert_eq!(
        check_version_compatibility(&newer, &older),
        older.is_compatible_with(&newer)
    );
    assert!(!check_version_compatibility(&Version::new(1, 0, 0), &Version::new(2, 0, 0)));
}
