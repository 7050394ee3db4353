use r2_s3::presign::{expiry_secs, presign_config};
use r2_s3::{PreSignErr, DEFAULT_EXPIRE_SECS, MAX_EXPIRE_SECS};
use std::time::Duration;

#[test]
fn default_expiry_is_one_week_less_thirty_seconds() {
    assert_eq!(DEFAULT_EXPIRE_SECS, 604770);
    assert_eq!(expiry_secs(None), 604770);
    assert_eq!(expiry_secs(Some(60)), 60);
    let cfg = presign_config(None).unwrap();
    assert_eq!(cfg.expires(), Duration::from_secs(604770));
}

#[test]
fn zero_expiry_is_refused() {
    assert!(matches!(presign_config(Some(0)), Err(PreSignErr::ZeroDuration)));
}

#[test]
fn expiry_over_one_week_is_refused() {
    assert!(matches!(
        presign_config(Some(MAX_EXPIRE_SECS + 1)),
        Err(PreSignErr::PresignCfg(_))
    ));
}

#[test]
fn expiry_of_exactly_one_week_is_accepted() {
    let cfg = presign_config(Some(604800)).unwrap();
    assert_eq!(cfg.expires(), Duration::from_secs(604800));
}

#[test]
fn given_expiry_reaches_config() {
    let cfg = presign_config(Some(3600)).unwrap();
    assert_eq!(cfg.expires(), Duration::from_secs(3600));
}
