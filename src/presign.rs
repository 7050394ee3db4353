use aws_sdk_s3::presigning::{PresigningConfig, PresigningConfigError};
use vstd::prelude::*;

verus! {

#[verifier::external_type_specification]
#[verifier::external_body]
pub struct ExPresigningConfig(PresigningConfig);

#[verifier::external_type_specification]
#[verifier::external_body]
pub struct ExPresigningConfigError(PresigningConfigError);

/// The longest validity, in seconds, that a pre-signed request may have: one week.
pub const MAX_EXPIRE_SECS: u64 = 60 * 60 * 24 * 7;

/// The validity used when the caller gives none: one week less thirty seconds,
/// a margin below the hard limit that some providers enforce.
pub const DEFAULT_EXPIRE_SECS: u64 = 60 * 60 * 24 * 7 - 30;

/// Why no pre-signed URL could be produced.
#[derive(Debug)]
pub enum PreSignErr {
    /// A validity of zero seconds was asked for.
    ZeroDuration,
    /// The presigning configuration refused the validity (longer than one week).
    PresignCfg(PresigningConfigError),
    /// Signing the request failed.
    Presign(String),
}

/// The validity, in seconds, that a request for `ttl` asks for.
pub open spec fn ttl_or_default(ttl: Option<u64>) -> u64 {
    match ttl {
        Some(t) => t,
        None => DEFAULT_EXPIRE_SECS,
    }
}

/// Whether a validity of `secs` seconds may be signed.
pub open spec fn valid_expiry(secs: u64) -> bool {
    0 < secs && secs <= MAX_EXPIRE_SECS
}

/// The validity, in seconds, of a pre-signed request: `ttl`, or the default.
pub fn expiry_secs(ttl: Option<u64>) -> (r: u64)
    ensures
        r == ttl_or_default(ttl),
        ttl is None ==> r == DEFAULT_EXPIRE_SECS,
{
    match ttl {
        Some(t) => t,
        None => DEFAULT_EXPIRE_SECS,
    }
}

/// Relies on `PresigningConfig::expires_in`: it builds a configuration that
/// starts now and lasts `secs` seconds, and fails exactly when that is longer
/// than one week.
#[verifier::external_body]
fn config_expiring_in(secs: u64) -> (r: Result<PresigningConfig, PresigningConfigError>)
    ensures
        r is Ok <==> secs <= MAX_EXPIRE_SECS,
{
    PresigningConfig::expires_in(std::time::Duration::from_secs(secs))
}

/// The presigning configuration for a request valid for `ttl` seconds, or for
/// the default validity when `ttl` is `None`. A validity of zero is refused
/// before any configuration is built; one longer than a week is refused by
/// the configuration.
pub fn presign_config(ttl: Option<u64>) -> (r: Result<PresigningConfig, PreSignErr>)
    ensures
        r is Ok <==> valid_expiry(ttl_or_default(ttl)),
        ttl_or_default(ttl) == 0 ==> r matches Err(PreSignErr::ZeroDuration),
        ttl_or_default(ttl) > MAX_EXPIRE_SECS ==> r matches Err(PreSignErr::PresignCfg(_)),
{
    let secs = expiry_secs(ttl);
    if secs == 0 {
        return Err(PreSignErr::ZeroDuration);
    }
    match config_expiring_in(secs) {
        Ok(cfg) => Ok(cfg),
        Err(e) => Err(PreSignErr::PresignCfg(e)),
    }
}

} // verus!
