//! Password generation: a thin verified layer over the `passwords` crate.
//!
//! The generator itself draws random characters, so nothing can be said
//! about which password comes back; what is stated — and all that is needed
//! — is that every returned password is valid for the configuration, and
//! exactly which configurations are rejected.

use vstd::prelude::*;
use vstd::pervasive::unreached;

use crate::config::{
    PasswordConfig, GenerateError, satisfies, generation_succeeds, rejection_error,
};

verus! {

/// Relies on `passwords::PasswordGenerator::generate_one` (and `try_iter`
/// behind it): a configuration is rejected exactly when its length is zero,
/// when no class is enabled, or when strict mode enables more classes than
/// the length can hold; otherwise every character of the returned password
/// is drawn from the enabled classes (minus the similar characters when
/// those are excluded), the password has exactly the configured length, and
/// in strict mode the generator regenerates until every enabled class
/// occurs.
#[verifier::external_body]
fn generate_one_raw(cfg: &PasswordConfig) -> (r: Result<String, ()>)
    ensures
        r is Ok <==> generation_succeeds(*cfg),
        r matches Ok(s) ==> satisfies(*cfg, s@),
{
    let pg = passwords::PasswordGenerator {
        length: cfg.length,
        numbers: cfg.numbers,
        lowercase_letters: cfg.lowercase_letters,
        uppercase_letters: cfg.uppercase_letters,
        symbols: cfg.symbols,
        spaces: cfg.spaces,
        exclude_similar_characters: cfg.exclude_similar_characters,
        strict: cfg.strict,
    };
    pg.generate_one().map_err(|_| ())
}

/// Accepts exactly the configurations the generator accepts, and names the
/// error for the rejected ones.
pub fn validate_config(cfg: &PasswordConfig) -> (r: Result<(), GenerateError>)
    ensures
        r is Ok <==> generation_succeeds(*cfg),
        r matches Err(e) ==> e == rejection_error(*cfg),
{
    if cfg.length == 0 {
        return Err(GenerateError::ZeroLength);
    }
    if !(cfg.numbers || cfg.lowercase_letters || cfg.uppercase_letters || cfg.symbols
        || cfg.spaces) {
        return Err(GenerateError::NoClassEnabled);
    }
    if cfg.strict {
        let mut classes: usize = 0;
        if cfg.numbers {
            classes += 1;
        }
        if cfg.lowercase_letters {
            classes += 1;
        }
        if cfg.uppercase_letters {
            classes += 1;
        }
        if cfg.symbols {
            classes += 1;
        }
        if cfg.spaces {
            classes += 1;
        }
        if cfg.length < classes {
            return Err(GenerateError::LengthTooShort);
        }
    }
    Ok(())
}

/// Generates one random password. Succeeds exactly when the configuration
/// is acceptable, and then the result is a valid password for it.
pub fn generate_password(cfg: &PasswordConfig) -> (r: Result<String, GenerateError>)
    ensures
        r is Ok <==> generation_succeeds(*cfg),
        r matches Ok(s) ==> satisfies(*cfg, s@),
        r matches Err(e) ==> e == rejection_error(*cfg),
{
    match validate_config(cfg) {
        Ok(()) => {},
        Err(e) => {
            return Err(e);
        },
    }
    match generate_one_raw(cfg) {
        Ok(s) => Ok(s),
        Err(()) => unreached(),
    }
}

/// Generates `count` random passwords. Succeeds exactly when the
/// configuration is acceptable — also for a count of zero — and then every
/// one of the `count` results is a valid password for it.
pub fn generate_passwords(cfg: &PasswordConfig, count: usize) -> (r: Result<
    Vec<String>,
    GenerateError,
>)
    ensures
        r is Ok <==> generation_succeeds(*cfg),
        r matches Ok(v) ==> v@.len() == count && forall|i: int|
            0 <= i < v@.len() ==> satisfies(*cfg, (#[trigger] v@[i])@),
        r matches Err(e) ==> e == rejection_error(*cfg),
{
    match validate_config(cfg) {
        Ok(()) => {},
        Err(e) => {
            return Err(e);
        },
    }
    let mut out: Vec<String> = Vec::new();
    let mut k: usize = 0;
    while k < count
        invariant
            generation_succeeds(*cfg),
            0 <= k <= count,
            out@.len() == k,
            forall|i: int| 0 <= i < out@.len() ==> satisfies(*cfg, (#[trigger] out@[i])@),
        decreases count - k,
    {
        match generate_one_raw(cfg) {
            Ok(s) => out.push(s),
            Err(()) => unreached(),
        }
        k += 1;
    }
    Ok(out)
}

} // verus!
