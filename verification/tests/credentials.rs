use data::credentials::{
    digest_outcome, lanes_acceptable, verdict_outcome, Algorithm, Argon2Config, VerifyFailure, Version,
    INVALID_CONFIGURATION,
};
use data::repository::user::postgres::{verification_outcome, PostgresUserRepository};
use data::repository::user::UserRepository;
use data::DataError;

const SAVED_HASH: &str =
    "$argon2id$v=19$m=19456,t=2,p=1$l9VfAtWMe+bWqP81cgsDuQ$Z+ExthpqUCPuHSwxtHI1RP17OyVGo1/bapupD+cJYzw";

/// A configuration that is cheap to run: 8 KiB, one pass, one lane.
fn light(secret: &[u8]) -> Argon2Config {
    Argon2Config::new(secret.to_vec(), Algorithm::Argon2id, Version::V0x13, 8, 1, 1, None).unwrap()
}

fn refused(
    m_cost: u32,
    t_cost: u32,
    p_cost: u32,
    output_len: Option<usize>,
) -> Result<Argon2Config, DataError> {
    Argon2Config::new(b"mysecret".to_vec(), Algorithm::Argon2id, Version::V0x13, m_cost, t_cost, p_cost, output_len)
}

fn invalid() -> DataError {
    DataError::InvalidArgument(INVALID_CONFIGURATION.to_string())
}

#[test]
fn configuration_accepts_the_least_parameters() {
    assert!(refused(8, 1, 1, None).is_ok());
    assert!(refused(8, 1, 1, Some(4)).is_ok());
    assert!(refused(16, 1, 2, None).is_ok());
    assert!(refused(u32::MAX, u32::MAX, 0xFF_FFFF, Some(64)).is_ok());
}

#[test]
fn configuration_refuses_too_little_memory() {
    assert_eq!(refused(7, 1, 1, None).err(), Some(invalid()));
    assert_eq!(refused(0, 2, 1, None).err(), Some(invalid()));
    assert_eq!(refused(15, 1, 2, None).err(), Some(invalid()));
}

#[test]
fn configuration_refuses_no_pass_and_no_lane() {
    assert_eq!(refused(19456, 0, 1, None).err(), Some(invalid()));
    assert_eq!(refused(19456, 2, 0, None).err(), Some(invalid()));
}

#[test]
fn configuration_refuses_too_many_lanes() {
    assert_eq!(refused(u32::MAX, 2, 0x100_0000, None).err(), Some(invalid()));
    assert_eq!(refused(u32::MAX, 2, 0x2000_0000, None).err(), Some(invalid()));
    assert_eq!(refused(u32::MAX, 2, u32::MAX, None).err(), Some(invalid()));
}

#[test]
fn configuration_refuses_a_short_output() {
    assert_eq!(refused(19456, 2, 1, Some(3)).err(), Some(invalid()));
    assert_eq!(refused(19456, 2, 1, Some(0)).err(), Some(invalid()));
}

#[test]
fn recommended_configuration_is_argon2id_with_the_default_costs() {
    let config = Argon2Config::recommended(b"mysecret".to_vec()).unwrap();
    let digest = config.derive("dev_only_pass").unwrap();
    assert!(digest.starts_with("$argon2id$v=19$m=19456,t=2,p=1$"));
    assert_eq!(config.check("dev_only_pass", SAVED_HASH), Ok(()));
}

#[test]
fn digest_is_an_encoded_digest_and_not_the_password() {
    let digest = light(b"mysecret").derive("some_test_pass").unwrap();
    assert_ne!(digest, "some_test_pass");
    assert!(!digest.is_empty());
    let fields: Vec<&str> = digest.split('$').collect();
    assert_eq!(fields.len(), 6);
    assert_eq!(fields[0], "");
    assert_eq!(fields[1], "argon2id");
    assert_eq!(fields[2], "v=19");
    assert_eq!(fields[3], "m=8,t=1,p=1");
    assert_eq!(fields[4].len(), 22);
    assert!(fields[4].chars().all(|c| c.is_ascii_alphanumeric() || c == '+' || c == '/'));
    assert_eq!(fields[5].len(), 43);
}

#[test]
fn digest_names_the_variant_and_the_version() {
    let secret = b"mysecret".to_vec();
    let argon2d = Argon2Config::new(secret.clone(), Algorithm::Argon2d, Version::V0x10, 8, 1, 1, None).unwrap();
    let argon2i = Argon2Config::new(secret, Algorithm::Argon2i, Version::V0x13, 16, 3, 2, Some(16)).unwrap();
    let first = argon2d.derive("pw").unwrap();
    let second = argon2i.derive("pw").unwrap();
    assert!(first.starts_with("$argon2d$v=16$m=8,t=1,p=1$"));
    assert!(second.starts_with("$argon2i$v=19$m=16,t=3,p=2$"));
    assert_eq!(second.split('$').last().unwrap().len(), 22);
    assert_eq!(argon2d.check("pw", &first), Ok(()));
    assert_eq!(argon2i.check("pw", &second), Ok(()));
    assert_eq!(argon2i.check("pw", &first), Ok(()));
    assert_eq!(Algorithm::Argon2id.ident(), "argon2id");
    assert_eq!(Version::V0x10.number(), 16);
    assert_eq!(Version::V0x13.number(), 19);
}

#[test]
fn same_password_verifies_and_another_does_not() {
    let config = light(b"mysecret");
    let digest = config.derive("some_test_pass").unwrap();
    assert_eq!(config.check("some_test_pass", &digest), Ok(()));
    assert_eq!(config.check("some_test_pasS", &digest), Err(VerifyFailure::CredentialMismatch));
    assert_eq!(config.check("", &digest), Err(VerifyFailure::CredentialMismatch));
    assert_eq!(config.check(&digest, &digest), Err(VerifyFailure::CredentialMismatch));
}

#[test]
fn two_digests_of_one_password_differ_and_both_verify() {
    let config = light(b"mysecret");
    let first = config.derive("dev_only_pass").unwrap();
    let second = config.derive("dev_only_pass").unwrap();
    assert_ne!(first, second);
    assert_ne!(first.split('$').nth(4), second.split('$').nth(4));
    assert_eq!(config.check("dev_only_pass", &first), Ok(()));
    assert_eq!(config.check("dev_only_pass", &second), Ok(()));
}

#[test]
fn digest_is_keyed_with_the_secret() {
    let digest = light(b"mysecret").derive("dev_only_pass").unwrap();
    assert_eq!(light(b"othersecret").check("dev_only_pass", &digest), Err(VerifyFailure::CredentialMismatch));
    assert_eq!(light(b"").check("dev_only_pass", &digest), Err(VerifyFailure::CredentialMismatch));
    assert_eq!(light(b"othersecret").check("dev_only_pass", SAVED_HASH), Err(VerifyFailure::CredentialMismatch));
}

#[test]
fn verification_takes_the_costs_from_the_digest() {
    assert_eq!(light(b"mysecret").check("dev_only_pass", SAVED_HASH), Ok(()));
    assert_eq!(light(b"mysecret").check("dev_only_pasz", SAVED_HASH), Err(VerifyFailure::CredentialMismatch));
}

#[test]
fn malformed_digest_is_corrupt() {
    let config = light(b"mysecret");
    for digest in ["", "dev_only_pass", "argon2id$v=19", "$argon2id$v=19$m=8,t=1,p=1$***$abc", "$$$"] {
        assert_eq!(config.check("dev_only_pass", digest), Err(VerifyFailure::CorruptDigest));
    }
    let trailing = format!("{SAVED_HASH}$more");
    assert_eq!(config.check("dev_only_pass", &trailing), Err(VerifyFailure::CorruptDigest));
}

#[test]
fn digest_with_lanes_out_of_range_is_corrupt() {
    let config = light(b"mysecret");
    let tail = "$l9VfAtWMe+bWqP81cgsDuQ$Z+ExthpqUCPuHSwxtHI1RP17OyVGo1/bapupD+cJYzw";
    for params in [
        "m=19456,t=2,p=4294967295",
        "m=4294967295,t=2,p=536870912",
        "m=19456,t=2,p=16777216",
        "m=19456,t=2,p=1,p=4294967295",
    ] {
        let digest = format!("$argon2id$v=19${params}{tail}");
        assert_eq!(config.check("dev_only_pass", &digest), Err(VerifyFailure::CorruptDigest));
    }
}

#[test]
fn digest_that_parses_but_cannot_be_derived_again_is_a_mismatch() {
    let config = light(b"mysecret");
    let tail = "$l9VfAtWMe+bWqP81cgsDuQ$Z+ExthpqUCPuHSwxtHI1RP17OyVGo1/bapupD+cJYzw";
    for head in ["$argon2id$v=19$m=19456,t=0,p=1", "$scrypt$v=19$m=19456,t=2,p=1", "$argon2id$v=7$m=19456,t=2,p=1"] {
        let digest = format!("{head}{tail}");
        assert_eq!(config.check("dev_only_pass", &digest), Err(VerifyFailure::CredentialMismatch));
    }
    assert_eq!(config.check("dev_only_pass", "$argon2id"), Err(VerifyFailure::CredentialMismatch));
}

#[test]
fn valid_configuration_whose_output_no_digest_can_carry_fails_to_hash() {
    let config = refused(8, 1, 1, Some(4)).unwrap();
    assert_eq!(config.derive("dev_only_pass"), Err(DataError::Hash));
    let repo = PostgresUserRepository::new(refused(8, 1, 1, Some(65)).unwrap());
    assert_eq!(repo.hash_password("dev_only_pass"), Err(DataError::Hash));
}

#[test]
fn repository_reports_both_failures_alike() {
    let repo = PostgresUserRepository::new(light(b"mysecret"));
    let digest = repo.hash_password("dev_only_pass").unwrap();
    assert_eq!(repo.verify_password("dev_only_pass", &digest), Ok(()));
    assert_eq!(repo.verify_password("wrong", &digest), Err(DataError::Hash));
    assert_eq!(repo.verify_password("dev_only_pass", "corrupt"), Err(DataError::Hash));
    assert_eq!(verification_outcome(Ok(())), Ok(()));
    assert_eq!(verification_outcome(Err(VerifyFailure::CorruptDigest)), Err(DataError::Hash));
    assert_eq!(verification_outcome(Err(VerifyFailure::CredentialMismatch)), Err(DataError::Hash));
}

#[test]
fn outcomes_of_what_the_workers_return() {
    assert_eq!(digest_outcome(Some("$argon2id$x".to_string())), Ok("$argon2id$x".to_string()));
    assert_eq!(digest_outcome(None), Err(DataError::Hash));
    assert_eq!(verdict_outcome(Some(true), Some(true)), Ok(()));
    assert_eq!(verdict_outcome(Some(true), Some(false)), Err(VerifyFailure::CredentialMismatch));
    assert_eq!(verdict_outcome(Some(true), None), Err(VerifyFailure::CorruptDigest));
    assert_eq!(verdict_outcome(Some(false), Some(true)), Err(VerifyFailure::CorruptDigest));
    assert_eq!(verdict_outcome(None, Some(true)), Err(VerifyFailure::CorruptDigest));
    let listed = |lanes: Option<u32>| vec![("m".to_string(), Some(u32::MAX)), ("p".to_string(), lanes)];
    assert!(lanes_acceptable(&Vec::new()));
    assert!(lanes_acceptable(&listed(Some(0xFF_FFFF))));
    assert!(lanes_acceptable(&listed(None)));
    assert!(!lanes_acceptable(&listed(Some(0x100_0000))));
}
