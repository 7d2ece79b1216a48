use vstd::prelude::*;

verus! {

/// `std::io::Error`, carried by `ConfigError::Io`.
#[verifier::external_type_specification]
#[verifier::external_body]
pub struct ExIoError(std::io::Error);

/// `toml::de::Error`, carried by `ConfigError::Parse`.
#[verifier::external_type_specification]
#[verifier::external_body]
pub struct ExTomlParseError(toml::de::Error);

/// `toml::ser::Error`, carried by `ConfigError::Serialize`.
#[verifier::external_type_specification]
#[verifier::external_body]
pub struct ExTomlWriteError(toml::ser::Error);

/// Largest configuration file that is read, in bytes (1 MiB).
pub const MAX_CONFIG_SIZE: u64 = 1048576;

/// Errors that can occur while loading or saving a configuration.
#[derive(Debug)]
pub enum ConfigError {
    Io(std::io::Error),
    Parse(toml::de::Error),
    Serialize(toml::ser::Error),
    FileTooLarge,
}

/// The limit is one mebibyte.
pub proof fn lemma_limit_is_one_mebibyte()
    ensures
        MAX_CONFIG_SIZE == 1024 * 1024,
{
}

/// Admits a configuration file by its size: files above `MAX_CONFIG_SIZE`
/// bytes are refused with `FileTooLarge`.
pub fn check_config_size(len: u64) -> (r: Result<(), ConfigError>)
    ensures
        r is Ok <==> len <= MAX_CONFIG_SIZE,
        r is Err ==> r matches Err(ConfigError::FileTooLarge),
{
    if len > MAX_CONFIG_SIZE {
        Err(ConfigError::FileTooLarge)
    } else {
        Ok(())
    }
}

} // verus!
