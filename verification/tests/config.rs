use std::path::PathBuf;

use argon2derive::config::decimal;
use argon2derive::{Algorithm, Cli, Failure, File, Parameters, CONFIG_FILE_NAME};

fn options(salt: Option<&str>) -> Cli {
    Cli {
        algorithm: Algorithm::Argon2d,
        memory: Some(16),
        time: Some(3),
        parallelism: Some(4),
        salt: salt.map(String::from),
        config: None,
        expose_passphrase: false,
    }
}

fn parameters(salt: &[u8]) -> Parameters {
    Parameters {
        algorithm: Algorithm::Argon2id,
        memory: 16_777_216,
        time: 3,
        parallelism: 4,
        salt: salt.to_vec(),
    }
}

#[test]
fn record_of_parameters() {
    assert_eq!(
        File::from(parameters(b"pepper")),
        File {
            algorithm: "argon2id".to_string(),
            memory: 16_777_216,
            time: 3,
            parallelism: 4,
            salt: Some("pepper".to_string()),
        }
    );
}

#[test]
fn record_leaves_an_empty_salt_out() {
    assert_eq!(File::from(parameters(b"")).salt, None);
}

#[test]
fn record_keeps_a_salt_beyond_ascii() {
    assert_eq!(File::from(parameters("sälz".as_bytes())).salt, Some("sälz".to_string()));
}

#[test]
fn record_reads_back_as_the_parameters() {
    for salt in [&b"pepper"[..], &b""[..], "sälz".as_bytes()] {
        assert_eq!(Parameters::try_from(File::from(parameters(salt))), Ok(parameters(salt)));
    }
}

#[test]
fn configure_writes_the_explicit_parameters() {
    assert_eq!(
        File::configure(&options(Some("pepper")), false, false),
        Ok(File {
            algorithm: "argon2d".to_string(),
            memory: 16_777_216,
            time: 3,
            parallelism: 4,
            salt: Some("pepper".to_string()),
        })
    );
}

#[test]
fn configure_without_salt_writes_none() {
    assert_eq!(File::configure(&options(None), false, false).unwrap().salt, None);
    assert_eq!(File::configure(&options(Some("")), false, false).unwrap().salt, None);
}

#[test]
fn configure_refuses_to_replace_a_record() {
    assert_eq!(File::configure(&options(Some("pepper")), true, false), Err(Failure::ConfigExists));
}

#[test]
fn configure_replaces_a_record_on_request() {
    assert!(File::configure(&options(Some("pepper")), true, true).is_ok());
    assert!(File::configure(&options(Some("pepper")), false, true).is_ok());
}

#[test]
fn configure_needs_the_parameters() {
    let mut cli = options(None);
    cli.memory = None;
    cli.time = None;
    cli.parallelism = None;
    assert_eq!(
        File::configure(&cli, false, false),
        Err(Failure::MissingRequiredParameters { memory: true, time: true, parallelism: true })
    );
    cli.time = Some(1);
    assert_eq!(
        File::configure(&cli, false, false),
        Err(Failure::MissingRequiredParameters { memory: true, time: false, parallelism: true })
    );
}

#[test]
fn existing_record_is_checked_first() {
    let mut cli = options(None);
    cli.memory = None;
    assert_eq!(File::configure(&cli, true, false), Err(Failure::ConfigExists));
}

#[test]
fn summary_lists_every_field() {
    let record = File {
        algorithm: "argon2id".to_string(),
        memory: 67_108_864,
        time: 3,
        parallelism: 4,
        salt: Some("pepper".to_string()),
    };
    assert_eq!(
        record.summary(),
        "Algorithm: argon2id\nMemory: 67108864 (KiB)\nTime: 3 (iterations)\n\
         Parallelism: 4 (threads)\nSalt: pepper\n"
    );
}

#[test]
fn summary_without_salt() {
    let record = File {
        algorithm: "argon2d".to_string(),
        memory: 0,
        time: 10,
        parallelism: 4_294_967_295,
        salt: None,
    };
    assert_eq!(
        record.summary(),
        "Algorithm: argon2d\nMemory: 0 (KiB)\nTime: 10 (iterations)\n\
         Parallelism: 4294967295 (threads)\nSalt: \n"
    );
}

#[test]
fn decimal_writes_numbers_as_std_does() {
    for n in [0u32, 1, 9, 10, 11, 99, 100, 101, 1000, 65536, 1_000_000, 4_294_967_295] {
        assert_eq!(decimal(n), n.to_string());
    }
}

#[test]
fn explicit_config_path_wins() {
    let mut cli = options(None);
    cli.config = Some(PathBuf::from("/tmp/explicit.toml"));
    let fallback = PathBuf::from("/home/user/.config/app").join(CONFIG_FILE_NAME);
    assert_eq!(cli.config_path(Some(&fallback)), Ok(&PathBuf::from("/tmp/explicit.toml")));
    assert_eq!(cli.config_path(None), Ok(&PathBuf::from("/tmp/explicit.toml")));
}

#[test]
fn default_config_path_is_the_fallback() {
    let cli = options(None);
    let fallback = PathBuf::from("/home/user/.config/app").join(CONFIG_FILE_NAME);
    assert_eq!(cli.config_path(Some(&fallback)), Ok(&fallback));
    assert!(fallback.ends_with("config.toml"));
}

#[test]
fn no_config_path_at_all_fails() {
    assert_eq!(options(None).config_path(None), Err(Failure::UnresolvedConfigPath));
}

#[test]
fn configure_refuses_a_memory_that_cannot_be_scaled() {
    let mut cli = options(Some("pepper"));
    cli.memory = Some(4096);
    assert_eq!(File::configure(&cli, false, false), Err(Failure::MemoryTooLarge));
}
