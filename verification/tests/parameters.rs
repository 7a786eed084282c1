use argon2derive::{Algorithm, Cli, Failure, File, Parameters, MEMORY_UNIT, MIN_SALT_LEN};

fn options(
    memory: Option<u32>,
    time: Option<u32>,
    parallelism: Option<u32>,
    salt: Option<&str>,
) -> Cli {
    Cli {
        algorithm: Algorithm::Argon2id,
        memory,
        time,
        parallelism,
        salt: salt.map(String::from),
        config: None,
        expose_passphrase: false,
    }
}

fn record(algorithm: &str, salt: Option<&str>) -> File {
    File {
        algorithm: algorithm.to_string(),
        memory: 65536,
        time: 3,
        parallelism: 4,
        salt: salt.map(String::from),
    }
}

#[test]
fn constants_have_their_values() {
    assert_eq!(MIN_SALT_LEN, 8);
    assert_eq!(MEMORY_UNIT, 1_048_576);
}

#[test]
fn algorithm_tags_are_read() {
    assert_eq!(Algorithm::from_str("argon2d"), Ok(Algorithm::Argon2d));
    assert_eq!(Algorithm::from_str("argon2id"), Ok(Algorithm::Argon2id));
}

#[test]
fn unknown_algorithm_tags_are_refused() {
    assert_eq!(Algorithm::from_str("argon2i"), Err(Failure::InvalidAlgorithm));
    assert_eq!(Algorithm::from_str("Argon2id"), Err(Failure::InvalidAlgorithm));
    assert_eq!(Algorithm::from_str(""), Err(Failure::InvalidAlgorithm));
    assert_eq!(Algorithm::from_str("argon2id "), Err(Failure::InvalidAlgorithm));
}

#[test]
fn algorithm_tags_are_written() {
    assert_eq!(Algorithm::Argon2d.as_str(), "argon2d");
    assert_eq!(Algorithm::Argon2id.as_str(), "argon2id");
}

#[test]
fn algorithm_tag_round_trip() {
    for algorithm in [Algorithm::Argon2d, Algorithm::Argon2id] {
        assert_eq!(Algorithm::from_str(algorithm.as_str()), Ok(algorithm));
    }
}

#[test]
fn default_algorithm_resists_side_channels() {
    assert_eq!(Algorithm::default(), Algorithm::Argon2id);
}

#[test]
fn none_defined_only_without_any_parameter() {
    assert!(Parameters::none_defined(&options(None, None, None, None)));
    assert!(!Parameters::none_defined(&options(Some(1), None, None, None)));
    assert!(!Parameters::none_defined(&options(None, Some(1), None, None)));
    assert!(!Parameters::none_defined(&options(None, None, Some(1), None)));
    assert!(!Parameters::none_defined(&options(None, None, None, Some(""))));
}

#[test]
fn nothing_explicit_gives_no_parameters() {
    assert_eq!(Parameters::from_cli(&options(None, None, None, None)), Ok(None));
}

#[test]
fn explicit_parameters_scale_memory() {
    let got = Parameters::from_cli(&options(Some(64), Some(3), Some(4), Some("pepper")));
    assert_eq!(
        got,
        Ok(Some(Parameters {
            algorithm: Algorithm::Argon2id,
            memory: 67_108_864,
            time: 3,
            parallelism: 4,
            salt: b"pepper".to_vec(),
        }))
    );
}

#[test]
fn explicit_parameters_keep_the_algorithm() {
    let mut cli = options(Some(1), Some(1), Some(1), None);
    cli.algorithm = Algorithm::Argon2d;
    let got = Parameters::from_cli_opt(&cli).unwrap();
    assert_eq!(got.algorithm, Algorithm::Argon2d);
    assert_eq!(got.memory, 1_048_576);
}

#[test]
fn absent_salt_is_the_empty_salt() {
    let got = Parameters::from_cli_opt(&options(Some(1), Some(2), Some(3), None)).unwrap();
    assert_eq!(got.salt, Vec::<u8>::new());
}

#[test]
fn salt_is_taken_as_utf8() {
    let got = Parameters::from_cli_opt(&options(Some(1), Some(2), Some(3), Some("säl"))).unwrap();
    assert_eq!(got.salt, vec![0x73, 0xc3, 0xa4, 0x6c]);
}

#[test]
fn from_cli_opt_needs_all_three() {
    assert_eq!(Parameters::from_cli_opt(&options(None, Some(2), Some(3), Some("s"))), None);
    assert_eq!(Parameters::from_cli_opt(&options(Some(1), None, Some(3), Some("s"))), None);
    assert_eq!(Parameters::from_cli_opt(&options(Some(1), Some(2), None, Some("s"))), None);
    assert_eq!(Parameters::from_cli_opt(&options(None, None, None, None)), None);
}

#[test]
fn memory_and_time_without_parallelism_fail() {
    let cli = options(Some(64), Some(3), None, None);
    let expected = Failure::MissingRequiredParameters {
        memory: false,
        time: false,
        parallelism: true,
    };
    assert_eq!(Parameters::from_cli(&cli), Err(expected));
    assert_eq!(Parameters::resolve(&cli, None), Err(expected));
}

#[test]
fn partial_parameters_fail_even_with_a_record() {
    let cli = options(Some(64), Some(3), None, None);
    assert_eq!(
        Parameters::resolve(&cli, Some(record("argon2id", Some("persisted")))),
        Err(Failure::MissingRequiredParameters { memory: false, time: false, parallelism: true })
    );
}

#[test]
fn salt_alone_names_all_three_as_missing() {
    assert_eq!(
        Parameters::from_cli(&options(None, None, None, Some("only-salt"))),
        Err(Failure::MissingRequiredParameters { memory: true, time: true, parallelism: true })
    );
}

#[test]
fn each_missing_parameter_is_named() {
    assert_eq!(
        Parameters::from_cli(&options(None, Some(1), Some(1), None)),
        Err(Failure::MissingRequiredParameters { memory: true, time: false, parallelism: false })
    );
    assert_eq!(
        Parameters::from_cli(&options(Some(1), None, None, None)),
        Err(Failure::MissingRequiredParameters { memory: false, time: true, parallelism: true })
    );
}

#[test]
fn nothing_explicit_uses_the_persisted_record() {
    let cli = options(None, None, None, None);
    assert_eq!(
        Parameters::resolve(&cli, Some(record("argon2d", Some("persisted")))),
        Ok(Parameters {
            algorithm: Algorithm::Argon2d,
            memory: 65536,
            time: 3,
            parallelism: 4,
            salt: b"persisted".to_vec(),
        })
    );
}

#[test]
fn nothing_explicit_and_no_record_fails() {
    assert_eq!(
        Parameters::resolve(&options(None, None, None, None), None),
        Err(Failure::MissingConfig)
    );
}

#[test]
fn explicit_parameters_win_over_the_record() {
    let cli = options(Some(2), Some(5), Some(1), Some("explicit"));
    let got = Parameters::resolve(&cli, Some(record("argon2d", Some("persisted")))).unwrap();
    assert_eq!(got.algorithm, Algorithm::Argon2id);
    assert_eq!(got.memory, 2_097_152);
    assert_eq!(got.time, 5);
    assert_eq!(got.parallelism, 1);
    assert_eq!(got.salt, b"explicit".to_vec());
}

#[test]
fn record_memory_is_not_scaled() {
    let got = Parameters::try_from(record("argon2id", None)).unwrap();
    assert_eq!(got.memory, 65536);
    assert_eq!(got.salt, Vec::<u8>::new());
}

#[test]
fn record_with_unknown_algorithm_fails() {
    assert_eq!(Parameters::try_from(record("scrypt", None)), Err(Failure::InvalidAlgorithm));
    assert_eq!(
        Parameters::resolve(&options(None, None, None, None), Some(record("", Some("salt")))),
        Err(Failure::InvalidAlgorithm)
    );
}

#[test]
fn memory_fits_up_to_the_last_unit() {
    assert!(options(None, None, None, None).memory_fits());
    assert!(options(Some(0), None, None, None).memory_fits());
    assert!(options(Some(4095), None, None, None).memory_fits());
    assert!(!options(Some(4096), None, None, None).memory_fits());
    assert!(!options(Some(u32::MAX), None, None, None).memory_fits());
}

#[test]
fn largest_memory_is_scaled_exactly() {
    let got = Parameters::from_cli_opt(&options(Some(4095), Some(1), Some(1), None)).unwrap();
    assert_eq!(got.memory, 4_293_918_720);
}

#[test]
fn memory_beyond_the_last_unit_is_refused() {
    assert_eq!(
        Parameters::from_cli(&options(Some(4096), Some(1), Some(1), None)),
        Err(Failure::MemoryTooLarge)
    );
    assert_eq!(
        Parameters::resolve(&options(Some(u32::MAX), Some(1), Some(1), Some("salt")), None),
        Err(Failure::MemoryTooLarge)
    );
}

#[test]
fn too_large_memory_is_reported_before_missing_parameters() {
    assert_eq!(
        Parameters::from_cli(&options(Some(4096), None, None, None)),
        Err(Failure::MemoryTooLarge)
    );
}

#[test]
fn largest_memory_resolves() {
    let got = Parameters::resolve(&options(Some(4095), Some(1), Some(1), None), None).unwrap();
    assert_eq!(got.memory, 4095 * 1024 * 1024);
}
