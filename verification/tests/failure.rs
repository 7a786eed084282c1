use argon2derive::Failure;

#[test]
fn missing_parameters_are_named_in_the_message() {
    let all = Failure::MissingRequiredParameters { memory: true, time: true, parallelism: true };
    assert_eq!(all.message(), "missing required parameters: --memory --time --parallelism");
    let one = Failure::MissingRequiredParameters { memory: false, time: false, parallelism: true };
    assert_eq!(one.message(), "missing required parameters: --parallelism");
    let two = Failure::MissingRequiredParameters { memory: true, time: false, parallelism: true };
    assert_eq!(two.message(), "missing required parameters: --memory --parallelism");
}

#[test]
fn salt_message_names_the_floor_and_both_inputs() {
    let text = Failure::SaltTooShort.message();
    assert!(text.contains("8 bytes"));
    assert!(text.contains("--salt"));
    assert!(text.contains("name"));
}

#[test]
fn every_failure_has_a_one_line_message() {
    let all = [
        Failure::MissingRequiredParameters { memory: true, time: false, parallelism: false },
        Failure::MemoryTooLarge,
        Failure::MissingConfig,
        Failure::UnreadableConfig,
        Failure::InvalidAlgorithm,
        Failure::UnresolvedConfigPath,
        Failure::ConfigExists,
        Failure::SaltTooShort,
        Failure::EmptyPassphrase,
        Failure::DerivationFailed,
        Failure::UnknownEncoding,
        Failure::IdentityLength,
        Failure::IdentityEncoding,
        Failure::UnexpectedEvent,
    ];
    for (i, failure) in all.iter().enumerate() {
        let text = failure.message();
        assert!(!text.is_empty());
        assert!(!text.contains('\n'));
        for other in &all[i + 1..] {
            assert_ne!(text, other.message());
        }
    }
}

#[test]
fn fixed_messages() {
    assert_eq!(Failure::MissingConfig.message(), "missing config file");
    assert_eq!(Failure::EmptyPassphrase.message(), "empty passphrase");
}
