use yapm::error::CliError;

fn text(value: &str) -> String {
    String::from(value)
}

#[test]
fn message_of_cannot_infer_yapm_dir() {
    assert_eq!(
        CliError::CannotInferYapmDir.message(),
        "The Yapm directory was not set, and it cannot be inferred to it's default, `~/.yapm`, because the `$HOME` env variable is not set. To resolve, set either the $YAPM_DIR or $HOME environment variables."
    );
}

#[test]
fn message_of_invalid_path() {
    assert_eq!(CliError::InvalidPath(text("/a b")).message(), "Invalid path: \"/a b\"");
}

#[test]
fn message_of_invalid_resolver() {
    assert_eq!(
        CliError::InvalidResolver(text("/bin/none")).message(),
        "Resolver could not be spawned from /bin/none"
    );
}

#[test]
fn message_of_unexpected_process_failure() {
    assert_eq!(
        CliError::UnexpectedProcessFailure { program: text("gh"), message: text("interrupted") }
            .message(),
        "Subprocess \"gh\" encountered an unexpected error: interrupted"
    );
}

#[test]
fn message_of_resolver_errored() {
    assert_eq!(
        CliError::ResolverErrored(text("gh")).message(),
        "Failed to resolve using resolver \"gh\""
    );
}

#[test]
fn message_of_decompress_error() {
    assert_eq!(
        CliError::DecompressError { id: text("pkg"), message: text("no compressor found") }
            .message(),
        "Failed to decompress \"pkg\": no compressor found"
    );
}

#[test]
fn message_of_worker_aborted() {
    assert_eq!(
        CliError::WorkerAborted { id: text("pkg") }.message(),
        "The worker decompressing \"pkg\" stopped before it reported a result"
    );
}

#[test]
fn message_with_empty_texts() {
    assert_eq!(CliError::InvalidPath(String::new()).message(), "Invalid path: \"\"");
    assert_eq!(
        CliError::DecompressError { id: String::new(), message: String::new() }.message(),
        "Failed to decompress \"\": "
    );
}

#[test]
fn errors_of_different_kinds_differ() {
    assert_ne!(CliError::InvalidResolver(text("x")), CliError::ResolverErrored(text("x")));
    assert_ne!(CliError::InvalidPath(text("x")), CliError::InvalidResolver(text("x")));
    assert_ne!(
        CliError::WorkerAborted { id: text("x") },
        CliError::DecompressError { id: text("x"), message: String::new() }
    );
}
