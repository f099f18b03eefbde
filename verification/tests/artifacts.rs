use std::cell::Cell;
use std::path::PathBuf;

use extrinsic_opts::artifacts::verifiable;
use extrinsic_opts::{ContractArtifacts, ExtrinsicOpts, ExtrinsicOptsBuilder};

#[derive(Clone, Copy, Debug, PartialEq, Eq)]
enum LoadError {
    ArtifactNotFound,
    ArtifactParseError,
    AmbiguousManifestAndFile,
}

type Opts = ExtrinsicOpts<u128, &'static str>;

fn opts(manifest_path: Option<&str>, file: Option<&str>) -> Opts {
    ExtrinsicOptsBuilder::new("//Alice")
        .manifest_path(manifest_path.map(PathBuf::from))
        .file(file.map(PathBuf::from))
        .done()
}

fn load(manifest_path: Option<&PathBuf>, file: Option<&PathBuf>) -> Result<ContractArtifacts, LoadError> {
    match (manifest_path, file) {
        (Some(_), Some(_)) => Err(LoadError::AmbiguousManifestAndFile),
        (None, None) => Err(LoadError::ArtifactNotFound),
        (None, Some(file)) if file.extension().is_none() => Err(LoadError::ArtifactParseError),
        (None, Some(file)) => Ok(ContractArtifacts::new(file.ends_with("verifiable.contract"))),
        (Some(_), None) => Ok(ContractArtifacts::new(false)),
    }
}

#[test]
fn artifacts_hand_back_their_flag() {
    assert!(ContractArtifacts::new(true).is_verifiable());
    assert!(!ContractArtifacts::new(false).is_verifiable());
}

#[test]
fn verifiable_reads_the_flag_and_hands_errors_on() {
    assert_eq!(verifiable::<LoadError>(Ok(ContractArtifacts::new(true))), Ok(true));
    assert_eq!(verifiable::<LoadError>(Ok(ContractArtifacts::new(false))), Ok(false));
    assert_eq!(verifiable(Err(LoadError::ArtifactNotFound)), Err(LoadError::ArtifactNotFound));
    assert_eq!(verifiable(Err(LoadError::ArtifactParseError)), Err(LoadError::ArtifactParseError));
}

#[test]
fn loader_is_handed_manifest_path_then_file() {
    let opts = opts(Some("flipper/Cargo.toml"), Some("flipper.contract"));
    let seen = Cell::new(None);
    let loaded = opts.contract_artifacts(|manifest_path, file| {
        seen.set(Some((manifest_path.cloned(), file.cloned())));
        Ok::<ContractArtifacts, LoadError>(ContractArtifacts::new(true))
    });
    assert_eq!(loaded, Ok(ContractArtifacts::new(true)));
    assert_eq!(
        seen.take(),
        Some((Some(PathBuf::from("flipper/Cargo.toml")), Some(PathBuf::from("flipper.contract"))))
    );
}

#[test]
fn loader_is_handed_what_is_unset_as_none() {
    let seen = Cell::new(None);
    let _ = opts(None, None).contract_artifacts(|manifest_path, file| {
        seen.set(Some((manifest_path.cloned(), file.cloned())));
        Err::<ContractArtifacts, LoadError>(LoadError::ArtifactNotFound)
    });
    assert_eq!(seen.take(), Some((None, None)));

    let _ = opts(None, Some("flipper.contract")).contract_artifacts(|manifest_path, file| {
        seen.set(Some((manifest_path.cloned(), file.cloned())));
        Err::<ContractArtifacts, LoadError>(LoadError::ArtifactNotFound)
    });
    assert_eq!(seen.take(), Some((None, Some(PathBuf::from("flipper.contract")))));
}

#[test]
fn contract_artifacts_returns_what_the_loader_returns() {
    assert_eq!(opts(Some("Cargo.toml"), None).contract_artifacts(load), Ok(ContractArtifacts::new(false)));
    assert_eq!(
        opts(None, Some("verifiable.contract")).contract_artifacts(load),
        Ok(ContractArtifacts::new(true))
    );
    assert_eq!(opts(None, None).contract_artifacts(load), Err(LoadError::ArtifactNotFound));
    assert_eq!(opts(None, Some("flipper")).contract_artifacts(load), Err(LoadError::ArtifactParseError));
    assert_eq!(
        opts(Some("Cargo.toml"), Some("flipper.contract")).contract_artifacts(load),
        Err(LoadError::AmbiguousManifestAndFile)
    );
}

#[test]
fn is_verifiable_fails_as_loading_fails() {
    for (manifest_path, file) in [
        (None, None),
        (None, Some("flipper")),
        (Some("Cargo.toml"), Some("flipper.contract")),
    ] {
        let opts = opts(manifest_path, file);
        let loaded = opts.contract_artifacts(load);
        assert!(loaded.is_err());
        assert_eq!(opts.is_verifiable(load).unwrap_err(), loaded.unwrap_err());
    }
}

#[test]
fn is_verifiable_never_fails_when_loading_succeeds() {
    let opts = opts(None, Some("verifiable.contract"));
    assert_eq!(opts.is_verifiable(load), Ok(true));
    let opts = self::opts(None, Some("flipper.contract"));
    assert_eq!(opts.is_verifiable(load), Ok(false));
    let opts = self::opts(Some("Cargo.toml"), None);
    assert_eq!(opts.is_verifiable(load), Ok(false));
}

#[test]
fn every_call_invokes_the_loader_again() {
    let opts = opts(None, Some("flipper.contract"));
    let calls = Cell::new(0u32);
    let counting = |_: Option<&PathBuf>, _: Option<&PathBuf>| {
        calls.set(calls.get() + 1);
        if calls.get() == 2 {
            Err(LoadError::ArtifactNotFound)
        } else {
            Ok(ContractArtifacts::new(true))
        }
    };
    assert_eq!(opts.is_verifiable(&counting), Ok(true));
    assert_eq!(opts.is_verifiable(&counting), Err(LoadError::ArtifactNotFound));
    assert_eq!(opts.contract_artifacts(&counting), Ok(ContractArtifacts::new(true)));
    assert_eq!(calls.get(), 3);
}
