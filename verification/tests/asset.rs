use wasi_shim::asset::{DirectoryTest, ReaderDiagnostic, WasiAssetReader};

const PLACEHOLDER: [u8; 12] = [255, 0, 0, 0, 255, 0, 0, 0, 255, 0, 0, 0];

#[test]
fn read_returns_the_placeholder_for_any_path() {
    let reader = WasiAssetReader::new();
    assert_eq!(reader.read("/any/path").bytes, PLACEHOLDER.to_vec());
    assert_eq!(reader.read("").bytes, PLACEHOLDER.to_vec());
    assert_eq!(reader.read("models/ship.glb"), reader.read("/any/path"));
    assert_eq!(reader.read("/any/path").diagnostic, ReaderDiagnostic::FetchUnimplemented);
}

#[test]
fn read_meta_returns_the_placeholder_for_any_path() {
    let reader = WasiAssetReader::new();
    assert_eq!(reader.read_meta("/any/path.meta").bytes, PLACEHOLDER.to_vec());
    assert_eq!(reader.read_meta("missing"), reader.read("other"));
    assert_eq!(reader.read_meta("missing").diagnostic, ReaderDiagnostic::FetchUnimplemented);
}

#[test]
fn read_directory_is_empty_and_says_unsupported() {
    let listing = WasiAssetReader::new().read_directory("/any/path");
    assert!(listing.paths.is_empty());
    assert_eq!(listing.diagnostic, ReaderDiagnostic::DirectoriesUnsupported);
    assert_eq!(
        listing.diagnostic.message(),
        "Reading directories is not supported with the WasiAssetReader"
    );
}

#[test]
fn is_directory_is_false_and_says_unsupported() {
    let test = WasiAssetReader::new().is_directory("/");
    assert_eq!(
        test,
        DirectoryTest { is_directory: false, diagnostic: ReaderDiagnostic::DirectoriesUnsupported }
    );
}

#[test]
fn diagnostics_say_what_is_missing() {
    assert_eq!(
        ReaderDiagnostic::FetchUnimplemented.message(),
        "Fetching assets is not implemented in the WasiAssetReader"
    );
    assert_ne!(
        ReaderDiagnostic::FetchUnimplemented.message(),
        ReaderDiagnostic::DirectoriesUnsupported.message()
    );
}
