//! The asset reader for WASI hosts. It is a placeholder: it fetches
//! nothing, answers every read with the same bytes, and knows no
//! directories. Every answer says so in a diagnostic, so that a caller
//! cannot take a stand-in for content.

use vstd::prelude::*;

verus! {

/// What the reader reports next to an answer that it could not compute.
#[derive(Debug, Clone, Copy, PartialEq, Eq, Structural)]
pub enum ReaderDiagnostic {
    /// Fetching is not implemented; the bytes are the placeholder.
    FetchUnimplemented,
    /// Directories are not supported; the answer is a stand-in.
    DirectoriesUnsupported,
}

impl ReaderDiagnostic {
    /// The diagnostic in words.
    pub open spec fn spec_message(self) -> Seq<char> {
        match self {
            ReaderDiagnostic::FetchUnimplemented =>
                "Fetching assets is not implemented in the WasiAssetReader"@,
            ReaderDiagnostic::DirectoriesUnsupported =>
                "Reading directories is not supported with the WasiAssetReader"@,
        }
    }

    /// The diagnostic in words, for the log.
    pub fn message(&self) -> (text: &'static str)
        ensures
            text@ == self.spec_message(),
    {
        match self {
            ReaderDiagnostic::FetchUnimplemented =>
                "Fetching assets is not implemented in the WasiAssetReader",
            ReaderDiagnostic::DirectoriesUnsupported =>
                "Reading directories is not supported with the WasiAssetReader",
        }
    }
}

/// The answer to a read: the bytes, and why they are not the asset's.
#[derive(Debug, Clone, PartialEq, Eq)]
pub struct AssetBytes {
    pub bytes: Vec<u8>,
    pub diagnostic: ReaderDiagnostic,
}

/// The answer to a directory listing: no paths, and why.
#[derive(Debug, Clone, PartialEq, Eq)]
pub struct DirectoryListing {
    pub paths: Vec<String>,
    pub diagnostic: ReaderDiagnostic,
}

/// The answer to a directory test: never a directory, and why.
#[derive(Debug, Clone, Copy, PartialEq, Eq, Structural)]
pub struct DirectoryTest {
    pub is_directory: bool,
    pub diagnostic: ReaderDiagnostic,
}

/// The bytes that every read returns.
pub open spec fn placeholder_bytes() -> Seq<u8> {
    seq![255u8, 0u8, 0u8, 0u8, 255u8, 0u8, 0u8, 0u8, 255u8, 0u8, 0u8, 0u8]
}

/// Reader for assets on a WASI host.
#[derive(Debug, Clone, Copy, PartialEq, Eq, Structural)]
pub struct WasiAssetReader {}

impl WasiAssetReader {
    /// A reader.
    pub fn new() -> (reader: Self)
        ensures
            reader == (WasiAssetReader {}),
    {
        WasiAssetReader {}
    }

    /// Reads the asset at `path`: the placeholder bytes, whatever the path,
    /// with the diagnostic that nothing was fetched.
    pub fn read(&self, path: &str) -> (answer: AssetBytes)
        ensures
            answer.bytes@ == placeholder_bytes(),
            answer.diagnostic == ReaderDiagnostic::FetchUnimplemented,
    {
        AssetBytes { bytes: placeholder(), diagnostic: ReaderDiagnostic::FetchUnimplemented }
    }

    /// Reads the meta file of the asset at `path`: the placeholder bytes,
    /// whatever the path, with the diagnostic that nothing was fetched.
    pub fn read_meta(&self, path: &str) -> (answer: AssetBytes)
        ensures
            answer.bytes@ == placeholder_bytes(),
            answer.diagnostic == ReaderDiagnostic::FetchUnimplemented,
    {
        AssetBytes { bytes: placeholder(), diagnostic: ReaderDiagnostic::FetchUnimplemented }
    }

    /// Lists the directory at `path`: an empty listing, with the diagnostic
    /// that directories are not supported.
    pub fn read_directory(&self, path: &str) -> (listing: DirectoryListing)
        ensures
            listing.paths@.len() == 0,
            listing.diagnostic == ReaderDiagnostic::DirectoriesUnsupported,
    {
        DirectoryListing { paths: Vec::new(), diagnostic: ReaderDiagnostic::DirectoriesUnsupported }
    }

    /// Tests whether `path` is a directory: never, with the diagnostic
    /// that directories are not supported.
    pub fn is_directory(&self, path: &str) -> (test: DirectoryTest)
        ensures
            test == (DirectoryTest {
                is_directory: false,
                diagnostic: ReaderDiagnostic::DirectoriesUnsupported,
            }),
    {
        DirectoryTest { is_directory: false, diagnostic: ReaderDiagnostic::DirectoriesUnsupported }
    }
}

fn placeholder() -> (bytes: Vec<u8>)
    ensures
        bytes@ == placeholder_bytes(),
{
    let mut bytes: Vec<u8> = Vec::new();
    let mut i: usize = 0;
    while i < 3
        invariant
            i <= 3,
            bytes@ == placeholder_bytes().take(4 * i),
        decreases 3 - i,
    {
        bytes.push(255);
        bytes.push(0);
        bytes.push(0);
        bytes.push(0);
        i += 1;
    }
    bytes
}

} // verus!
