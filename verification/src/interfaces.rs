//! Error taxonomy and the capability traits of the loader's collaborators.
//!
//! Every multi-step operation is a request paired with a completion: the
//! loader calls the request method of a collaborator and returns at once; the
//! collaborator later calls the matching completion method of the loader.
//!
//! Buffers are values of a type `B` chosen by the integrator. The loader never
//! looks inside a buffer, never copies one and cannot make one: it can only
//! move a buffer it was given on to the next owner.

use vstd::prelude::*;

verus! {

/// Errors reported by the loader. Each of them ends the current session.
#[derive(Clone, Copy, PartialEq, Eq, Debug, Structural)]
pub enum DalsError {
    /// `start_loading` was called while a session was active.
    SessionBusy,
    /// The requested image does not fit into the flash region.
    InsufficientSpace,
    /// The chunks delivered do not add up to the declared image size.
    SizeMismatch,
    /// The decompressor reported a failure.
    DecompressionFailed,
    /// The storage refused a write, or did not write the bytes it was asked
    /// to write.
    StorageWriteFailed,
    /// The verifier rejected the image.
    VerificationFailed,
    /// The authorizer rejected the image.
    AuthorizationFailed,
}

/// Implemented by the data source: any capsule which provides the raw app
/// data to load, for example over UART, BLE or IEEE 802.11.
pub trait AppLoaderClient<B> {
    /// Gives a raw chunk buffer back to the data source.
    fn return_buffer(&mut self, data_buffer: B);

    /// Reports that the session was aborted. Called at most once per session.
    fn return_error(&mut self, error: DalsError);

    /// Reports that the image was written, verified and authorized.
    fn loading_done(&mut self);
}

/// Implemented by the loader: the interface offered to the data source.
pub trait AppLoader<B>:
    DecompressorClient<B> + NonvolatileStorageClient<B> + VerifierClient + AuthorizerClient
{
    /// Opens a session for an image of `app_size` bytes.
    fn start_loading(&mut self, app_size: usize) -> Result<(), DalsError>;

    /// Delivers the next raw chunk. A chunk the loader is not ready for is
    /// handed straight back as `Err`.
    fn next_buffer(&mut self, data_buffer: B, length: usize, completed: bool) -> Result<(), B>;
}

/// Implemented by any capsule which decompresses the raw app data buffer by
/// buffer.
pub trait Decompressor<B> {
    /// Requests decompression of the first `length` bytes of `buffer`.
    fn decompress_buffer(&mut self, buffer: B, length: usize);

    /// Gives a buffer of decompressed bytes back to the decompressor.
    fn return_buffer(&mut self, decompressed_buffer: B);
}

/// Implemented by the loader: completion of a decompression request.
pub trait DecompressorClient<B> {
    /// Delivers the decompressed bytes, their length, the raw buffer the
    /// request was made with, and the outcome.
    fn decompression_complete(
        &mut self,
        decompressed_buffer: B,
        decompressed_length: usize,
        original_buffer: B,
        status: Result<(), DalsError>,
    );
}

/// Implemented by the flash driver.
pub trait NonvolatileStorage<B> {
    /// Requests that the first `length` bytes of `buffer` be written at byte
    /// offset `offset`. `Ok` means that the request was taken and that
    /// `write_done` will follow; `Err` means that the request was refused and
    /// that no completion will follow. The buffer is the storage's from the
    /// call on, whatever the answer: a storage that refuses a write keeps the
    /// buffer, and the loader has none to give back.
    fn write(&mut self, buffer: B, offset: usize, length: usize) -> Result<(), DalsError>;
}

/// Implemented by the loader: completion of a write request.
pub trait NonvolatileStorageClient<B> {
    /// Gives the buffer back together with the number of bytes written.
    fn write_done(&mut self, buffer: B, length: usize);
}

/// Implemented by any capsule which provides a software routine to check the
/// integrity of the app data, for example a checksum or a SHA digest.
pub trait Verifier {
    /// Requests verification of the `length` bytes at `base_address`.
    fn verify_data(&mut self, base_address: usize, length: usize);
}

/// Implemented by the loader: completion of a verification request.
pub trait VerifierClient {
    /// `None` if the image passed, the verifier's error otherwise.
    fn verification_complete(&mut self, error: Option<DalsError>);
}

/// Implemented by any capsule which decides, based on some defined policy,
/// whether to run the newly loaded app.
pub trait Authorizer {
    /// Requests a decision on the `length` bytes at `base_address`.
    fn authorize_data(&mut self, base_address: usize, length: usize);
}

/// Implemented by the loader: completion of an authorization request.
pub trait AuthorizerClient {
    /// `Ok` if the image may run, the authorizer's error otherwise.
    fn authorization_complete(&mut self, status: Result<(), DalsError>);
}

} // verus!
