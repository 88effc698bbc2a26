//! Response-side types: the error taxonomy, the pairing of raw body bytes
//! with a decoded value, and the page envelope of a search response.

use vstd::prelude::*;

verus! {

/// Why a request failed. Every error is a value; nothing here retries or
/// aborts the process.
#[derive(Clone, Debug, PartialEq, Eq)]
pub enum Error {
    /// Connection or network-layer failure, with the transport's own words.
    Transport(String),
    /// The server answered with a status other than 200; the raw body is
    /// kept so a caller can inspect a server-provided error payload.
    StatusNotOk { status: u16, url: String, bytes: Vec<u8> },
    /// The body did not fit the expected shape; `path` names the exact field
    /// that failed, and the raw bytes are kept.
    Deserialize { path: String, url: String, bytes: Vec<u8>, message: String },
    /// The caller supplied invalid arguments; rejected before any request.
    Input(String),
}

/// A response's raw body bytes paired with the value decoded from them, so
/// callers can re-inspect the payload without a second request.
#[derive(Clone, Debug, PartialEq, Eq)]
pub struct ApiResponse<T> {
    pub bytes: Vec<u8>,
    pub value: T,
}

impl<T> ApiResponse<T> {
    /// Pairs body bytes with the value decoded from them.
    pub fn new(bytes: Vec<u8>, value: T) -> (r: Self)
        ensures
            r.bytes == bytes,
            r.value == value,
    {
        ApiResponse { bytes, value }
    }

    /// Get an immutable borrow of the response's body bytes.
    pub fn get_bytes(&self) -> (r: &Vec<u8>)
        ensures
            *r == self.bytes,
    {
        &self.bytes
    }

    /// Get a mutable borrow of the response's body bytes.
    pub fn get_bytes_mut(&mut self) -> (r: &mut Vec<u8>)
        ensures
            *r == old(self).bytes,
            final(self).bytes == *final(r),
            final(self).value == old(self).value,
    {
        &mut self.bytes
    }

    /// Get an immutable borrow of the decoded value.
    pub fn get_value(&self) -> (r: &T)
        ensures
            *r == self.value,
    {
        &self.value
    }

    /// Get a mutable borrow of the decoded value.
    pub fn get_value_mut(&mut self) -> (r: &mut T)
        ensures
            *r == old(self).value,
            final(self).value == *final(r),
            final(self).bytes == old(self).bytes,
    {
        &mut self.value
    }

    /// Take out the body bytes, discarding the decoded value.
    pub fn into_bytes(self) -> (r: Vec<u8>)
        ensures
            r == self.bytes,
    {
        self.bytes
    }

    /// Take out the decoded value, discarding the bytes.
    pub fn into_value(self) -> (r: T)
        ensures
            r == self.value,
    {
        self.value
    }

    /// Take out both the bytes and the decoded value.
    pub fn into_bytes_value(self) -> (r: (Vec<u8>, T))
        ensures
            r.0 == self.bytes,
            r.1 == self.value,
    {
        (self.bytes, self.value)
    }
}

/// One page of a search response: the hits of this page, the offset it was
/// fetched at, the limit that was requested, and the server-reported total
/// number of matching items across all pages.
#[derive(Clone, Debug, PartialEq, Eq)]
pub struct PaginatedResponse<T> {
    pub hits: Vec<T>,
    pub offset: usize,
    pub limit: usize,
    pub total_hits: usize,
}

} // verus!
