//! Bulk download and upload over plain requests.

use crate::fixed::{clamp, Fixed};
use crate::services::real_measurement::random_chunk;
use crate::text::{decimal, u64_text};
use vstd::prelude::*;

verus! {

/// Megabytes served where the request names no size.
pub const DEFAULT_SIZE_MB: usize = 10;

/// Most megabytes served in one response.
pub const MAX_SIZE_MB: usize = 100;

/// Bytes in a megabyte.
pub const BYTES_PER_MB: usize = 1_048_576;

#[derive(Debug, Clone, Copy, PartialEq, Eq, Structural)]
pub struct DownloadQuery {
    pub size_mb: Option<usize>,
}

/// The response to a download request.
#[derive(Debug, Clone)]
pub struct DownloadResponse {
    pub size_mb: usize,
    pub content_type: String,
    pub content_disposition: String,
    pub cache_control: String,
    pub body: Vec<u8>,
}

/// The receipt for an upload.
#[derive(Debug, Clone, Copy, PartialEq, Eq, Structural)]
pub struct UploadReceipt {
    pub success: bool,
    pub bytes_received: usize,
    pub size_mb: Fixed,
}

/// The megabytes that a request is served: what it asks for, ten where it
/// names no size, and a hundred at most.
pub open spec fn served_mb(query: DownloadQuery) -> int {
    let asked = match query.size_mb {
        Some(n) => n as int,
        None => 10,
    };
    if asked > 100 {
        100
    } else {
        asked
    }
}

/// The megabytes that a request is served.
pub fn served_size_mb(query: &DownloadQuery) -> (size_mb: usize)
    ensures
        size_mb == served_mb(*query),
{
    let asked: usize = match query.size_mb {
        Some(n) => n,
        None => DEFAULT_SIZE_MB,
    };
    if asked > MAX_SIZE_MB {
        MAX_SIZE_MB
    } else {
        asked
    }
}

/// The response to a download request: random bytes of the size served,
/// offered as a file that is not to be cached.
pub fn download_test(query: &DownloadQuery) -> (response: DownloadResponse)
    ensures
        response.size_mb == served_mb(*query),
        response.body@.len() == served_mb(*query) * 1_048_576,
        response.content_type@ == "application/octet-stream"@,
        response.content_disposition@ == "attachment; filename=\"speedtest-"@ + decimal(
            served_mb(*query) as nat,
        ) + ".bin\""@,
        response.cache_control@ == "no-cache, no-store, must-revalidate"@,
{
    let size_mb = served_size_mb(query);
    let body = random_chunk(size_mb * BYTES_PER_MB);
    let mut content_disposition = String::from_str("attachment; filename=\"speedtest-");
    content_disposition.append(u64_text(size_mb as u64).as_str());
    content_disposition.append(".bin\"");
    DownloadResponse {
        size_mb,
        content_type: String::from_str("application/octet-stream"),
        content_disposition,
        cache_control: String::from_str("no-cache, no-store, must-revalidate"),
        body,
    }
}

/// The receipt for an upload of `bytes_received` bytes.
pub fn upload_test(bytes_received: usize) -> (receipt: UploadReceipt)
    ensures
        receipt.success,
        receipt.bytes_received == bytes_received,
        receipt.size_mb@ == clamp(bytes_received * 1_000_000 / 1_048_576),
{
    let scaled: u128 = (bytes_received as u128) * 1_000_000;
    let size: u128 = scaled / 1_048_576;
    let size_mb = if size > 0x7fff_ffff_ffff_ffff {
        Fixed { micros: i64::MAX }
    } else {
        Fixed { micros: size as i64 }
    };
    UploadReceipt { success: true, bytes_received, size_mb }
}

} // verus!
