//! The messages that a session exchanges with its client in compact form,
//! and what the library decides about them: batching, the comparison of
//! encoded sizes, compression. Encoding itself is done at the boundary.

use crate::fixed::{clamp, narrow, quot, quot_i128, Fixed};
use crate::text::{decimal, fixed_text, format_fixed, u64_text};
use flate2::read::GzDecoder;
use flate2::write::GzEncoder;
use flate2::Compression;
use std::io::Read;
use std::io::Write;
use vstd::prelude::*;

verus! {

#[derive(Debug, Clone)]
pub enum BinaryMessage {
    /// The client asks for a test.
    StartTest { config: TestConfig },
    /// The server reports progress.
    Progress {
        stage: TestStage,
        progress_pct: u8,
        current_speed_mbps: Fixed,
        current_latency_ms: Fixed,
    },
    /// The server reports one latency sample.
    LatencyMeasurement { stage: LatencyStage, latency_ms: Fixed, timestamp_ms: u64 },
    /// The server sends the results.
    Results { test_id: String, results: CompactTestResult },
    Ping { timestamp: u64 },
    Pong { timestamp: u64 },
    Error { code: ErrorCode, message: String },
}

#[derive(Debug, Clone, Copy, PartialEq, Eq, Structural)]
pub enum TestStage {
    Initializing,
    IdleLatency,
    Download,
    Upload,
    Finalizing,
    Complete,
}

#[derive(Debug, Clone, Copy, PartialEq, Eq, Structural)]
pub enum LatencyStage {
    Idle,
    DownloadLoaded,
    UploadLoaded,
}

#[derive(Debug, Clone, Copy, PartialEq, Eq, Structural)]
pub struct TestConfig {
    pub duration_ms: u32,
    pub chunk_size_kb: u16,
    pub parallel_streams: u8,
    pub measure_latency: bool,
    pub measure_jitter: bool,
}

impl Default for TestConfig {
    fn default() -> (c: TestConfig)
        ensures
            c == (TestConfig {
                duration_ms: 10000,
                chunk_size_kb: 256,
                parallel_streams: 4,
                measure_latency: true,
                measure_jitter: true,
            }),
    {
        TestConfig {
            duration_ms: 10000,
            chunk_size_kb: 256,
            parallel_streams: 4,
            measure_latency: true,
            measure_jitter: true,
        }
    }
}

/// The results of a session in the form that is sent to the client.
#[derive(Debug, Clone, Copy, PartialEq, Eq, Structural)]
pub struct CompactTestResult {
    pub dl_mbps: Fixed,
    pub ul_mbps: Fixed,
    pub idle_lat: Fixed,
    pub dl_lat: Fixed,
    pub ul_lat: Fixed,
    pub jitter: Fixed,
    /// 0 for A+, 1 for A, 2 for B, 3 for C, 4 for D, 5 for F.
    pub bb_grade: u8,
    /// Latency increase during download, in tenths of a percent.
    pub bb_dl_pct: u16,
    /// Latency increase during upload, in tenths of a percent.
    pub bb_ul_pct: u16,
    pub idle_rpm: u16,
    pub dl_rpm: u16,
    pub ul_rpm: u16,
    pub gaming_score: u8,
    pub streaming_score: u8,
    pub video_score: u8,
    pub browsing_score: u8,
    pub overall_score: u8,
    pub duration_ms: u32,
    pub timestamp: u64,
}

#[derive(Debug, Clone, Copy, PartialEq, Eq, Structural)]
pub enum ErrorCode {
    InvalidConfig,
    ServerOverloaded,
    NetworkError,
    Timeout,
    InternalError,
}

/// The encoder and decoder of messages.
pub struct BinaryProtocol;

/// Messages gathered to be sent as one.
pub struct MessageBatch {
    messages: Vec<BinaryMessage>,
    max_size: usize,
}

impl MessageBatch {
    /// The messages gathered, in the order they were added.
    pub closed spec fn messages(&self) -> Seq<BinaryMessage> {
        self.messages@
    }

    /// How many messages the batch takes.
    pub closed spec fn max_size(&self) -> usize {
        self.max_size
    }

    pub fn new(max_size: usize) -> (b: MessageBatch)
        ensures
            b.messages() == Seq::<BinaryMessage>::empty(),
            b.max_size() == max_size,
    {
        MessageBatch { messages: Vec::new(), max_size }
    }

    /// Adds `message` unless the batch is full; says whether it was added.
    pub fn add(&mut self, message: BinaryMessage) -> (added: bool)
        ensures
            final(self).max_size() == old(self).max_size(),
            added == (old(self).messages().len() < old(self).max_size()),
            added ==> final(self).messages() == old(self).messages().push(message),
            !added ==> final(self).messages() == old(self).messages(),
    {
        if self.messages.len() >= self.max_size {
            return false;
        }
        self.messages.push(message);
        true
    }

    /// Whether the batch is full.
    pub fn is_ready(&self) -> (r: bool)
        ensures
            r == (self.messages().len() >= self.max_size()),
    {
        self.messages.len() >= self.max_size
    }

    /// The messages gathered, in the order they were added.
    pub fn pending(&self) -> (messages: &Vec<BinaryMessage>)
        ensures
            messages@ == self.messages(),
    {
        &self.messages
    }

    /// How many messages the batch holds.
    pub fn len(&self) -> (n: usize)
        ensures
            n == self.messages().len(),
    {
        self.messages.len()
    }

    /// Hands out the messages and leaves the batch empty.
    pub fn take(&mut self) -> (taken: Vec<BinaryMessage>)
        ensures
            taken@ == old(self).messages(),
            final(self).messages() == Seq::<BinaryMessage>::empty(),
            final(self).max_size() == old(self).max_size(),
    {
        let mut taken: Vec<BinaryMessage> = Vec::new();
        std::mem::swap(&mut self.messages, &mut taken);
        taken
    }
}

#[derive(Debug, Clone)]
pub enum ProtocolError {
    EncodingError(String),
    DecodingError(String),
    InvalidMessage(String),
}

impl ProtocolError {
    pub open spec fn text(self) -> Seq<char> {
        match self {
            ProtocolError::EncodingError(e) => "Encoding error: "@ + e@,
            ProtocolError::DecodingError(e) => "Decoding error: "@ + e@,
            ProtocolError::InvalidMessage(e) => "Invalid message: "@ + e@,
        }
    }

    /// The error in words.
    pub fn message(&self) -> (s: String)
        ensures
            s@ == self.text(),
    {
        match self {
            ProtocolError::EncodingError(e) => {
                let mut s = String::from_str("Encoding error: ");
                s.append(e.as_str());
                s
            },
            ProtocolError::DecodingError(e) => {
                let mut s = String::from_str("Decoding error: ");
                s.append(e.as_str());
                s
            },
            ProtocolError::InvalidMessage(e) => {
                let mut s = String::from_str("Invalid message: ");
                s.append(e.as_str());
                s
            },
        }
    }
}

/// How much smaller than `json` bytes `other` bytes are, in millionths of a
/// percent of `json`; zero where `json` is zero. Negative where `other` is
/// the larger.
pub open spec fn savings_pct(json: int, other: int) -> int {
    if json > 0 {
        clamp(quot((json - other) * 100_000_000, json))
    } else {
        0
    }
}

/// Compares the sizes of one message in three encodings.
pub struct ProtocolComparison;

#[derive(Debug, Clone, Copy, PartialEq, Eq, Structural)]
pub struct SizeComparison {
    pub json_bytes: usize,
    pub msgpack_bytes: usize,
    pub bincode_bytes: usize,
    pub msgpack_savings_pct: Fixed,
    pub bincode_savings_pct: Fixed,
}

impl ProtocolComparison {
    /// The comparison of the sizes that one message has as JSON, as
    /// MessagePack and as Bincode.
    pub fn compare_sizes(json_size: usize, msgpack_size: usize, bincode_size: usize) -> (c:
        SizeComparison)
        ensures
            c.json_bytes == json_size,
            c.msgpack_bytes == msgpack_size,
            c.bincode_bytes == bincode_size,
            c.msgpack_savings_pct@ == savings_pct(json_size as int, msgpack_size as int),
            c.bincode_savings_pct@ == savings_pct(json_size as int, bincode_size as int),
    {
        SizeComparison {
            json_bytes: json_size,
            msgpack_bytes: msgpack_size,
            bincode_bytes: bincode_size,
            msgpack_savings_pct: savings(json_size, msgpack_size),
            bincode_savings_pct: savings(json_size, bincode_size),
        }
    }
}

fn savings(json: usize, other: usize) -> (r: Fixed)
    ensures
        r@ == savings_pct(json as int, other as int),
{
    if json == 0 {
        return Fixed::zero();
    }
    let gap: i128 = json as i128 - other as i128;
    let wide: i128 = quot_i128(gap * 100_000_000, json as i128);
    Fixed { micros: narrow(wide) }
}

/// `count` spaces.
pub open spec fn spaces(count: nat) -> Seq<char> {
    Seq::new(count, |i: int| ' ')
}

/// `text` moved to the right end of a field of `width` characters; `text`
/// itself where it is at least as long.
pub open spec fn right_aligned(text: Seq<char>, width: nat) -> Seq<char> {
    if text.len() >= width {
        text
    } else {
        spaces((width - text.len()) as nat) + text
    }
}

impl SizeComparison {
    /// Whether Bincode gave the smaller encoding.
    pub open spec fn bincode_wins(self) -> bool {
        self.bincode_bytes < self.msgpack_bytes
    }

    /// The text of the display.
    pub open spec fn display_text(self) -> Seq<char> {
        "Size Comparison:\n"@ + "━━━━━━━━━━━━━━━━━━━━━━━━━━━━━━━━━━\n"@ + "JSON:       "@ + right_aligned(
            decimal(self.json_bytes as nat),
            6,
        ) + " bytes (baseline)\n"@ + "MessagePack: "@ + right_aligned(
            decimal(self.msgpack_bytes as nat),
            6,
        ) + " bytes ("@ + fixed_text(self.msgpack_savings_pct@, 1) + "% smaller)\n"@
            + "Bincode:     "@ + right_aligned(decimal(self.bincode_bytes as nat), 6)
            + " bytes ("@ + fixed_text(self.bincode_savings_pct@, 1) + "% smaller)\n"@
            + "━━━━━━━━━━━━━━━━━━━━━━━━━━━━━━━━━━\n"@ + "Best: "@ + (if self.bincode_wins() {
            "Bincode"@
        } else {
            "MessagePack"@
        }) + " ("@ + fixed_text(
            if self.bincode_wins() {
                self.bincode_savings_pct@
            } else {
                self.msgpack_savings_pct@
            },
            1,
        ) + "% savings)"@
    }

    /// The comparison laid out for reading.
    pub fn display(&self) -> (s: String)
        ensures
            s@ == self.display_text(),
    {
        let bincode_wins = self.bincode_bytes < self.msgpack_bytes;
        let mut s = String::from_str("Size Comparison:\n");
        s.append("━━━━━━━━━━━━━━━━━━━━━━━━━━━━━━━━━━\n");
        s.append("JSON:       ");
        s.append(aligned_count(self.json_bytes).as_str());
        s.append(" bytes (baseline)\n");
        s.append("MessagePack: ");
        s.append(aligned_count(self.msgpack_bytes).as_str());
        s.append(" bytes (");
        s.append(format_fixed(self.msgpack_savings_pct, 1).as_str());
        s.append("% smaller)\n");
        s.append("Bincode:     ");
        s.append(aligned_count(self.bincode_bytes).as_str());
        s.append(" bytes (");
        s.append(format_fixed(self.bincode_savings_pct, 1).as_str());
        s.append("% smaller)\n");
        s.append("━━━━━━━━━━━━━━━━━━━━━━━━━━━━━━━━━━\n");
        s.append("Best: ");
        s.append(
            if bincode_wins {
                "Bincode"
            } else {
                "MessagePack"
            },
        );
        s.append(" (");
        s.append(
            format_fixed(
                if bincode_wins {
                    self.bincode_savings_pct
                } else {
                    self.msgpack_savings_pct
                },
                1,
            ).as_str(),
        );
        s.append("% savings)");
        s
    }
}

/// The decimal text of `count` at the right end of a field of six
/// characters.
fn aligned_count(count: usize) -> (s: String)
    ensures
        s@ == right_aligned(decimal(count as nat), 6),
{
    let digits = u64_text(count as u64);
    let len: usize = digits.as_str().unicode_len();
    let mut s = String::new();
    let mut i: usize = len;
    proof {
        reveal_strlit(" ");
    }
    while i < 6
        invariant
            len == digits@.len(),
            len <= i,
            len < 6 ==> i <= 6,
            len >= 6 ==> i == len,
            s@ == spaces((i - len) as nat),
            " "@ == seq![' '],
        decreases 6 - i,
    {
        s.append(" ");
        assert(s@ =~= spaces((i + 1 - len) as nat));
        i = i + 1;
    }
    let ghost pad = s@;
    s.append(digits.as_str());
    proof {
        assert(digits@ == decimal(count as nat));
        if len >= 6 {
            assert(i == len);
            assert(pad =~= Seq::<char>::empty());
            assert(s@ =~= digits@);
        } else {
            assert(i == 6);
            assert(pad == spaces((6 - len) as nat));
        }
    }
    s
}

/// What gzip at its fastest level makes of `data`, or nothing where the
/// encoder reports an error.
pub uninterp spec fn gzip_of(data: Seq<u8>) -> Option<Seq<u8>>;

/// The data that the gzip stream `data` holds, or nothing where `data` is no
/// sound gzip stream.
pub uninterp spec fn gunzip_of(data: Seq<u8>) -> Option<Seq<u8>>;

/// The I/O error of the standard library, `std::io::Error`. It is carried
/// from the two calls below to where its words are taken; nothing is known
/// of what it holds.
#[verifier::external_type_specification]
#[verifier::external_body]
pub struct ExIoError(std::io::Error);

/// Compresses `data`. Makes a `flate2::write::GzEncoder` over an empty
/// vector at `Compression::fast()`, writes all of `data` to it and calls its
/// `finish`. The stream depends on `data` alone: the header carries no time
/// and no operating system. The result is named, not spelled out.
#[verifier::external_body]
fn gzip(data: &[u8]) -> (r: Result<Vec<u8>, std::io::Error>)
    ensures
        match r {
            Ok(bytes) => gzip_of(data@) == Some(bytes@),
            Err(_) => gzip_of(data@) is None,
        },
{
    let mut encoder = GzEncoder::new(Vec::new(), Compression::fast());
    encoder.write_all(data)?;
    encoder.finish()
}

/// Decompresses `data`. Makes a `flate2::read::GzDecoder` over `data` and
/// reads it to the end into an empty vector. The result is named, not
/// spelled out.
#[verifier::external_body]
fn gunzip(data: &[u8]) -> (r: Result<Vec<u8>, std::io::Error>)
    ensures
        match r {
            Ok(bytes) => gunzip_of(data@) == Some(bytes@),
            Err(_) => gunzip_of(data@) is None,
        },
{
    let mut decoder = GzDecoder::new(data);
    let mut decompressed = Vec::new();
    decoder.read_to_end(&mut decompressed)?;
    Ok(decompressed)
}

/// The words of an I/O error. Calls `to_string` on it; nothing is claimed of
/// the words.
#[verifier::external_body]
fn io_error_text(error: &std::io::Error) -> String {
    error.to_string()
}

/// Compression of large batches.
pub struct MessageCompression;

impl MessageCompression {
    /// `data` as a gzip stream.
    pub fn compress(data: &[u8]) -> (r: Result<Vec<u8>, ProtocolError>)
        ensures
            match r {
                Ok(bytes) => gzip_of(data@) == Some(bytes@),
                Err(e) => gzip_of(data@) is None && e is EncodingError,
            },
    {
        match gzip(data) {
            Ok(bytes) => Ok(bytes),
            Err(e) => Err(ProtocolError::EncodingError(io_error_text(&e))),
        }
    }

    /// The data that the gzip stream `data` holds.
    pub fn decompress(data: &[u8]) -> (r: Result<Vec<u8>, ProtocolError>)
        ensures
            match r {
                Ok(bytes) => gunzip_of(data@) == Some(bytes@),
                Err(e) => gunzip_of(data@) is None && e is DecodingError,
            },
    {
        match gunzip(data) {
            Ok(bytes) => Ok(bytes),
            Err(e) => Err(ProtocolError::DecodingError(io_error_text(&e))),
        }
    }
}

} // verus!
