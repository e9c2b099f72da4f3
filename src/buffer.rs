use vstd::prelude::*;

use loki_api::logproto::{EntryAdapter, PushRequest, StreamAdapter};
use loki_api::prost::Message;

use crate::error::{Error, ErrorKind};

verus! {

/// A point in time: seconds since the Unix epoch and a sub-second part.
#[derive(Clone, Copy, Debug, PartialEq, Eq, Structural)]
pub struct Timestamp {
    pub seconds: i64,
    pub nanos: i32,
}

/// One timestamped log line.
#[derive(Clone, Debug)]
pub struct Entry {
    pub timestamp: Option<Timestamp>,
    pub line: String,
}

/// A label selector such as `{job="a"}` with its entries, in order.
#[derive(Clone, Debug)]
pub struct Stream {
    pub labels: String,
    pub entries: Vec<Entry>,
}

pub ghost struct EntryModel {
    pub timestamp: Option<Timestamp>,
    pub line: Seq<char>,
}

pub ghost struct StreamModel {
    pub labels: Seq<char>,
    pub entries: Seq<EntryModel>,
}

impl View for Entry {
    type V = EntryModel;

    open spec fn view(&self) -> EntryModel {
        EntryModel { timestamp: self.timestamp, line: self.line@ }
    }
}

impl View for Stream {
    type V = StreamModel;

    open spec fn view(&self) -> StreamModel {
        StreamModel { labels: self.labels@, entries: self.entries@.map_values(|e: Entry| e@) }
    }
}

pub open spec fn streams_model(streams: Seq<Stream>) -> Seq<StreamModel> {
    streams.map_values(|s: Stream| s@)
}

/// The streams that the protobuf decoding of a push request's bytes yields.
pub uninterp spec fn push_request_decoded(bytes: Seq<u8>) -> Option<Seq<StreamModel>>;

/// The protobuf encoding of a push request holding the streams.
pub uninterp spec fn push_request_encoding(streams: Seq<StreamModel>) -> Seq<u8>;

/// The bytes that decompressing a snappy block yields.
pub uninterp spec fn snappy_decompressed(block: Seq<u8>) -> Option<Seq<u8>>;

/// The snappy block that compressing the bytes yields.
pub uninterp spec fn snappy_block(bytes: Seq<u8>) -> Seq<u8>;

/// The largest input a snappy block can hold.
pub const SNAPPY_MAX_INPUT: u64 = 4294967295;

pub open spec fn snappy_max_compress_len(n: int) -> int {
    if n > SNAPPY_MAX_INPUT || 32 + n + n / 6 > SNAPPY_MAX_INPUT {
        0
    } else {
        32 + n + n / 6
    }
}

/// Relies on prost's `Message::encode_to_vec` for loki_api's `PushRequest`:
/// encoding into a `Vec` cannot fail, the bytes depend on the message alone,
/// and decoding them gives the streams back (the unused `hash` field is left
/// at zero).
#[verifier::external_body]
fn encode_push_request(streams: &Vec<Stream>) -> (r: Vec<u8>)
    ensures
        r@ == push_request_encoding(streams_model(streams@)),
        push_request_decoded(r@) == Some(streams_model(streams@)),
{
    let streams = streams.iter().map(|s| StreamAdapter {
        labels: s.labels.clone(),
        entries: s.entries.iter().map(|e| EntryAdapter {
            timestamp: e.timestamp.map(|t| loki_api::prost_types::Timestamp {
                seconds: t.seconds,
                nanos: t.nanos,
            }),
            line: e.line.clone(),
        }).collect(),
        hash: 0,
    }).collect();
    PushRequest { streams }.encode_to_vec()
}

/// Relies on prost's `Message::decode` for loki_api's `PushRequest`; the
/// `hash` field of each stream is not kept.
#[verifier::external_body]
fn decode_push_request(bytes: &[u8]) -> (r: Option<Vec<Stream>>)
    ensures
        r is Some <==> push_request_decoded(bytes@) is Some,
        r is Some ==> streams_model(r->0@) == push_request_decoded(bytes@)->0,
{
    PushRequest::decode(bytes).ok().map(|p| p.streams.into_iter().map(|s| Stream {
        labels: s.labels,
        entries: s.entries.into_iter().map(|e| Entry {
            timestamp: e.timestamp.map(|t| Timestamp { seconds: t.seconds, nanos: t.nanos }),
            line: e.line,
        }).collect(),
    }).collect())
}

/// The bound on the size of a snappy block compressed from `n` bytes, or
/// zero where `n` bytes are too many for a block, as snap computes it in
/// `snap::raw::max_compress_len`.
fn max_compress_len(n: usize) -> (r: usize)
    ensures
        r == snappy_max_compress_len(n as int),
{
    let n = n as u64;
    if n > SNAPPY_MAX_INPUT {
        return 0;
    }
    let max: u64 = 32 + n + n / 6;
    if max > SNAPPY_MAX_INPUT {
        0
    } else {
        max as usize
    }
}

/// Relies on `snap::raw::Encoder::compress`: it fails exactly when the input
/// is too large for a block or the output is shorter than
/// `max_compress_len`; otherwise it writes at the start of the output a
/// block that depends on the input alone and decompresses to it, and returns
/// the block's length.
#[verifier::external_body]
fn snappy_compress(input: &[u8], output: &mut Vec<u8>) -> (r: Option<usize>)
    ensures
        final(output)@.len() == old(output)@.len(),
        r is Some <==> (snappy_max_compress_len(input@.len() as int) != 0
            && old(output)@.len() >= snappy_max_compress_len(input@.len() as int)),
        r is Some ==> r->0 <= final(output)@.len(),
        r is Some ==> final(output)@.take(r->0 as int) == snappy_block(input@),
        r is Some ==> snappy_decompressed(final(output)@.take(r->0 as int)) == Some(input@),
{
    snap::raw::Encoder::new().compress(input, output.as_mut_slice()).ok()
}

/// Relies on `snap::raw::Decoder::decompress_vec`: it decompresses a snappy
/// block.
#[verifier::external_body]
fn snappy_decompress(block: &[u8]) -> (r: Option<Vec<u8>>)
    ensures
        r is Some <==> snappy_decompressed(block@) is Some,
        r is Some ==> r->0@ == snappy_decompressed(block@)->0,
{
    snap::raw::Decoder::new().decompress_vec(block).ok()
}

/// Scratch storage that encodes push requests and compresses them into
/// snappy blocks. It is reused from one request to the next.
#[derive(Clone)]
pub struct Buffer {
    encoded: Vec<u8>,
    snappy: Vec<u8>,
}

impl Buffer {
    /// The encoded form of the last request.
    pub closed spec fn encoded_bytes(&self) -> Seq<u8> {
        self.encoded@
    }

    /// The scratch space the last block was compressed into.
    pub closed spec fn scratch_bytes(&self) -> Seq<u8> {
        self.snappy@
    }

    pub fn new() -> (r: Self)
        ensures
            r.encoded_bytes().len() == 0,
            r.scratch_bytes().len() == 0,
    {
        Buffer { encoded: Vec::new(), snappy: Vec::new() }
    }

    /// Encodes the streams as a push request and compresses the encoding
    /// into one snappy block, which is returned as an owned copy. This fails
    /// only where the encoding is too large for a snappy block.
    pub fn encode(&mut self, streams: &Vec<Stream>) -> (r: Result<Vec<u8>, Error>)
        ensures
            final(self).encoded_bytes() == push_request_encoding(streams_model(streams@)),
            push_request_decoded(final(self).encoded_bytes()) == Some(streams_model(streams@)),
            r is Err <==> snappy_max_compress_len(final(self).encoded_bytes().len() as int) == 0,
            r is Err ==> r->Err_0.kind == ErrorKind::Parse,
            r is Ok ==> r->Ok_0@ == snappy_block(final(self).encoded_bytes()),
            r is Ok ==> r->Ok_0@.len() <= snappy_max_compress_len(
                final(self).encoded_bytes().len() as int,
            ),
            r is Ok ==> snappy_decompressed(r->Ok_0@) == Some(final(self).encoded_bytes()),
            r is Ok ==> push_request_decoded(snappy_decompressed(r->Ok_0@)->0) == Some(
                streams_model(streams@),
            ),
    {
        self.encoded = encode_push_request(streams);
        match self.compress_encoded() {
            Some(block) => Ok(block),
            None => Err(
                Error::of_kind(
                    ErrorKind::Parse,
                    String::from_str("encoded request is too large for a snappy block"),
                ),
            ),
        }
    }

    fn compress_encoded(&mut self) -> (r: Option<Vec<u8>>)
        ensures
            final(self).encoded@ == old(self).encoded@,
            r is None <==> snappy_max_compress_len(final(self).encoded@.len() as int) == 0,
            r is Some ==> r->0@ == snappy_block(final(self).encoded@),
            r is Some ==> r->0@.len() <= snappy_max_compress_len(final(self).encoded@.len() as int),
            r is Some ==> snappy_decompressed(r->0@) == Some(final(self).encoded@),
    {
        let max_len = max_compress_len(self.encoded.len());
        self.snappy.resize(max_len, 0u8);
        let n = match snappy_compress(self.encoded.as_slice(), &mut self.snappy) {
            Some(n) => n,
            None => {
                return None;
            },
        };
        let mut block: Vec<u8> = Vec::new();
        let mut i: usize = 0;
        while i < n
            invariant
                n <= self.snappy@.len(),
                self.snappy@.len() == max_len,
                i <= n,
                block@ == self.snappy@.take(i as int),
            decreases n - i,
        {
            block.push(self.snappy[i]);
            i = i + 1;
            assert(block@ =~= self.snappy@.take(i as int));
        }
        assert(block@ =~= self.snappy@.take(n as int));
        Some(block)
    }
}

/// Decompresses a push body and decodes the push request it holds.
pub fn decode_push_body(body: &[u8]) -> (r: Result<Vec<Stream>, Error>)
    ensures
        r is Ok <==> (snappy_decompressed(body@) is Some && push_request_decoded(
            snappy_decompressed(body@)->0,
        ) is Some),
        r is Ok ==> streams_model(r->Ok_0@) == push_request_decoded(
            snappy_decompressed(body@)->0,
        )->0,
        r is Err ==> r->Err_0.kind == ErrorKind::Parse,
{
    let bytes = match snappy_decompress(body) {
        Some(b) => b,
        None => {
            return Err(
                Error::of_kind(ErrorKind::Parse, String::from_str("body is not a snappy block")),
            );
        },
    };
    match decode_push_request(bytes.as_slice()) {
        Some(streams) => Ok(streams),
        None => Err(
            Error::of_kind(ErrorKind::Parse, String::from_str("body is not a push request")),
        ),
    }
}

} // verus!
