use vstd::prelude::*;

use crate::buffer::{
    push_request_decoded, push_request_encoding, snappy_block, snappy_decompressed, snappy_max_compress_len, streams_model, Buffer,
    Entry, EntryModel, Stream, StreamModel, Timestamp,
};
use crate::error::{Error, ErrorKind};
use crate::json::{json_of_text, parse_json};
use crate::query::{
    label_list, query_results, result_shape, result_shape_of, results_from_json, results_model,
    strings_model, LokiLabels, QueryAnswer,
};
use crate::time::{local_offset_now, now_seconds};

verus! {

/// The length of the default query window, in seconds: six hours.
pub const DEFAULT_WINDOW_SECONDS: i64 = 21600;

/// The default number of lines a range query asks for.
pub const DEFAULT_LIMIT: i64 = 100;

/// The status of a successful push.
pub const PUSH_OK: u16 = 204;

/// The status of a successful read.
pub const READ_OK: u16 = 200;

#[derive(Clone, Copy, Debug, PartialEq, Eq, Structural)]
pub enum Method {
    Get,
    Post,
}

/// The value of a query parameter.
#[derive(Clone, Debug)]
pub enum ParamValue {
    Int(i64),
    Text(String),
}

pub ghost enum ParamModel {
    Int(i64),
    Text(Seq<char>),
}

impl View for ParamValue {
    type V = ParamModel;

    open spec fn view(&self) -> ParamModel {
        match self {
            ParamValue::Int(i) => ParamModel::Int(*i),
            ParamValue::Text(s) => ParamModel::Text(s@),
        }
    }
}

/// An HTTP request for the backend: what a transport sends.
#[derive(Clone, Debug)]
pub struct Request {
    pub method: Method,
    pub url: String,
    pub params: Vec<(String, ParamValue)>,
    pub content_type: Option<String>,
    pub body: Vec<u8>,
}

pub ghost struct RequestModel {
    pub method: Method,
    pub url: Seq<char>,
    pub params: Seq<(Seq<char>, ParamModel)>,
    pub content_type: Option<Seq<char>>,
    pub body: Seq<u8>,
}

pub open spec fn params_model(p: Seq<(String, ParamValue)>) -> Seq<(Seq<char>, ParamModel)> {
    p.map_values(|x: (String, ParamValue)| (x.0@, x.1@))
}

impl View for Request {
    type V = RequestModel;

    open spec fn view(&self) -> RequestModel {
        RequestModel {
            method: self.method,
            url: self.url@,
            params: params_model(self.params@),
            content_type: match self.content_type {
                Some(c) => Some(c@),
                None => None,
            },
            body: self.body@,
        }
    }
}

/// The start and end of a query window: the given bounds, or else six
/// hours before `now` and `now` (the start stops at `i64::MIN`).
pub open spec fn window(now: i64, start: Option<i64>, end: Option<i64>) -> (i64, i64) {
    (
        match start {
            Some(s) => s,
            None => if now >= i64::MIN + DEFAULT_WINDOW_SECONDS {
                (now - DEFAULT_WINDOW_SECONDS) as i64
            } else {
                i64::MIN
            },
        },
        match end {
            Some(e) => e,
            None => now,
        },
    )
}

pub fn time_window(now: i64, start: Option<i64>, end: Option<i64>) -> (r: (i64, i64))
    ensures
        r == window(now, start, end),
{
    let s = match start {
        Some(s) => s,
        None => if now >= i64::MIN + DEFAULT_WINDOW_SECONDS {
            now - DEFAULT_WINDOW_SECONDS
        } else {
            i64::MIN
        },
    };
    let e = match end {
        Some(e) => e,
        None => now,
    };
    (s, e)
}

pub open spec fn window_params(w: (i64, i64)) -> Seq<(Seq<char>, ParamModel)> {
    seq![("start"@, ParamModel::Int(w.0)), ("end"@, ParamModel::Int(w.1))]
}

pub open spec fn query_range_params(
    w: (i64, i64),
    limit: Option<i64>,
    query: Seq<char>,
) -> Seq<(Seq<char>, ParamModel)> {
    window_params(w) + seq![
        ("limit"@, ParamModel::Int(
            match limit {
                Some(l) => l,
                None => DEFAULT_LIMIT,
            },
        )),
        ("query"@, ParamModel::Text(query)),
    ]
}

pub open spec fn label_values_params(w: (i64, i64), query: Option<Seq<char>>) -> Seq<
    (Seq<char>, ParamModel),
> {
    match query {
        Some(q) => window_params(w).push(("query"@, ParamModel::Text(q))),
        None => window_params(w),
    }
}

/// The single stream that one message makes: the selector, and one entry
/// with the line at the given second.
pub open spec fn message_model(line: Seq<char>, labels: Seq<char>, seconds: i64) -> StreamModel {
    StreamModel {
        labels,
        entries: seq![
            EntryModel { timestamp: Some(Timestamp { seconds, nanos: 0 }), line },
        ],
    }
}

fn text(s: &str) -> (r: String)
    ensures
        r@ == s@,
{
    String::from_str(s)
}

fn get_request(url: String, params: Vec<(String, ParamValue)>) -> (r: Request)
    ensures
        r@ == (RequestModel {
            method: Method::Get,
            url: url@,
            params: params_model(params@),
            content_type: None,
            body: Seq::empty(),
        }),
{
    Request { method: Method::Get, url, params, content_type: None, body: Vec::new() }
}

fn window_param_vec(w: (i64, i64)) -> (r: Vec<(String, ParamValue)>)
    ensures
        params_model(r@) == window_params(w),
{
    proof {
        reveal_strlit("start");
        reveal_strlit("end");
    }
    let r = vec![(text("start"), ParamValue::Int(w.0)), (text("end"), ParamValue::Int(w.1))];
    assert(params_model(r@) =~= window_params(w));
    r
}

/// The message of a status error: a fixed text followed by the answer's
/// text.
pub open spec fn status_message(body: Seq<char>) -> Seq<char> {
    "Error sending data to Loki: "@ + body
}

/// The error of an answer with an unexpected status: its message holds the
/// answer's text, and there is no underlying failure.
fn status_error(body: &str) -> (r: Error)
    ensures
        r.kind == ErrorKind::Status,
        r.message@ == status_message(body@),
        r.source is None,
{
    let mut message = text("Error sending data to Loki: ");
    message.append(body);
    Error { kind: ErrorKind::Status, source: None, message }
}

/// Whether a push answered with `status` succeeded: only 204 does. The
/// answer's text goes into the error's message.
pub fn push_outcome(status: u16, body: String) -> (r: Result<(), Error>)
    ensures
        r is Ok <==> status == PUSH_OK,
        r is Err ==> r->Err_0.kind == ErrorKind::Status,
        r is Err ==> r->Err_0.message@ == status_message(body@) && r->Err_0.source is None,
{
    if status == PUSH_OK {
        Ok(())
    } else {
        Err(status_error(body.as_str()))
    }
}

/// A client of one backend: its base address, and the buffer its pushes
/// are encoded in.
#[derive(Clone)]
pub struct Loki {
    pub address: String,
    pub buffer: Buffer,
}

impl Loki {
    pub fn new(address: String) -> (r: Self)
        ensures
            r.address@ == address@,
            r.buffer.encoded_bytes().len() == 0,
            r.buffer.scratch_bytes().len() == 0,
    {
        Loki { address, buffer: Buffer::new() }
    }

    fn url(&self, path: &str) -> (r: String)
        ensures
            r@ == self.address@ + path@,
    {
        let mut u = self.address.clone();
        u.append(path);
        u
    }

    /// The request that pushes the streams: a POST of their snappy-framed
    /// protobuf encoding. It fails only where the encoding is too large for
    /// a snappy block.
    pub fn push_request(&mut self, streams: &Vec<Stream>) -> (r: Result<Request, Error>)
        ensures
            final(self).address == old(self).address,
            final(self).buffer.encoded_bytes() == push_request_encoding(streams_model(streams@)),
            push_request_decoded(final(self).buffer.encoded_bytes()) == Some(
                streams_model(streams@),
            ),
            r is Ok ==> r->Ok_0.body@ == snappy_block(final(self).buffer.encoded_bytes()),
            r is Ok ==> r->Ok_0.body@.len() <= snappy_max_compress_len(
                final(self).buffer.encoded_bytes().len() as int,
            ),
            r is Err <==> snappy_max_compress_len(final(self).buffer.encoded_bytes().len() as int) == 0,
            r is Err ==> r->Err_0.kind == ErrorKind::Parse,
            r is Ok ==> r->Ok_0.method == Method::Post,
            r is Ok ==> r->Ok_0@.url == old(self).address@ + "/loki/api/v1/push"@,
            r is Ok ==> r->Ok_0@.params.len() == 0,
            r is Ok ==> r->Ok_0@.content_type == Some("application/x-snappy"@),
            r is Ok ==> snappy_decompressed(r->Ok_0.body@) is Some,
            r is Ok ==> push_request_decoded(snappy_decompressed(r->Ok_0.body@)->0) == Some(
                streams_model(streams@),
            ),
    {
        let body = match self.buffer.encode(streams) {
            Ok(b) => b,
            Err(e) => {
                return Err(e);
            },
        };
        let r = Request {
            method: Method::Post,
            url: self.url("/loki/api/v1/push"),
            params: Vec::new(),
            content_type: Some(text("application/x-snappy")),
            body,
        };
        assert(params_model(r.params@) =~= Seq::empty());
        Ok(r)
    }

    /// The stream of one message: the selector, and one entry with the line
    /// at `seconds` and no sub-second part.
    pub fn message_stream(line: String, labels: String, seconds: i64) -> (r: Stream)
        ensures
            r@ == message_model(line@, labels@, seconds),
    {
        let entry = Entry { timestamp: Some(Timestamp { seconds, nanos: 0 }), line };
        let r = Stream { labels, entries: vec![entry] };
        assert(r@.entries =~= message_model(entry.line@, r.labels@, seconds).entries);
        r
    }

    /// The request that pushes one message, at `time` (seconds since the
    /// epoch), or else at the current second.
    pub fn message_request(&mut self, line: String, labels: String, time: Option<i64>) -> (r: Result<Request, Error>)
        ensures
            final(self).address == old(self).address,
            r is Err <==> snappy_max_compress_len(final(self).buffer.encoded_bytes().len() as int) == 0,
            r is Err ==> r->Err_0.kind == ErrorKind::Parse,
            r is Ok ==> r->Ok_0.method == Method::Post,
            r is Ok ==> r->Ok_0@.url == old(self).address@ + "/loki/api/v1/push"@,
            r is Ok ==> r->Ok_0@.params.len() == 0,
            r is Ok ==> r->Ok_0@.content_type == Some("application/x-snappy"@),
            exists|t: i64|
                {
                    &&& (time is Some ==> t == time->0)
                    &&& final(self).buffer.encoded_bytes() == push_request_encoding(
                        seq![message_model(line@, labels@, t)],
                    )
                    &&& push_request_decoded(final(self).buffer.encoded_bytes()) == Some(
                        seq![message_model(line@, labels@, t)],
                    )
                    &&& r is Ok ==> r->Ok_0.body@ == snappy_block(
                        final(self).buffer.encoded_bytes(),
                    )
                    &&& r is Ok ==> push_request_decoded(
                        snappy_decompressed(r->Ok_0.body@)->0,
                    ) == Some(seq![message_model(line@, labels@, t)])
                },
    {
        let seconds = match time {
            Some(t) => t,
            None => now_seconds(),
        };
        let streams = vec![Loki::message_stream(line, labels, seconds)];
        let r = self.push_request(&streams);
        proof {
            assert(streams_model(streams@) =~= seq![message_model(line@, labels@, seconds)]);
        }
        r
    }

    /// The range query request at a given current time `now`: the window
    /// defaults to the six hours before `now`, the limit to 100.
    pub fn query_range_request_at(
        &self,
        now: i64,
        query: &str,
        limit: Option<i64>,
        start: Option<i64>,
        end: Option<i64>,
    ) -> (r: Request)
        ensures
            r@ == (RequestModel {
                method: Method::Get,
                url: self.address@ + "/loki/api/v1/query_range"@,
                params: query_range_params(window(now, start, end), limit, query@),
                content_type: None,
                body: Seq::empty(),
            }),
    {
        proof {
            reveal_strlit("limit");
            reveal_strlit("query");
        }
        let w = time_window(now, start, end);
        let mut params = window_param_vec(w);
        let lim = match limit {
            Some(l) => l,
            None => DEFAULT_LIMIT,
        };
        params.push((text("limit"), ParamValue::Int(lim)));
        params.push((text("query"), ParamValue::Text(text(query))));
        assert(params_model(params@) =~= query_range_params(w, limit, query@));
        get_request(self.url("/loki/api/v1/query_range"), params)
    }

    /// The range query request, with the window taken from the current time
    /// where a bound is not given.
    pub fn query_range_request(
        &self,
        query: &str,
        limit: Option<i64>,
        start: Option<i64>,
        end: Option<i64>,
    ) -> (r: Request)
        ensures
            exists|now: i64|
                r@ == (RequestModel {
                    method: Method::Get,
                    url: self.address@ + "/loki/api/v1/query_range"@,
                    params: query_range_params(window(now, start, end), limit, query@),
                    content_type: None,
                    body: Seq::empty(),
                }),
    {
        let now = now_seconds();
        self.query_range_request_at(now, query, limit, start, end)
    }

    /// The request for all label names at a given current time `now`.
    pub fn labels_request_at(&self, now: i64, start: Option<i64>, end: Option<i64>) -> (r: Request)
        ensures
            r@ == (RequestModel {
                method: Method::Get,
                url: self.address@ + "/loki/api/v1/labels"@,
                params: window_params(window(now, start, end)),
                content_type: None,
                body: Seq::empty(),
            }),
    {
        let w = time_window(now, start, end);
        get_request(self.url("/loki/api/v1/labels"), window_param_vec(w))
    }

    pub fn labels_request(&self, start: Option<i64>, end: Option<i64>) -> (r: Request)
        ensures
            exists|now: i64|
                r@ == (RequestModel {
                    method: Method::Get,
                    url: self.address@ + "/loki/api/v1/labels"@,
                    params: window_params(window(now, start, end)),
                    content_type: None,
                    body: Seq::empty(),
                }),
    {
        let now = now_seconds();
        self.labels_request_at(now, start, end)
    }

    /// The request for the values of one label at a given current time
    /// `now`. The `query` parameter is sent only where a selector is given.
    pub fn label_values_request_at(
        &self,
        now: i64,
        label: &str,
        start: Option<i64>,
        end: Option<i64>,
        query: Option<&str>,
    ) -> (r: Request)
        ensures
            r@ == (RequestModel {
                method: Method::Get,
                url: self.address@ + "/loki/api/v1/label/"@ + label@ + "/values"@,
                params: label_values_params(
                    window(now, start, end),
                    match query {
                        Some(q) => Some(q@),
                        None => None,
                    },
                ),
                content_type: None,
                body: Seq::empty(),
            }),
    {
        proof {
            reveal_strlit("query");
        }
        let w = time_window(now, start, end);
        let mut params = window_param_vec(w);
        match query {
            Some(q) => {
                params.push((text("query"), ParamValue::Text(text(q))));
                assert(params_model(params@) =~= window_params(w).push(("query"@, ParamModel::Text(q@))));
            },
            None => {},
        }
        let mut url = self.url("/loki/api/v1/label/");
        url.append(label);
        url.append("/values");
        get_request(url, params)
    }

    pub fn label_values_request(
        &self,
        label: &str,
        start: Option<i64>,
        end: Option<i64>,
        query: Option<&str>,
    ) -> (r: Request)
        ensures
            exists|now: i64|
                r@ == (RequestModel {
                    method: Method::Get,
                    url: self.address@ + "/loki/api/v1/label/"@ + label@ + "/values"@,
                    params: label_values_params(
                        window(now, start, end),
                        match query {
                            Some(q) => Some(q@),
                            None => None,
                        },
                    ),
                    content_type: None,
                    body: Seq::empty(),
                }),
    {
        let now = now_seconds();
        self.label_values_request_at(now, label, start, end, query)
    }

    /// The request that asks the backend to delete the lines a selector
    /// matches within a window, at a given current time `now`.
    pub fn delete_request_at(
        &self,
        now: i64,
        query: &str,
        start: Option<i64>,
        end: Option<i64>,
    ) -> (r: Request)
        ensures
            r@ == (RequestModel {
                method: Method::Post,
                url: self.address@ + "/loki/api/v1/delete"@,
                params: window_params(window(now, start, end)).push(
                    ("query"@, ParamModel::Text(query@)),
                ),
                content_type: None,
                body: Seq::empty(),
            }),
    {
        proof {
            reveal_strlit("query");
        }
        let w = time_window(now, start, end);
        let mut params = window_param_vec(w);
        params.push((text("query"), ParamValue::Text(text(query))));
        assert(params_model(params@) =~= window_params(w).push(("query"@, ParamModel::Text(query@))));
        Request {
            method: Method::Post,
            url: self.url("/loki/api/v1/delete"),
            params,
            content_type: None,
            body: Vec::new(),
        }
    }

    /// The delete request, with the window taken from the current time
    /// where a bound is not given.
    pub fn delete_request(&self, query: &str, start: Option<i64>, end: Option<i64>) -> (r: Request)
        ensures
            exists|now: i64|
                r@ == (RequestModel {
                    method: Method::Post,
                    url: self.address@ + "/loki/api/v1/delete"@,
                    params: window_params(window(now, start, end)).push(
                        ("query"@, ParamModel::Text(query@)),
                    ),
                    content_type: None,
                    body: Seq::empty(),
                }),
    {
        let now = now_seconds();
        self.delete_request_at(now, query, start, end)
    }
}

/// Reads the answer to a range query, with timestamps shown in the given
/// offset: a status other than 200 is a status error whose message holds
/// the answer's text, a body that is not JSON or not a query answer is a parse
/// error. An answer also gives the shape it named.
pub fn query_range_response_at(status: u16, body: &str, offset_seconds: i32) -> (r: Result<
    QueryAnswer,
    Error,
>)
    ensures
        status != READ_OK ==> r is Err && r->Err_0.kind == ErrorKind::Status,
        status != READ_OK ==> r is Err && r->Err_0.message@ == status_message(body@)
            && r->Err_0.source is None,
        status == READ_OK ==> (r is Ok <==> (json_of_text(body@) is Some && query_results(
            json_of_text(body@)->0,
            offset_seconds,
        ) is Some)),
        status == READ_OK && r is Err ==> r->Err_0.kind == ErrorKind::Parse,
        r is Ok ==> results_model(r->Ok_0.results@) == query_results(
            json_of_text(body@)->0,
            offset_seconds,
        )->0,
        r is Ok ==> Some(r->Ok_0.shape) == result_shape(json_of_text(body@)->0),
{
    if status != READ_OK {
        return Err(status_error(body));
    }
    let doc = match parse_json(body) {
        Some(doc) => doc,
        None => {
            return Err(Error::of_kind(ErrorKind::Parse, text("answer is not JSON")));
        },
    };
    let results = match results_from_json(&doc, offset_seconds) {
        Ok(results) => results,
        Err(e) => {
            return Err(e);
        },
    };
    match result_shape_of(&doc) {
        Some(shape) => Ok(QueryAnswer { shape, results }),
        None => Err(Error::of_kind(ErrorKind::Parse, text("answer has no result type"))),
    }
}

/// Reads the answer to a range query, with timestamps shown in the
/// machine's current offset.
pub fn query_range_response(status: u16, body: &str) -> (r: Result<QueryAnswer, Error>)
    ensures
        status != READ_OK ==> r is Err && r->Err_0.kind == ErrorKind::Status,
        status != READ_OK ==> r is Err && r->Err_0.message@ == status_message(body@)
            && r->Err_0.source is None,
        r is Ok ==> Some(r->Ok_0.shape) == result_shape(json_of_text(body@)->0),
        exists|offset_seconds: i32|
            {
                &&& status == READ_OK ==> (r is Ok <==> (json_of_text(body@) is Some
                    && query_results(json_of_text(body@)->0, offset_seconds) is Some))
                &&& status == READ_OK && r is Err ==> r->Err_0.kind == ErrorKind::Parse
                &&& r is Ok ==> results_model(r->Ok_0.results@) == query_results(
                    json_of_text(body@)->0,
                    offset_seconds,
                )->0
            },
{
    let offset = local_offset_now();
    query_range_response_at(status, body, offset)
}

/// Reads the answer of the label or label-value endpoint: its list of
/// strings. A status other than 200 is a status error whose message holds
/// the answer's text, a body that is not such a list is a parse error.
pub fn label_list_response(status: u16, body: &str) -> (r: Result<Vec<String>, Error>)
    ensures
        status != READ_OK ==> r is Err && r->Err_0.kind == ErrorKind::Status,
        status != READ_OK ==> r is Err && r->Err_0.message@ == status_message(body@)
            && r->Err_0.source is None,
        status == READ_OK ==> (r is Ok <==> (json_of_text(body@) is Some && label_list(
            json_of_text(body@)->0,
        ) is Some)),
        status == READ_OK && r is Err ==> r->Err_0.kind == ErrorKind::Parse,
        r is Ok ==> strings_model(r->Ok_0@) == (label_list(json_of_text(body@)->0)->0).1,
{
    if status != READ_OK {
        return Err(status_error(body));
    }
    match parse_json(body) {
        Some(doc) => match LokiLabels::from_json(&doc) {
            Ok(labels) => Ok(labels.data),
            Err(e) => Err(e),
        },
        None => Err(Error::of_kind(ErrorKind::Parse, text("answer is not JSON"))),
    }
}

} // verus!
