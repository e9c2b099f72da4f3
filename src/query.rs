use vstd::prelude::*;

use crate::error::{Error, ErrorKind};
use crate::json::{field, get_field, str_equal, Json};
use crate::time::{
    from_nanos, from_seconds, split_nanos, utc_representable, LocalDateTime, CHRONO_SURE_SECONDS,
};

verus! {

/// Applies `f` to each element in order; `None` as soon as one gives `None`.
pub open spec fn collect_all<A, B>(s: Seq<A>, f: spec_fn(A) -> Option<B>) -> Option<Seq<B>>
    decreases s.len(),
{
    if s.len() == 0 {
        Some(Seq::empty())
    } else {
        match (collect_all(s.drop_last(), f), f(s.last())) {
            (Some(p), Some(x)) => Some(p.push(x)),
            _ => None,
        }
    }
}

/// `collect_all` succeeds exactly when `f` succeeds on every element, and
/// then gives, in order, what `f` gives for each.
pub proof fn lemma_collect_all_pointwise<A, B>(s: Seq<A>, f: spec_fn(A) -> Option<B>)
    ensures
        collect_all(s, f) is Some <==> forall|i: int| 0 <= i < s.len() ==> #[trigger] f(s[i]) is Some,
        collect_all(s, f) is Some ==> collect_all(s, f)->0.len() == s.len(),
        collect_all(s, f) is Some ==> forall|i: int|
            0 <= i < s.len() ==> #[trigger] collect_all(s, f)->0[i] == f(s[i])->0,
    decreases s.len(),
{
    if s.len() > 0 {
        lemma_collect_all_pointwise(s.drop_last(), f);
        assert forall|i: int| 0 <= i < s.len() - 1 implies s.drop_last()[i] == s[i] by {}
        if collect_all(s, f) is None && (forall|i: int| 0 <= i < s.len() ==> #[trigger] f(s[i]) is Some) {
            assert(f(s[s.len() - 1]) is Some);
            assert(forall|i: int| 0 <= i < s.len() - 1 ==> #[trigger] f(s.drop_last()[i]) is Some) by {
                assert forall|i: int| 0 <= i < s.len() - 1 implies #[trigger] f(s.drop_last()[i]) is Some by {
                    assert(f(s[i]) is Some);
                }
            }
        }
        if collect_all(s, f) is Some {
            assert forall|i: int| 0 <= i < s.len() implies #[trigger] f(s[i]) is Some by {
                if i < s.len() - 1 {
                    assert(f(s.drop_last()[i]) is Some);
                }
            }
        }
    }
}

/// Once a prefix fails, the whole sequence fails.
pub proof fn lemma_collect_all_prefix_none<A, B>(s: Seq<A>, f: spec_fn(A) -> Option<B>, i: int)
    requires
        0 <= i <= s.len(),
        collect_all(s.take(i), f) is None,
    ensures
        collect_all(s, f) is None,
    decreases s.len() - i,
{
    if i < s.len() {
        assert(s.take(i + 1).drop_last() =~= s.take(i));
        lemma_collect_all_prefix_none(s, f, i + 1);
    } else {
        assert(s.take(i) =~= s);
    }
}

/// One timestamped line of a query result.
#[derive(Clone, Debug)]
pub struct LokiValue {
    pub timestamp: LocalDateTime,
    pub log_line: String,
}

pub ghost struct ValueModel {
    pub timestamp: LocalDateTime,
    pub log_line: Seq<char>,
}

impl View for LokiValue {
    type V = ValueModel;

    open spec fn view(&self) -> ValueModel {
        ValueModel { timestamp: self.timestamp, log_line: self.log_line@ }
    }
}

/// One series of a query result: its labels, in the order of the answer's
/// labels object (serde_json keeps an object's members sorted by name, so
/// each name comes once), and its values, in the order the answer lists
/// them.
#[derive(Clone, Debug)]
pub struct LokiResult {
    pub labels: Vec<(String, String)>,
    pub values: Vec<LokiValue>,
}

pub ghost struct ResultModel {
    pub labels: Seq<(Seq<char>, Seq<char>)>,
    pub values: Seq<ValueModel>,
}

pub open spec fn pairs_model(p: Seq<(String, String)>) -> Seq<(Seq<char>, Seq<char>)> {
    p.map_values(|x: (String, String)| (x.0@, x.1@))
}

pub open spec fn values_model(v: Seq<LokiValue>) -> Seq<ValueModel> {
    v.map_values(|x: LokiValue| x@)
}

impl View for LokiResult {
    type V = ResultModel;

    open spec fn view(&self) -> ResultModel {
        ResultModel { labels: pairs_model(self.labels@), values: values_model(self.values@) }
    }
}

pub open spec fn results_model(r: Seq<LokiResult>) -> Seq<ResultModel> {
    r.map_values(|x: LokiResult| x@)
}

/// The answer of the label and label-value endpoints.
#[derive(Clone, Debug)]
pub struct LokiLabels {
    pub status: String,
    pub data: Vec<String>,
}

// ---------------------------------------------------------------------------
// Decimal text

pub open spec fn is_digits(s: Seq<char>) -> bool {
    s.len() > 0 && forall|i: int| 0 <= i < s.len() ==> '0' <= #[trigger] s[i] <= '9'
}

pub open spec fn digits_value(s: Seq<char>) -> int
    decreases s.len(),
{
    if s.len() == 0 {
        0
    } else {
        digits_value(s.drop_last()) * 10 + (s.last() as int - '0' as int)
    }
}

/// The integer a decimal text denotes: digits, with an optional leading
/// `+` or `-`.
pub open spec fn decimal_value(s: Seq<char>) -> Option<int> {
    if s.len() > 0 && s[0] == '-' && is_digits(s.drop_first()) {
        Some(-digits_value(s.drop_first()))
    } else if s.len() > 0 && s[0] == '+' && is_digits(s.drop_first()) {
        Some(digits_value(s.drop_first()))
    } else if is_digits(s) {
        Some(digits_value(s))
    } else {
        None
    }
}

/// The `i64` a decimal text denotes, where it is one.
pub open spec fn i64_of_text(s: Seq<char>) -> Option<i64> {
    match decimal_value(s) {
        Some(v) => if (i64::MIN as int) <= v && v <= (i64::MAX as int) {
            Some(v as i64)
        } else {
            None
        },
        None => None,
    }
}

/// Relies on `str::parse::<i64>`: it accepts an optional sign followed by
/// decimal digits whose value fits an `i64`, and nothing else.
#[verifier::external_body]
fn parse_i64(s: &str) -> (r: Option<i64>)
    ensures
        r == i64_of_text(s@),
{
    s.parse::<i64>().ok()
}

// ---------------------------------------------------------------------------
// The shape of a query answer

/// A label member whose value is a string.
pub open spec fn label_pair(e: (String, Json)) -> Option<(Seq<char>, Seq<char>)> {
    match e.1 {
        Json::Str(s) => Some((e.0@, s@)),
        _ => None,
    }
}

pub open spec fn label_pairs(fields: Seq<(String, Json)>) -> Option<Seq<(Seq<char>, Seq<char>)>> {
    collect_all(fields, |e: (String, Json)| label_pair(e))
}

/// No two labels share a name.
pub open spec fn keys_distinct(p: Seq<(Seq<char>, Seq<char>)>) -> bool {
    forall|i: int, j: int| 0 <= i < j < p.len() ==> p[i].0 != p[j].0
}

/// Sets a label as a map does: a label already named so takes the new
/// value in its place; otherwise the label comes last.
pub open spec fn insert_label(
    p: Seq<(Seq<char>, Seq<char>)>,
    kv: (Seq<char>, Seq<char>),
) -> Seq<(Seq<char>, Seq<char>)> {
    if exists|i: int| 0 <= i < p.len() && p[i].0 == kv.0 {
        p.update(choose|i: int| 0 <= i < p.len() && p[i].0 == kv.0, kv)
    } else {
        p.push(kv)
    }
}

/// The labels that setting each pair in turn gives.
pub open spec fn labels_inserted(raw: Seq<(Seq<char>, Seq<char>)>) -> Seq<(Seq<char>, Seq<char>)>
    decreases raw.len(),
{
    if raw.len() == 0 {
        Seq::empty()
    } else {
        insert_label(labels_inserted(raw.drop_last()), raw.last())
    }
}

/// A sample of a "streams" answer: `[nanoseconds as a string, line]`.
pub open spec fn stream_sample(v: Json, offset_seconds: i32) -> Option<ValueModel> {
    match v {
        Json::Array(a) => if a@.len() >= 2 {
            match (a@[0], a@[1]) {
                (Json::Str(t), Json::Str(l)) => match i64_of_text(t@) {
                    Some(ns) => Some(
                        ValueModel { timestamp: split_nanos(ns as int, offset_seconds), log_line: l@ },
                    ),
                    None => None,
                },
                _ => None,
            }
        } else {
            None
        },
        _ => None,
    }
}

/// A sample of a "matrix" answer: `[whole seconds as an integer, value]`.
pub open spec fn matrix_sample(v: Json, offset_seconds: i32) -> Option<ValueModel> {
    match v {
        Json::Array(a) => if a@.len() >= 2 {
            match (a@[0], a@[1]) {
                (Json::Int(secs), Json::Str(l)) => if -CHRONO_SURE_SECONDS <= secs
                    <= CHRONO_SURE_SECONDS || utc_representable(secs, 0) {
                    Some(
                        ValueModel {
                            timestamp: LocalDateTime { seconds: secs, nanos: 0, offset_seconds },
                            log_line: l@,
                        },
                    )
                } else {
                    None
                },
                _ => None,
            }
        } else {
            None
        },
        _ => None,
    }
}

pub open spec fn sample(v: Json, streams: bool, offset_seconds: i32) -> Option<ValueModel> {
    if streams {
        stream_sample(v, offset_seconds)
    } else {
        matrix_sample(v, offset_seconds)
    }
}

pub open spec fn samples(vs: Seq<Json>, streams: bool, offset_seconds: i32) -> Option<Seq<ValueModel>> {
    collect_all(vs, |v: Json| sample(v, streams, offset_seconds))
}

/// The member that holds a series' labels.
pub open spec fn labels_key(streams: bool) -> Seq<char> {
    if streams {
        "stream"@
    } else {
        "metric"@
    }
}

/// One series: its labels object and its `values` array.
pub open spec fn series(s: Json, streams: bool, offset_seconds: i32) -> Option<ResultModel> {
    match (field(s, labels_key(streams)), field(s, "values"@)) {
        (Some(Json::Object(fs)), Some(Json::Array(vs))) => match (
            label_pairs(fs@),
            samples(vs@, streams, offset_seconds),
        ) {
            (Some(l), Some(v)) => Some(ResultModel { labels: labels_inserted(l), values: v }),
            _ => None,
        },
        _ => None,
    }
}

pub open spec fn all_series(ss: Seq<Json>, streams: bool, offset_seconds: i32) -> Option<Seq<ResultModel>> {
    collect_all(ss, |s: Json| series(s, streams, offset_seconds))
}

/// The shapes a query answer can take.
#[derive(Clone, Copy, Debug, PartialEq, Eq, Structural)]
pub enum ResultShape {
    Streams,
    Matrix,
    Other,
}

/// The shape named by `data.resultType`; `None` where that member is missing.
pub open spec fn result_shape(doc: Json) -> Option<ResultShape> {
    match field(doc, "data"@) {
        Some(d) => match field(d, "resultType"@) {
            Some(Json::Str(t)) => if t@ == "streams"@ {
                Some(ResultShape::Streams)
            } else if t@ == "matrix"@ {
                Some(ResultShape::Matrix)
            } else {
                Some(ResultShape::Other)
            },
            Some(_) => Some(ResultShape::Other),
            None => None,
        },
        None => None,
    }
}

/// The series of `data.result`, read in the given shape.
pub open spec fn shaped_results(doc: Json, streams: bool, offset_seconds: i32) -> Option<Seq<ResultModel>> {
    match field(field(doc, "data"@)->0, "result"@) {
        Some(Json::Array(a)) => all_series(a@, streams, offset_seconds),
        _ => None,
    }
}

/// What a query answer holds: the series of a "streams" or a "matrix"
/// answer, and no series for an answer of any other shape.
pub open spec fn query_results(doc: Json, offset_seconds: i32) -> Option<Seq<ResultModel>> {
    match result_shape(doc) {
        Some(ResultShape::Streams) => shaped_results(doc, true, offset_seconds),
        Some(ResultShape::Matrix) => shaped_results(doc, false, offset_seconds),
        Some(ResultShape::Other) => Some(Seq::empty()),
        None => None,
    }
}

impl LokiValue {
    /// A value from a timestamp in nanoseconds since the epoch, written in
    /// decimal, shown in the given offset. `None` where the text is no
    /// `i64`.
    pub fn from_nano(timestamp: &str, log_line: String, offset_seconds: i32) -> (r: Option<Self>)
        ensures
            r is Some <==> i64_of_text(timestamp@) is Some,
            r is Some ==> r->0.timestamp == split_nanos(
                i64_of_text(timestamp@)->0 as int,
                offset_seconds,
            ),
            r is Some ==> r->0.timestamp.nanos_since_epoch() == i64_of_text(timestamp@)->0,
            r is Some ==> r->0.log_line@ == log_line@,
    {
        let ns = match parse_i64(timestamp) {
            Some(ns) => ns,
            None => {
                return None;
            },
        };
        Some(LokiValue { timestamp: from_nanos(ns, offset_seconds), log_line })
    }

    /// A value from a timestamp in whole seconds since the epoch, shown in
    /// the given offset, with no sub-second part. `None` where the instant
    /// cannot be represented.
    pub fn from_sec(timestamp: i64, log_line: String, offset_seconds: i32) -> (r: Option<Self>)
        ensures
            r is Some <==> utc_representable(timestamp, 0),
            -CHRONO_SURE_SECONDS <= timestamp <= CHRONO_SURE_SECONDS ==> r is Some,
            r is Some ==> r->0.timestamp == (LocalDateTime {
                seconds: timestamp,
                nanos: 0,
                offset_seconds,
            }),
            r is Some ==> r->0.log_line@ == log_line@,
    {
        match from_seconds(timestamp, offset_seconds) {
            Some(timestamp) => Some(LokiValue { timestamp, log_line }),
            None => None,
        }
    }
}

fn sample_of(v: &Json, streams: bool, offset_seconds: i32) -> (r: Option<LokiValue>)
    ensures
        r is Some <==> sample(*v, streams, offset_seconds) is Some,
        r is Some ==> r->0@ == sample(*v, streams, offset_seconds)->0,
{
    match v {
        Json::Array(a) => {
            if a.len() < 2 {
                return None;
            }
            match (&a[0], &a[1]) {
                (Json::Str(t), Json::Str(l)) => {
                    if streams {
                        LokiValue::from_nano(t.as_str(), l.clone(), offset_seconds)
                    } else {
                        None
                    }
                },
                (Json::Int(secs), Json::Str(l)) => {
                    if streams {
                        None
                    } else {
                        LokiValue::from_sec(*secs, l.clone(), offset_seconds)
                    }
                },
                _ => None,
            }
        },
        _ => None,
    }
}

fn samples_of(vs: &Vec<Json>, streams: bool, offset_seconds: i32) -> (r: Option<Vec<LokiValue>>)
    ensures
        r is Some <==> samples(vs@, streams, offset_seconds) is Some,
        r is Some ==> values_model(r->0@) == samples(vs@, streams, offset_seconds)->0,
{
    let ghost f = |v: Json| sample(v, streams, offset_seconds);
    let mut out: Vec<LokiValue> = Vec::new();
    let mut i: usize = 0;
    assert(vs@.take(0) =~= Seq::<Json>::empty());
    while i < vs.len()
        invariant
            i <= vs@.len(),
            f == (|v: Json| sample(v, streams, offset_seconds)),
            collect_all(vs@.take(i as int), f) == Some(values_model(out@)),
        decreases vs@.len() - i,
    {
        assert(vs@.take(i as int + 1).drop_last() =~= vs@.take(i as int));
        match sample_of(&vs[i], streams, offset_seconds) {
            Some(x) => {
                out.push(x);
                assert(values_model(out@) =~= collect_all(vs@.take(i as int + 1), f)->0);
            },
            None => {
                proof {
                    lemma_collect_all_prefix_none(vs@, f, i as int + 1);
                }
                return None;
            },
        }
        i = i + 1;
    }
    assert(vs@.take(vs@.len() as int) =~= vs@);
    Some(out)
}

impl LokiResult {
    /// A series from a labels object, whose members must all be strings,
    /// and its values. The labels are set in turn as in a map, so a name
    /// comes once, with the last value given for it.
    pub fn from_json(labels: &Vec<(String, Json)>, values: Vec<LokiValue>) -> (r: Option<Self>)
        ensures
            r is Some <==> label_pairs(labels@) is Some,
            r is Some ==> r->0@ == (ResultModel {
                labels: labels_inserted(label_pairs(labels@)->0),
                values: values_model(values@),
            }),
            r is Some ==> keys_distinct(r->0@.labels),
    {
        let ghost f = |e: (String, Json)| label_pair(e);
        let ghost mut raw: Seq<(Seq<char>, Seq<char>)> = Seq::empty();
        let mut out: Vec<(String, String)> = Vec::new();
        let mut i: usize = 0;
        assert(labels@.take(0) =~= Seq::<(String, Json)>::empty());
        assert(pairs_model(out@) =~= Seq::<(Seq<char>, Seq<char>)>::empty());
        while i < labels.len()
            invariant
                i <= labels@.len(),
                f == (|e: (String, Json)| label_pair(e)),
                collect_all(labels@.take(i as int), f) == Some(raw),
                pairs_model(out@) == labels_inserted(raw),
                keys_distinct(pairs_model(out@)),
            decreases labels@.len() - i,
        {
            assert(labels@.take(i as int + 1).drop_last() =~= labels@.take(i as int));
            let (k, v) = &labels[i];
            let s = match v {
                Json::Str(s) => s,
                _ => {
                    proof {
                        lemma_collect_all_prefix_none(labels@, f, i as int + 1);
                    }
                    return None;
                },
            };
            let ghost kv = (k@, s@);
            let ghost before = pairs_model(out@);
            let mut pos: usize = out.len();
            let mut j: usize = 0;
            while j < out.len()
                invariant
                    j <= out@.len(),
                    kv.0 == k@,
                    before == pairs_model(out@),
                    pos == out@.len() ==> forall|m: int| 0 <= m < j ==> #[trigger] before[m].0 != kv.0,
                    pos < out@.len() ==> before[pos as int].0 == kv.0,
                    pos <= out@.len(),
                decreases out@.len() - j,
            {
                assert(before[j as int] == (out@[j as int].0@, out@[j as int].1@));
                if pos == out.len() && str_equal(out[j].0.as_str(), k.as_str()) {
                    pos = j;
                }
                j = j + 1;
            }
            if pos < out.len() {
                out.set(pos, (k.clone(), s.clone()));
                proof {
                    let c = choose|c: int| 0 <= c < before.len() && before[c].0 == kv.0;
                    assert(0 <= c < before.len() && before[c].0 == kv.0);
                    if c != pos as int {
                        if c < pos as int {
                            assert(before[c].0 != before[pos as int].0);
                        } else {
                            assert(before[pos as int].0 != before[c].0);
                        }
                    }
                    assert(pairs_model(out@) =~= insert_label(before, kv));
                }
            } else {
                out.push((k.clone(), s.clone()));
                proof {
                    assert(!(exists|c: int| 0 <= c < before.len() && before[c].0 == kv.0));
                    assert(pairs_model(out@) =~= insert_label(before, kv));
                }
            }
            proof {
                raw = raw.push(kv);
                assert(raw.drop_last() == collect_all(labels@.take(i as int), f)->0);
                assert(collect_all(labels@.take(i as int + 1), f) == Some(raw));
                assert(labels_inserted(raw) == insert_label(labels_inserted(raw.drop_last()), kv));
            }
            i = i + 1;
        }
        assert(labels@.take(labels@.len() as int) =~= labels@);
        Some(LokiResult { labels: out, values })
    }
}

fn series_of(s: &Json, streams: bool, offset_seconds: i32) -> (r: Option<LokiResult>)
    ensures
        r is Some <==> series(*s, streams, offset_seconds) is Some,
        r is Some ==> r->0@ == series(*s, streams, offset_seconds)->0,
{
    let key = if streams {
        "stream"
    } else {
        "metric"
    };
    proof {
        reveal_strlit("stream");
        reveal_strlit("metric");
    }
    assert(key@ == labels_key(streams));
    let labels = match get_field(s, key) {
        Some(Json::Object(fs)) => fs,
        _ => {
            return None;
        },
    };
    let vs = match get_field(s, "values") {
        Some(Json::Array(vs)) => vs,
        _ => {
            return None;
        },
    };
    let values = match samples_of(vs, streams, offset_seconds) {
        Some(values) => values,
        None => {
            return None;
        },
    };
    LokiResult::from_json(labels, values)
}

fn all_series_of(ss: &Vec<Json>, streams: bool, offset_seconds: i32) -> (r: Option<Vec<LokiResult>>)
    ensures
        r is Some <==> all_series(ss@, streams, offset_seconds) is Some,
        r is Some ==> results_model(r->0@) == all_series(ss@, streams, offset_seconds)->0,
{
    let ghost f = |s: Json| series(s, streams, offset_seconds);
    let mut out: Vec<LokiResult> = Vec::new();
    let mut i: usize = 0;
    assert(ss@.take(0) =~= Seq::<Json>::empty());
    while i < ss.len()
        invariant
            i <= ss@.len(),
            f == (|s: Json| series(s, streams, offset_seconds)),
            collect_all(ss@.take(i as int), f) == Some(results_model(out@)),
        decreases ss@.len() - i,
    {
        assert(ss@.take(i as int + 1).drop_last() =~= ss@.take(i as int));
        match series_of(&ss[i], streams, offset_seconds) {
            Some(x) => {
                out.push(x);
                assert(results_model(out@) =~= collect_all(ss@.take(i as int + 1), f)->0);
            },
            None => {
                proof {
                    lemma_collect_all_prefix_none(ss@, f, i as int + 1);
                }
                return None;
            },
        }
        i = i + 1;
    }
    assert(ss@.take(ss@.len() as int) =~= ss@);
    Some(out)
}

/// The shape a query answer names in `data.resultType`.
pub fn result_shape_of(doc: &Json) -> (r: Option<ResultShape>)
    ensures
        r == result_shape(*doc),
{
    proof {
        reveal_strlit("streams");
        reveal_strlit("matrix");
    }
    let data = match get_field(doc, "data") {
        Some(d) => d,
        None => {
            return None;
        },
    };
    match get_field(data, "resultType") {
        Some(Json::Str(t)) => {
            if str_equal(t.as_str(), "streams") {
                Some(ResultShape::Streams)
            } else if str_equal(t.as_str(), "matrix") {
                Some(ResultShape::Matrix)
            } else {
                Some(ResultShape::Other)
            }
        },
        Some(_) => Some(ResultShape::Other),
        None => None,
    }
}

/// A read query answer: the shape it named and its series. An answer of
/// shape `Other` has no series; it is no error, and the caller may report
/// the shape it did not recognise.
#[derive(Clone, Debug)]
pub struct QueryAnswer {
    pub shape: ResultShape,
    pub results: Vec<LokiResult>,
}

fn parse_error(message: &str) -> (r: Error)
    ensures
        r.kind == ErrorKind::Parse,
{
    Error::of_kind(ErrorKind::Parse, String::from_str(message))
}

/// Reads the series of a query answer. A "streams" answer takes its labels
/// from `stream` and its timestamps as nanoseconds in strings; a "matrix"
/// answer takes its labels from `metric` and its timestamps as whole
/// seconds; an answer of any other shape has no series. Timestamps are
/// shown in the given offset. Anything else that does not have this shape
/// is a parse error.
pub fn results_from_json(doc: &Json, offset_seconds: i32) -> (r: Result<Vec<LokiResult>, Error>)
    ensures
        r is Ok <==> query_results(*doc, offset_seconds) is Some,
        r is Ok ==> results_model(r->Ok_0@) == query_results(*doc, offset_seconds)->0,
        r is Err ==> r->Err_0.kind == ErrorKind::Parse,
{
    proof {
        reveal_strlit("streams");
        reveal_strlit("matrix");
    }
    let data = match get_field(doc, "data") {
        Some(d) => d,
        None => {
            return Err(parse_error("answer has no data"));
        },
    };
    let streams = match get_field(data, "resultType") {
        Some(Json::Str(t)) => {
            if str_equal(t.as_str(), "streams") {
                true
            } else if str_equal(t.as_str(), "matrix") {
                false
            } else {
                assert(query_results(*doc, offset_seconds) == Some(Seq::<ResultModel>::empty()));
                let empty: Vec<LokiResult> = Vec::new();
                assert(results_model(empty@) =~= Seq::<ResultModel>::empty());
                return Ok(empty);
            }
        },
        Some(_) => {
            let empty: Vec<LokiResult> = Vec::new();
            assert(results_model(empty@) =~= Seq::<ResultModel>::empty());
            return Ok(empty);
        },
        None => {
            return Err(parse_error("answer has no result type"));
        },
    };
    match get_field(data, "result") {
        Some(Json::Array(a)) => match all_series_of(a, streams, offset_seconds) {
            Some(results) => Ok(results),
            None => Err(parse_error("a series does not have the expected shape")),
        },
        _ => Err(parse_error("answer has no result list")),
    }
}

/// The text of `data.resultType`, where it is a string.
pub open spec fn result_type_text(doc: Json) -> Option<Seq<char>> {
    match field(doc, "data"@) {
        Some(d) => match field(d, "resultType"@) {
            Some(Json::Str(t)) => Some(t@),
            _ => None,
        },
        None => None,
    }
}

/// An answer is read as streams exactly when its result type is "streams",
/// as a matrix exactly when it is "matrix", and an answer with any other
/// result type gives no series rather than an error.
pub proof fn lemma_result_routing(doc: Json, offset_seconds: i32)
    ensures
        result_shape(doc) == Some(ResultShape::Streams) <==> result_type_text(doc) == Some(
            "streams"@,
        ),
        result_shape(doc) == Some(ResultShape::Matrix) <==> result_type_text(doc) == Some(
            "matrix"@,
        ),
        result_shape(doc) == Some(ResultShape::Streams) ==> query_results(doc, offset_seconds)
            == shaped_results(doc, true, offset_seconds),
        result_shape(doc) == Some(ResultShape::Matrix) ==> query_results(doc, offset_seconds)
            == shaped_results(doc, false, offset_seconds),
        result_shape(doc) == Some(ResultShape::Other) ==> query_results(doc, offset_seconds)
            == Some(Seq::<ResultModel>::empty()),
{
    reveal_strlit("streams");
    reveal_strlit("matrix");
    assert("streams"@[0] != "matrix"@[0]);
}

/// The series of an answer: its `data.result` array.
pub open spec fn answer_series(doc: Json) -> Option<Seq<Json>> {
    match field(field(doc, "data"@)->0, "result"@) {
        Some(Json::Array(a)) => Some(a@),
        _ => None,
    }
}

/// A "streams" answer gives one result per series, in order, exactly when
/// every series reads: each result has the labels of the series' `stream`
/// object and, in order, one value per `[nanoseconds, line]` pair of its
/// `values`, at that count of nanoseconds split into seconds and a
/// remainder.
pub proof fn lemma_streams_answer(doc: Json, offset_seconds: i32, ss: Seq<Json>)
    requires
        result_shape(doc) == Some(ResultShape::Streams),
        answer_series(doc) == Some(ss),
    ensures
        query_results(doc, offset_seconds) is Some <==> forall|i: int|
            0 <= i < ss.len() ==> #[trigger] series(ss[i], true, offset_seconds) is Some,
        query_results(doc, offset_seconds) is Some ==> query_results(doc, offset_seconds)->0.len()
            == ss.len(),
        query_results(doc, offset_seconds) is Some ==> forall|i: int|
            0 <= i < ss.len() ==> #[trigger] query_results(doc, offset_seconds)->0[i] == series(
                ss[i],
                true,
                offset_seconds,
            )->0,
{
    let f = |s: Json| series(s, true, offset_seconds);
    lemma_collect_all_pointwise(ss, f);
    if forall|i: int| 0 <= i < ss.len() ==> #[trigger] series(ss[i], true, offset_seconds) is Some {
        assert forall|i: int| 0 <= i < ss.len() implies #[trigger] f(ss[i]) is Some by {
            assert(series(ss[i], true, offset_seconds) is Some);
        }
    }
    if forall|i: int| 0 <= i < ss.len() ==> #[trigger] f(ss[i]) is Some {
        assert forall|i: int| 0 <= i < ss.len() implies #[trigger] series(ss[i], true, offset_seconds) is Some by {
            assert(f(ss[i]) is Some);
        }
    }
}

/// A "matrix" answer gives one result per series, in order, exactly when
/// every series reads: each result has the labels of the series' `metric`
/// object and, in order, one value per `[seconds, value]` pair of its
/// `values`, at those whole seconds.
pub proof fn lemma_matrix_answer(doc: Json, offset_seconds: i32, ss: Seq<Json>)
    requires
        result_shape(doc) == Some(ResultShape::Matrix),
        answer_series(doc) == Some(ss),
    ensures
        query_results(doc, offset_seconds) is Some <==> forall|i: int|
            0 <= i < ss.len() ==> #[trigger] series(ss[i], false, offset_seconds) is Some,
        query_results(doc, offset_seconds) is Some ==> query_results(doc, offset_seconds)->0.len()
            == ss.len(),
        query_results(doc, offset_seconds) is Some ==> forall|i: int|
            0 <= i < ss.len() ==> #[trigger] query_results(doc, offset_seconds)->0[i] == series(
                ss[i],
                false,
                offset_seconds,
            )->0,
{
    let f = |s: Json| series(s, false, offset_seconds);
    lemma_collect_all_pointwise(ss, f);
    if forall|i: int| 0 <= i < ss.len() ==> #[trigger] series(ss[i], false, offset_seconds) is Some {
        assert forall|i: int| 0 <= i < ss.len() implies #[trigger] f(ss[i]) is Some by {
            assert(series(ss[i], false, offset_seconds) is Some);
        }
    }
    if forall|i: int| 0 <= i < ss.len() ==> #[trigger] f(ss[i]) is Some {
        assert forall|i: int| 0 <= i < ss.len() implies #[trigger] series(ss[i], false, offset_seconds) is Some by {
            assert(f(ss[i]) is Some);
        }
    }
}

/// The values of one series: one per pair of its `values`, in order, read
/// as nanosecond text for a "streams" answer and as whole seconds (with no
/// sub-second part) for a "matrix" answer.
pub proof fn lemma_series_values(vs: Seq<Json>, streams: bool, offset_seconds: i32)
    ensures
        samples(vs, streams, offset_seconds) is Some <==> forall|i: int|
            0 <= i < vs.len() ==> #[trigger] sample(vs[i], streams, offset_seconds) is Some,
        samples(vs, streams, offset_seconds) is Some ==> samples(vs, streams, offset_seconds)->0.len()
            == vs.len(),
        samples(vs, streams, offset_seconds) is Some ==> forall|i: int|
            0 <= i < vs.len() ==> #[trigger] samples(vs, streams, offset_seconds)->0[i] == sample(
                vs[i],
                streams,
                offset_seconds,
            )->0,
        !streams && samples(vs, streams, offset_seconds) is Some ==> forall|i: int|
            0 <= i < vs.len() ==> #[trigger] samples(vs, streams, offset_seconds)->0[i].timestamp.nanos
                == 0,
{
    let f = |v: Json| sample(v, streams, offset_seconds);
    lemma_collect_all_pointwise(vs, f);
    if forall|i: int| 0 <= i < vs.len() ==> #[trigger] sample(vs[i], streams, offset_seconds) is Some {
        assert forall|i: int| 0 <= i < vs.len() implies #[trigger] f(vs[i]) is Some by {
            assert(sample(vs[i], streams, offset_seconds) is Some);
        }
    }
    if forall|i: int| 0 <= i < vs.len() ==> #[trigger] f(vs[i]) is Some {
        assert forall|i: int| 0 <= i < vs.len() implies #[trigger] sample(vs[i], streams, offset_seconds) is Some by {
            assert(f(vs[i]) is Some);
        }
    }
}

pub open spec fn string_item(j: Json) -> Option<Seq<char>> {
    match j {
        Json::Str(s) => Some(s@),
        _ => None,
    }
}

pub open spec fn string_items(items: Seq<Json>) -> Option<Seq<Seq<char>>> {
    collect_all(items, |j: Json| string_item(j))
}

pub open spec fn strings_model(v: Seq<String>) -> Seq<Seq<char>> {
    v.map_values(|s: String| s@)
}

/// What a label-list answer holds: its `status` string and its `data`
/// list of strings.
pub open spec fn label_list(doc: Json) -> Option<(Seq<char>, Seq<Seq<char>>)> {
    match (field(doc, "status"@), field(doc, "data"@)) {
        (Some(Json::Str(st)), Some(Json::Array(a))) => match string_items(a@) {
            Some(d) => Some((st@, d)),
            None => None,
        },
        _ => None,
    }
}

impl LokiLabels {
    /// Reads a label-list answer: `{"status": .., "data": [..]}`.
    pub fn from_json(doc: &Json) -> (r: Result<Self, Error>)
        ensures
            r is Ok <==> label_list(*doc) is Some,
            r is Ok ==> r->Ok_0.status@ == (label_list(*doc)->0).0 && strings_model(
                r->Ok_0.data@,
            ) == (label_list(*doc)->0).1,
            r is Err ==> r->Err_0.kind == ErrorKind::Parse,
    {
        let status = match get_field(doc, "status") {
            Some(Json::Str(st)) => st.clone(),
            _ => {
                return Err(parse_error("label answer has no status"));
            },
        };
        let items = match get_field(doc, "data") {
            Some(Json::Array(a)) => a,
            _ => {
                return Err(parse_error("label answer has no data list"));
            },
        };
        let ghost f = |j: Json| string_item(j);
        let mut data: Vec<String> = Vec::new();
        let mut i: usize = 0;
        assert(items@.take(0) =~= Seq::<Json>::empty());
        while i < items.len()
            invariant
                i <= items@.len(),
                f == (|j: Json| string_item(j)),
                collect_all(items@.take(i as int), f) == Some(strings_model(data@)),
                label_list(*doc) is Some <==> string_items(items@) is Some,
                label_list(*doc) is Some ==> label_list(*doc)->0 == (
                    status@,
                    string_items(items@)->0,
                ),
            decreases items@.len() - i,
        {
            assert(items@.take(i as int + 1).drop_last() =~= items@.take(i as int));
            match &items[i] {
                Json::Str(s) => {
                    data.push(s.clone());
                    assert(strings_model(data@) =~= collect_all(items@.take(i as int + 1), f)->0);
                },
                _ => {
                    proof {
                        lemma_collect_all_prefix_none(items@, f, i as int + 1);
                    }
                    return Err(parse_error("a label is not a string"));
                },
            }
            i = i + 1;
        }
        assert(items@.take(items@.len() as int) =~= items@);
        Ok(LokiLabels { status, data })
    }
}

} // verus!
