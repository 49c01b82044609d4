//! From a parsed request to the plan of its response: method dispatch, the
//! `Accept-Encoding` scan, and the headers of a served file.
use vstd::prelude::*;
use crate::normalize::chars_of;
use crate::policy::{span_equals, ContentType};
use crate::normalize::normalize;
use crate::policy::Opened;
use crate::select::{step, Phase, Selection, Selector, SelectorView, StepView};

verus! {

/// Seconds from the Unix epoch to the start of the year 10000: later
/// instants have no four-digit year and cannot be formatted.
pub const MAX_DATE_SECS: i64 = 253402300800;

/// The IMF-fixdate (RFC 7231) of an instant given in whole seconds since the
/// Unix epoch.
pub uninterp spec fn imf_fixdate(secs: int) -> Seq<char>;

/// Relies on `httpdate::fmt_http_date`: formats the instant `secs` seconds
/// after the Unix epoch as an IMF-fixdate. It panics before the epoch and
/// from the year 10000 on.
#[verifier::external_body]
fn http_date(secs: i64) -> (r: String)
    requires
        0 <= secs < MAX_DATE_SECS,
    ensures
        r@ == imf_fixdate(secs as int),
{
    httpdate::fmt_http_date(std::time::UNIX_EPOCH + std::time::Duration::from_secs(secs as u64))
}

/// The methods the server tells apart.
#[derive(Clone, Copy, Debug, PartialEq, Eq, Structural)]
pub enum Method {
    Get,
    Head,
    Other,
}

/// Unicode white space, as `str::trim` removes it.
pub open spec fn is_ws(c: char) -> bool {
    let v = c as u32;
    (9 <= v && v <= 13) || v == 32 || v == 0x85 || v == 0xA0 || v == 0x1680 || (0x2000 <= v
        && v <= 0x200A) || v == 0x2028 || v == 0x2029 || v == 0x202F || v == 0x205F || v
        == 0x3000
}

/// Only white space lies between the start of the list item and `a`.
pub open spec fn blank_before(v: Seq<char>, a: int) -> bool
    decreases a,
{
    a <= 0 || v[a - 1] == ',' || (is_ws(v[a - 1]) && blank_before(v, a - 1))
}

/// Only white space lies between `b` and the end of the list item.
pub open spec fn blank_after(v: Seq<char>, b: int) -> bool
    decreases v.len() - b,
{
    b >= v.len() || v[b] == ',' || (is_ws(v[b]) && blank_after(v, b + 1))
}

/// The comma-separated item at `a`, trimmed, is exactly `gzip`.
pub open spec fn gzip_item_at(v: Seq<char>, a: int) -> bool {
    &&& 0 <= a && a + 4 <= v.len()
    &&& v.subrange(a, a + 4) == "gzip"@
    &&& blank_before(v, a)
    &&& blank_after(v, a + 4)
}

/// A header value lists `gzip` among its comma-separated items.
pub open spec fn lists_gzip(v: Seq<char>) -> bool {
    exists|a: int| #[trigger] gzip_item_at(v, a)
}

fn blank_before_exec(v: &Vec<char>, a: usize) -> (r: bool)
    requires
        a <= v.len(),
    ensures
        r == blank_before(v@, a as int),
{
    let mut i = a;
    while i > 0 && v[i - 1] != ',' && is_space(v[i - 1])
        invariant
            i <= a <= v.len(),
            blank_before(v@, i as int) == blank_before(v@, a as int),
        decreases i,
    {
        i = i - 1;
    }
    i == 0 || v[i - 1] == ','
}

fn blank_after_exec(v: &Vec<char>, b: usize) -> (r: bool)
    requires
        b <= v.len(),
    ensures
        r == blank_after(v@, b as int),
{
    let mut i = b;
    while i < v.len() && v[i] != ',' && is_space(v[i])
        invariant
            b <= i <= v.len(),
            blank_after(v@, i as int) == blank_after(v@, b as int),
        decreases v.len() - i,
    {
        i = i + 1;
    }
    i == v.len() || v[i] == ','
}

/// Whether a character is white space that `str::trim` removes.
pub fn is_space(c: char) -> (r: bool)
    ensures
        r == is_ws(c),
{
    let v = c as u32;
    (9 <= v && v <= 13) || v == 32 || v == 0x85 || v == 0xA0 || v == 0x1680 || (0x2000 <= v
        && v <= 0x200A) || v == 0x2028 || v == 0x2029 || v == 0x202F || v == 0x205F || v
        == 0x3000
}

/// Whether one `Accept-Encoding` value lists `gzip`.
pub fn value_lists_gzip(value: &str) -> (r: bool)
    ensures
        r == lists_gzip(value@),
{
    let v = chars_of(value);
    let gz = chars_of("gzip");
    if v.len() < 4 {
        return false;
    }
    let mut a: usize = 0;
    while a <= v.len() - 4
        invariant
            v@ == value@,
            gz@ == "gzip"@,
            v.len() >= 4,
            a <= v.len() - 3,
            forall|k: int| 0 <= k < a ==> !gzip_item_at(v@, k),
        decreases v.len() - a,
    {
        if span_equals(&v, a, a + 4, &gz) && blank_before_exec(&v, a) && blank_after_exec(
            &v,
            a + 4,
        ) {
            assert(gzip_item_at(v@, a as int));
            return true;
        }
        a = a + 1;
    }
    assert forall|k: int| !gzip_item_at(v@, k) by {
        if 0 <= k < a {
        }
    }
    false
}

/// Some `Accept-Encoding` value lists `gzip`, split at commas and trimmed.
pub open spec fn accepts_gzip_spec(values: Seq<String>) -> bool {
    exists|i: int| 0 <= i < values.len() && lists_gzip(#[trigger] values[i]@)
}

/// Scans the `Accept-Encoding` header values of a request for `gzip`.
pub fn accepts_gzip(values: &Vec<String>) -> (r: bool)
    ensures
        r == accepts_gzip_spec(values@),
{
    let mut i: usize = 0;
    while i < values.len()
        invariant
            i <= values.len(),
            forall|k: int| 0 <= k < i ==> !lists_gzip(#[trigger] values@[k]@),
        decreases values.len() - i,
    {
        if value_lists_gzip(values[i].as_str()) {
            return true;
        }
        i = i + 1;
    }
    false
}

/// The headers that describe a served file.
pub struct Headers {
    pub content_length: u64,
    pub content_type: ContentType,
    pub last_modified: String,
    /// `Content-Encoding: gzip` is sent.
    pub gzip: bool,
}

/// What the body of a response is.
#[derive(Clone, Copy, Debug, PartialEq, Eq, Structural)]
pub enum Body {
    Empty,
    /// The contents of the selected handle: the `.gz` alternate's with
    /// `gzip`, else the file's.
    File { gzip: bool },
}

/// A response: its status, its resource headers if any, and its body.
pub struct ResponsePlan {
    pub status: u16,
    pub headers: Option<Headers>,
    pub body: Body,
}

/// A bare `404 Not Found`: no resource headers, no body.
pub open spec fn is_bare_not_found(r: ResponsePlan) -> bool {
    r.status == 404 && r.headers is None && r.body == Body::Empty
}

/// The times the response header can show.
pub open spec fn date_in_range(sel: Selection) -> bool {
    sel matches Selection::Serve { meta, .. } ==> 0 <= meta.modified.secs < MAX_DATE_SECS
}

/// The bare `404 Not Found`.
pub fn not_found() -> (r: ResponsePlan)
    ensures
        is_bare_not_found(r),
{
    ResponsePlan { status: 404, headers: None, body: Body::Empty }
}

/// The response planned for a request with `method` whose selection is
/// `sel`: a bare `404` for any other method and for anything but a served
/// file; else `200` with the file's length, content type, modification time
/// and encoding, and for `GET` the selected handle as the body.
pub open spec fn planned(method: Method, sel: Selection, r: ResponsePlan) -> bool {
    &&& method == Method::Other ==> is_bare_not_found(r)
    &&& !(sel is Serve) ==> is_bare_not_found(r)
    &&& method != Method::Other ==> (sel matches Selection::Serve { meta, gzip } ==> {
        &&& r.status == 200
        &&& (r.headers matches Some(h) && h.content_length == meta.len && h.content_type
            == meta.content_type && h.last_modified@ == imf_fixdate(meta.modified.secs as int)
            && h.gzip == gzip)
        &&& r.body == if method == Method::Get {
            Body::File { gzip }
        } else {
            Body::Empty
        }
    })
}

/// Plans the response to a request once its selection is known. A served
/// file gets `200` with its length, content type and modification time, and
/// the encoding of the variant chosen; a `GET` streams the selected handle.
/// Anything else is a bare `404`.
pub fn plan_response(method: Method, sel: Selection) -> (r: ResponsePlan)
    requires
        date_in_range(sel),
    ensures
        planned(method, sel, r),
{
    match method {
        Method::Other => not_found(),
        _ => match sel {
            Selection::Serve { meta, gzip } => {
                let headers = Headers {
                    content_length: meta.len,
                    content_type: meta.content_type,
                    last_modified: http_date(meta.modified.secs),
                    gzip,
                };
                let body = if method == Method::Get {
                    Body::File { gzip }
                } else {
                    Body::Empty
                };
                ResponsePlan { status: 200, headers: Some(headers), body }
            },
            _ => not_found(),
        },
    }
}

/// How a request starts: answered at once, or a lookup to run.
pub enum Begin {
    Respond(ResponsePlan),
    Lookup(Selector),
}

/// Dispatches a request on its method: `GET` and `HEAD` start a lookup of
/// the normalized path, probing for gzip alternates only when an
/// `Accept-Encoding` value lists `gzip`; any other method gets a bare `404`.
pub fn begin(method: Method, path: &str, accept_encoding: &Vec<String>) -> (r: Begin)
    ensures
        method == Method::Other ==> (r matches Begin::Respond(p) && is_bare_not_found(p)),
        method != Method::Other ==> (r matches Begin::Lookup(s) && s@.path == normalize(path@)
            && s@.gzip == accepts_gzip_spec(accept_encoding@) && s@.phase == Phase::Target),
{
    match method {
        Method::Other => Begin::Respond(not_found()),
        _ => Begin::Lookup(Selector::new(path, accepts_gzip(accept_encoding))),
    }
}

/// For a file served to a `GET`, `Content-Length` is the length that the
/// stat of the streamed handle reported: the `.gz` alternate's when it is
/// served, else the file's own.
pub proof fn lemma_length_of_streamed_handle(v: SelectorView, o: Opened, r: ResponsePlan)
    requires
        step(v, o) matches StepView::Done(sel) && planned(Method::Get, sel, r),
    ensures
        r.status == 200 ==> (r.body matches Body::File { gzip } && r.headers matches Some(h) && (
        gzip ==> (o matches Opened::File(g) && h.content_length == g.len)) && (!gzip ==> (
        v.phase matches Phase::Compressed(b) ==> h.content_length == b.len)) && (!gzip ==> (!(
        v.phase is Compressed) ==> (o matches Opened::File(m) && h.content_length == m.len)))),
{
}

/// When the `.gz` alternate is served, `Last-Modified` shows the modification
/// time of the uncompressed file, and `Content-Encoding: gzip` is sent.
pub proof fn lemma_gzip_shows_original_time(
    v: SelectorView,
    o: Opened,
    method: Method,
    r: ResponsePlan,
)
    requires
        method != Method::Other,
        step(v, o) matches StepView::Done(sel) && planned(method, sel, r),
        step(v, o) matches StepView::Done(Selection::Serve { gzip: true, .. }),
    ensures
        v.phase matches Phase::Compressed(b) && r.headers matches Some(h) && h.last_modified@
            == imf_fixdate(b.modified.secs as int) && h.gzip,
{
}

/// A request whose `Accept-Encoding` values list no `gzip` never probes a
/// `.gz` alternate and never gets `Content-Encoding: gzip`.
pub proof fn lemma_no_gzip_without_request(
    values: Seq<String>,
    v: SelectorView,
    o: Opened,
    method: Method,
    r: ResponsePlan,
)
    requires
        !accepts_gzip_spec(values),
        v.gzip == accepts_gzip_spec(values),
        !(v.phase is Compressed),
    ensures
        step(v, o) matches StepView::Open(n) ==> !n.gzip && !(n.phase is Compressed),
        (step(v, o) matches StepView::Done(sel) && planned(method, sel, r)) ==> !(
        r.headers matches Some(h) && h.gzip),
{
}

} // verus!
