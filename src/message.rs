use vstd::prelude::*;

use crate::error::{Error, ParseFailure};

verus! {

/// The kind of a discovery message.
#[derive(Clone, Copy, Debug, PartialEq, Eq, Structural)]
pub enum Method {
    /// An `M-SEARCH` request: a search probe.
    Msearch,
    /// A `NOTIFY` request: an announcement.
    Notify,
    /// A status line: the reply to a search probe.
    Response,
}

/// One header line as it stood in the datagram.
#[derive(Clone, Debug)]
pub struct RawHeader {
    pub name: String,
    pub value: Vec<u8>,
}

/// What the cache needs of a message: where the descriptor is, until when
/// the announcement holds (seconds since the epoch), and the service's id.
#[derive(Clone, Debug)]
pub struct ExtData {
    pub location: String,
    pub expires: i64,
    pub usn: String,
}

/// A decoded discovery datagram.
#[derive(Clone, Debug)]
pub struct Message {
    pub method: Method,
    pub code: Option<u16>,
    pub reason: Option<String>,
    pub headers: Vec<RawHeader>,
    pub ext: ExtData,
}

/// Header lines as (name, value) pairs.
pub type HeaderList = Seq<(Seq<char>, Seq<u8>)>;

pub struct ExtView {
    pub location: Seq<char>,
    pub expires: i64,
    pub usn: Seq<char>,
}

pub struct MessageView {
    pub method: Method,
    pub code: Option<u16>,
    pub reason: Option<Seq<char>>,
    pub headers: HeaderList,
    pub ext: ExtView,
}

/// The start line and header block of a datagram as read by an HTTP head
/// parser: complete, cut short, or not of the grammar at all.
pub enum HeadView {
    Complete { method: Option<Seq<char>>, code: Option<u16>, reason: Option<Seq<char>>, headers: HeaderList },
    Partial,
    Invalid,
}

pub struct HeadFields {
    pub method: Option<String>,
    pub code: Option<u16>,
    pub reason: Option<String>,
    pub headers: Vec<RawHeader>,
}

pub enum Head {
    Complete(HeadFields),
    Partial,
    Invalid,
}

pub open spec fn text_view(o: Option<String>) -> Option<Seq<char>> {
    match o {
        Some(s) => Some(s@),
        None => None,
    }
}

pub open spec fn directives_view(o: Option<Vec<Option<u32>>>) -> Option<Seq<Option<u32>>> {
    match o {
        Some(v) => Some(v@),
        None => None,
    }
}

pub open spec fn header_list(hs: Seq<RawHeader>) -> HeaderList {
    hs.map_values(|h: RawHeader| (h.name@, h.value@))
}

impl View for Head {
    type V = HeadView;

    open spec fn view(&self) -> HeadView {
        match self {
            Head::Complete(f) => HeadView::Complete {
                method: text_view(f.method),
                code: f.code,
                reason: text_view(f.reason),
                headers: header_list(f.headers@),
            },
            Head::Partial => HeadView::Partial,
            Head::Invalid => HeadView::Invalid,
        }
    }
}

impl View for Method {
    type V = Method;

    open spec fn view(&self) -> Method {
        *self
    }
}

impl View for ExtData {
    type V = ExtView;

    open spec fn view(&self) -> ExtView {
        ExtView { location: self.location@, expires: self.expires, usn: self.usn@ }
    }
}

impl View for Message {
    type V = MessageView;

    open spec fn view(&self) -> MessageView {
        MessageView {
            method: self.method,
            code: self.code,
            reason: text_view(self.reason),
            headers: header_list(self.headers@),
            ext: self.ext@,
        }
    }
}

/// What httparse reads from `packet` as a request head.
pub uninterp spec fn request_head_of(packet: Seq<u8>) -> HeadView;

/// What httparse reads from `packet` as a response head.
pub uninterp spec fn response_head_of(packet: Seq<u8>) -> HeadView;

/// The text of header `name` as hyper reads it from `headers`.
pub uninterp spec fn header_text_of(headers: HeaderList, name: Seq<char>) -> Option<Seq<char>>;

/// The directives of the Cache-Control header as hyper reads them from
/// `headers`, each as its max-age value or as none for any other directive.
pub uninterp spec fn cache_directives_of(headers: HeaderList) -> Option<Seq<Option<u32>>>;

/// Relies on httparse::Request::parse, with room for 16 headers, for the
/// request line and header block of a datagram.
#[verifier::external_body]
fn read_request_head(packet: &[u8]) -> (r: Head)
    ensures
        r@ == request_head_of(packet@),
{
    let mut hs = [httparse::EMPTY_HEADER; 16];
    let mut req = httparse::Request::new(&mut hs);
    match req.parse(packet) {
        Ok(httparse::Status::Complete(_)) => Head::Complete(HeadFields {
            method: req.method.map(|m| m.to_owned()),
            code: None,
            reason: None,
            headers: req.headers.iter().map(|h| RawHeader { name: h.name.to_owned(), value: h.value.to_vec() }).collect(),
        }),
        Ok(httparse::Status::Partial) => Head::Partial,
        Err(_) => Head::Invalid,
    }
}

/// Relies on httparse::Response::parse, with room for 16 headers, for the
/// status line and header block of a datagram.
#[verifier::external_body]
fn read_response_head(packet: &[u8]) -> (r: Head)
    ensures
        r@ == response_head_of(packet@),
{
    let mut hs = [httparse::EMPTY_HEADER; 16];
    let mut res = httparse::Response::new(&mut hs);
    match res.parse(packet) {
        Ok(httparse::Status::Complete(_)) => Head::Complete(HeadFields {
            method: None,
            code: res.code,
            reason: res.reason.map(|m| m.to_owned()),
            headers: res.headers.iter().map(|h| RawHeader { name: h.name.to_owned(), value: h.value.to_vec() }).collect(),
        }),
        Ok(httparse::Status::Partial) => Head::Partial,
        Err(_) => Head::Invalid,
    }
}

/// Relies on hyper's Headers::from_raw and Headers::get_raw, then
/// header::parsing::from_one_raw_str: the text of header `name`, looked up
/// without regard to case.
#[verifier::external_body]
fn header_text(headers: &Vec<RawHeader>, name: &str) -> (r: Option<String>)
    ensures
        text_view(r) == header_text_of(header_list(headers@), name@),
{
    let raw: Vec<httparse::Header> = headers.iter().map(|h| httparse::Header { name: &h.name, value: &h.value }).collect();
    let hs = hyper::header::Headers::from_raw(&raw).ok()?;
    hyper::header::parsing::from_one_raw_str(hs.get_raw(name)?).ok()
}

/// Relies on hyper's Headers::from_raw and Headers::get for CacheControl:
/// its directives in order, a max-age directive given by its value.
#[verifier::external_body]
fn cache_directives(headers: &Vec<RawHeader>) -> (r: Option<Vec<Option<u32>>>)
    ensures
        directives_view(r) == cache_directives_of(header_list(headers@)),
{
    let raw: Vec<httparse::Header> = headers.iter().map(|h| httparse::Header { name: &h.name, value: &h.value }).collect();
    let hs = hyper::header::Headers::from_raw(&raw).ok()?;
    let cc = hs.get::<hyper::header::CacheControl>()?;
    Some(cc.0.iter().map(|d| match *d { hyper::header::CacheDirective::MaxAge(a) => Some(a), _ => None }).collect())
}

/// Relies on time::now_utc: the wall-clock time, in whole seconds since the epoch.
#[verifier::external_body]
fn now_seconds() -> (r: i64)
{
    time::now_utc().to_timespec().sec
}

/// The first max-age value among Cache-Control directives.
pub open spec fn first_max_age(ds: Seq<Option<u32>>) -> Option<u32>
    decreases ds.len(),
{
    if ds.len() == 0 {
        None
    } else if ds[0] is Some {
        ds[0]
    } else {
        first_max_age(ds.drop_first())
    }
}

/// `now + age` seconds, held at the largest timestamp where it would pass it.
pub open spec fn expiry(now: i64, age: u32) -> i64 {
    if now + age > i64::MAX {
        i64::MAX
    } else {
        (now + age) as i64
    }
}

/// The cache data of a message received at time `now`, from its
/// `Location` text, its Cache-Control directives and its `USN` text. They are
/// required in that order, the directives with a max-age among them.
pub open spec fn ext_parts_spec(
    location: Option<Seq<char>>,
    directives: Option<Seq<Option<u32>>>,
    usn: Option<Seq<char>>,
    now: i64,
) -> Result<ExtView, ParseFailure> {
    let age = match directives {
        Some(ds) => first_max_age(ds),
        None => None,
    };
    match (location, age, usn) {
        (None, _, _) => Err(ParseFailure::InvalidHeader("Location"@)),
        (Some(_), None, _) => Err(ParseFailure::InvalidHeader("Cache-Control"@)),
        (Some(_), Some(_), None) => Err(ParseFailure::InvalidHeader("USN"@)),
        (Some(l), Some(a), Some(u)) => Ok(ExtView { location: l, expires: expiry(now, a), usn: u }),
    }
}

/// The cache data of a header block read at time `now`.
pub open spec fn ext_spec(hs: HeaderList, now: i64) -> Result<ExtView, ParseFailure> {
    ext_parts_spec(header_text_of(hs, "Location"@), cache_directives_of(hs), header_text_of(hs, "USN"@), now)
}

/// The kind of a request from its method token.
pub open spec fn method_spec(token: Option<Seq<char>>) -> Result<Method, ParseFailure> {
    if token == Some("M-SEARCH"@) {
        Ok(Method::Msearch)
    } else if token == Some("NOTIFY"@) {
        Ok(Method::Notify)
    } else {
        Err(ParseFailure::InvalidMethod(
            match token {
                Some(m) => m,
                None => Seq::empty(),
            },
        ))
    }
}

pub open spec fn message_spec(
    method: Method,
    code: Option<u16>,
    reason: Option<Seq<char>>,
    hs: HeaderList,
    now: i64,
) -> Result<MessageView, ParseFailure> {
    match ext_spec(hs, now) {
        Ok(ext) => Ok(MessageView { method, code, reason, headers: hs, ext }),
        Err(f) => Err(f),
    }
}

/// A datagram read as a response (the fallback grammar).
pub open spec fn response_spec(packet: Seq<u8>, now: i64) -> Result<MessageView, ParseFailure> {
    match response_head_of(packet) {
        HeadView::Complete { code, reason, headers, .. } => message_spec(Method::Response, code, reason, headers, now),
        HeadView::Partial => Err(ParseFailure::InvalidFormat),
        HeadView::Invalid => Err(ParseFailure::InvalidPacket),
    }
}

/// A datagram received at time `now`, read first as a request; only when it
/// is not of the request grammar at all, read as a response.
pub open spec fn parse_spec(packet: Seq<u8>, now: i64) -> Result<MessageView, ParseFailure> {
    match request_head_of(packet) {
        HeadView::Complete { method, headers, .. } => match method_spec(method) {
            Ok(kind) => message_spec(kind, None, None, headers, now),
            Err(f) => Err(f),
        },
        HeadView::Partial => Err(ParseFailure::InvalidFormat),
        HeadView::Invalid => response_spec(packet, now),
    }
}

/// `r` is the outcome that `s` describes.
pub open spec fn outcome_is<T: View>(r: Result<T, Error>, s: Result<T::V, ParseFailure>) -> bool {
    match (r, s) {
        (Ok(m), Ok(v)) => m@ == v,
        (Err(e), Err(f)) => e.is_failure(f),
        _ => false,
    }
}

/// Whether `a` holds exactly the text `b`.
fn same_text(a: &String, b: &str) -> (r: bool)
    ensures
        r == (a@ == b@),
{
    let t = b.to_owned();
    a.eq(&t)
}

fn first_age(ds: &Vec<Option<u32>>) -> (r: Option<u32>)
    ensures
        r == first_max_age(ds@),
{
    let mut i: usize = 0;
    assert(ds@.skip(0) =~= ds@);
    while i < ds.len()
        invariant
            i <= ds@.len(),
            first_max_age(ds@) == first_max_age(ds@.skip(i as int)),
        decreases ds.len() - i,
    {
        assert(ds@.skip(i as int).drop_first() =~= ds@.skip(i as int + 1));
        if ds[i].is_some() {
            return ds[i];
        }
        i = i + 1;
    }
    assert(ds@.skip(i as int).len() == 0);
    None
}

fn expiry_at(now: i64, age: u32) -> (r: i64)
    ensures
        r == expiry(now, age),
{
    if now > i64::MAX - age as i64 {
        i64::MAX
    } else {
        now + age as i64
    }
}

fn extract_headers(headers: &Vec<RawHeader>, now: i64) -> (r: Result<ExtData, Error>)
    ensures
        outcome_is(r, ext_spec(header_list(headers@), now)),
{
    let location = header_text(headers, "Location");
    let directives = cache_directives(headers);
    let usn = header_text(headers, "USN");
    ExtData::from_parts(location, directives, usn, now)
}

impl ExtData {
    /// The cache data of a message received at time `now` (seconds since the
    /// epoch), from the text of its `Location` header, the directives of its
    /// Cache-Control header (a max-age given by its value) and the text of its
    /// `USN` header. The first max-age counts; the expiry is `now` plus that
    /// many seconds, held at the largest timestamp.
    pub fn from_parts(
        location: Option<String>,
        directives: Option<Vec<Option<u32>>>,
        usn: Option<String>,
        now: i64,
    ) -> (r: Result<ExtData, Error>)
        ensures
            outcome_is(r, ext_parts_spec(text_view(location), directives_view(directives), text_view(usn), now)),
    {
        let location = match location {
            Some(l) => l,
            None => {
                return Err(Error::InvalidHeader("Location".to_owned()));
            },
        };
        let age = match directives {
            Some(ds) => first_age(&ds),
            None => None,
        };
        let age = match age {
            Some(a) => a,
            None => {
                return Err(Error::InvalidHeader("Cache-Control".to_owned()));
            },
        };
        let usn = match usn {
            Some(u) => u,
            None => {
                return Err(Error::InvalidHeader("USN".to_owned()));
            },
        };
        Ok(ExtData { location, expires: expiry_at(now, age), usn })
    }
}

impl Method {
    /// The kind of a request from its method token: `M-SEARCH` is a search,
    /// `NOTIFY` an announcement; any other token, or none, is refused.
    pub fn from_token(token: Option<String>) -> (r: Result<Method, Error>)
        ensures
            outcome_is(r, method_spec(text_view(token))),
    {
        match token {
            Some(m) => {
                if same_text(&m, "M-SEARCH") {
                    Ok(Method::Msearch)
                } else if same_text(&m, "NOTIFY") {
                    Ok(Method::Notify)
                } else {
                    Err(Error::InvalidMethod(m))
                }
            },
            None => Err(Error::InvalidMethod(String::new())),
        }
    }
}

fn build(method: Method, code: Option<u16>, reason: Option<String>, headers: Vec<RawHeader>, now: i64) -> (r: Result<Message, Error>)
    ensures
        outcome_is(r, message_spec(method, code, text_view(reason), header_list(headers@), now)),
{
    match extract_headers(&headers, now) {
        Ok(ext) => Ok(Message { method, code, reason, headers, ext }),
        Err(e) => Err(e),
    }
}

impl Message {
    fn parse_response(packet: &[u8], now: i64) -> (r: Result<Message, Error>)
        ensures
            outcome_is(r, response_spec(packet@, now)),
    {
        match read_response_head(packet) {
            Head::Complete(f) => build(Method::Response, f.code, f.reason, f.headers, now),
            Head::Partial => Err(Error::InvalidFormat),
            Head::Invalid => Err(Error::InvalidPacket),
        }
    }

    fn parse_request(packet: &[u8], now: i64) -> (r: Result<Message, Error>)
        ensures
            request_head_of(packet@) is Invalid ==> r matches Err(Error::InvalidPacket),
            !(request_head_of(packet@) is Invalid) ==> outcome_is(r, parse_spec(packet@, now)),
    {
        match read_request_head(packet) {
            Head::Complete(f) => {
                let method = match Method::from_token(f.method) {
                    Ok(m) => m,
                    Err(e) => {
                        return Err(e);
                    },
                };
                build(method, None, None, f.headers, now)
            },
            Head::Partial => Err(Error::InvalidFormat),
            Head::Invalid => Err(Error::InvalidPacket),
        }
    }

    /// Decodes a datagram received at time `now` (seconds since the epoch).
    /// A datagram that is not of the request grammar at all is read as a
    /// response; every other failure is returned as it is.
    pub fn parse_at(packet: &[u8], now: i64) -> (r: Result<Message, Error>)
        ensures
            outcome_is(r, parse_spec(packet@, now)),
    {
        let r = Self::parse_request(packet, now);
        if let Err(Error::InvalidPacket) = r {
            return Self::parse_response(packet, now);
        }
        r
    }

    /// Decodes a datagram that has just been received: its expiry is counted
    /// from the current wall-clock time.
    pub fn new(packet: &[u8]) -> (r: Result<Message, Error>)
        ensures
            exists|now: i64| outcome_is(r, parse_spec(packet@, now)),
    {
        let now = now_seconds();
        Self::parse_at(packet, now)
    }

    /// A copy of the message, equal to it in every field.
    pub fn duplicate(&self) -> (r: Message)
        ensures
            r@ == self@,
    {
        let mut headers: Vec<RawHeader> = Vec::new();
        let mut i: usize = 0;
        while i < self.headers.len()
            invariant
                i <= self.headers@.len(),
                headers@.len() == i,
                forall|j: int| 0 <= j < i ==> #[trigger] headers@[j].name@ == self.headers@[j].name@
                    && headers@[j].value@ == self.headers@[j].value@,
            decreases self.headers.len() - i,
        {
            let h = &self.headers[i];
            let mut value: Vec<u8> = Vec::new();
            let mut k: usize = 0;
            while k < h.value.len()
                invariant
                    k <= h.value@.len(),
                    value@ =~= h.value@.take(k as int),
                decreases h.value.len() - k,
            {
                value.push(h.value[k]);
                k = k + 1;
                assert(value@ =~= h.value@.take(k as int));
            }
            assert(h.value@.take(k as int) =~= h.value@);
            headers.push(RawHeader { name: h.name.clone(), value });
            i = i + 1;
        }
        assert(header_list(headers@) =~= header_list(self.headers@));
        let reason = match &self.reason {
            Some(r) => Some(r.clone()),
            None => None,
        };
        Message {
            method: self.method,
            code: self.code,
            reason,
            headers,
            ext: ExtData {
                location: self.ext.location.clone(),
                expires: self.ext.expires,
                usn: self.ext.usn.clone(),
            },
        }
    }
}

/// Parsing is total and deterministic: on any bytes it gives a message or a
/// classified failure, and two outcomes of parsing the same bytes at the same
/// time are the same message or the same failure.
pub proof fn parse_is_deterministic(
    packet: Seq<u8>,
    now: i64,
    r1: Result<Message, Error>,
    r2: Result<Message, Error>,
)
    requires
        outcome_is(r1, parse_spec(packet, now)),
        outcome_is(r2, parse_spec(packet, now)),
    ensures
        (r1 is Ok) == (r2 is Ok),
        r1 is Ok ==> r1->Ok_0@ == r2->Ok_0@,
        r1 is Err ==> r1->Err_0.failure() is Some && r1->Err_0.failure() == r2->Err_0.failure(),
{
}

/// A datagram whose head is read in full, as a search, an announcement or a
/// response, but that has no `Location` header, is rejected for lack of it.
pub proof fn missing_location_rejected(packet: Seq<u8>, now: i64)
    requires
        (match request_head_of(packet) {
            HeadView::Complete { method, headers, .. } => (method == Some("M-SEARCH"@) || method
                == Some("NOTIFY"@)) && header_text_of(headers, "Location"@) is None,
            HeadView::Invalid => (match response_head_of(packet) {
                HeadView::Complete { headers, .. } => header_text_of(headers, "Location"@) is None,
                _ => false,
            }),
            HeadView::Partial => false,
        }),
    ensures
        parse_spec(packet, now) == Err::<MessageView, ParseFailure>(ParseFailure::InvalidHeader("Location"@)),
{
}

/// Expiry is counted from receipt: a message parsed at `now` whose
/// Cache-Control carries max-age `a` expires at `now + a`.
pub proof fn expiry_counts_from_receipt(packet: Seq<u8>, now: i64, m: MessageView, a: u32)
    requires
        parse_spec(packet, now) == Ok::<MessageView, ParseFailure>(m),
        (match cache_directives_of(m.headers) {
            Some(ds) => first_max_age(ds) == Some(a),
            None => false,
        }),
        now + a <= i64::MAX,
    ensures
        m.ext.expires == now + a,
{
}

} // verus!
