use vstd::prelude::*;

verus! {

/// The status with which a server rejects the credentials of a request.
pub const UNAUTHORIZED: u16 = 401;

/// The status with which a server rejects a request for exceeding the
/// rate limit.
pub const TOO_MANY_REQUESTS: u16 = 429;

/// The HTTP request methods that an endpoint may use.
#[derive(Debug, Clone, Copy, PartialEq, Eq, Structural)]
pub enum Method {
    Get,
    Post,
    Put,
    Patch,
    Delete,
}

/// What a response status means for one endpoint.
///
/// `V` is the endpoint's own set of named failures.
#[derive(Debug, PartialEq, Eq)]
pub enum Class<V> {
    /// The body holds the endpoint's output.
    Success,
    /// The credentials were rejected.
    AuthenticationFailed,
    /// Too many requests were issued.
    RateLimitExceeded,
    /// A failure listed in the endpoint's table.
    Listed(V),
    /// A status that the endpoint does not know.
    UnexpectedStatus(u16),
}

/// The variant that `entries` assigns to `status`, if any.
pub open spec fn lookup<V>(entries: Seq<(u16, V)>, status: u16) -> Option<V> {
    if exists|i: int| 0 <= i < entries.len() && entries[i].0 == status {
        let i = choose|i: int| 0 <= i < entries.len() && entries[i].0 == status;
        Some(entries[i].1)
    } else {
        None
    }
}

/// Whether a success set and a table of failures can stand together:
/// neither names one of the two universal statuses, no status is both a
/// success and a failure, and no status is listed twice.
pub open spec fn table_ok<V>(success: Seq<u16>, entries: Seq<(u16, V)>) -> bool {
    &&& !success.contains(UNAUTHORIZED)
    &&& !success.contains(TOO_MANY_REQUESTS)
    &&& forall|i: int|
        0 <= i < entries.len() ==> {
            &&& #[trigger] entries[i].0 != UNAUTHORIZED
            &&& entries[i].0 != TOO_MANY_REQUESTS
            &&& !success.contains(entries[i].0)
        }
    &&& forall|i: int, j: int|
        0 <= i < j < entries.len() ==> #[trigger] entries[i].0 != #[trigger] entries[j].0
}

/// How `status` is classified given a success set and a table of
/// failures: success first, then the two universal failures, then the
/// table, and any other status is unexpected.
pub open spec fn classify_spec<V>(success: Seq<u16>, entries: Seq<(u16, V)>, status: u16) -> Class<V> {
    if success.contains(status) {
        Class::Success
    } else if status == UNAUTHORIZED {
        Class::AuthenticationFailed
    } else if status == TOO_MANY_REQUESTS {
        Class::RateLimitExceeded
    } else {
        match lookup(entries, status) {
            Some(v) => Class::Listed(v),
            None => Class::UnexpectedStatus(status),
        }
    }
}

/// The statuses of one endpoint: those that carry its output, and those
/// that name one of its failures. The two universal failures are part
/// of every table and cannot be listed again.
pub struct StatusTable<V> {
    pub success: Vec<u16>,
    pub entries: Vec<(u16, V)>,
}

fn contains_status(v: &Vec<u16>, status: u16) -> (r: bool)
    ensures
        r == v@.contains(status),
{
    let mut i: usize = 0;
    while i < v.len()
        invariant
            i <= v.len(),
            forall|j: int| 0 <= j < i ==> v@[j] != status,
        decreases v.len() - i,
    {
        if v[i] == status {
            return true;
        }
        i = i + 1;
    }
    false
}

impl<V: Copy> StatusTable<V> {
    /// The table is well formed.
    pub open spec fn wf(&self) -> bool {
        table_ok(self.success@, self.entries@)
    }

    /// How this table classifies `status`.
    pub open spec fn class_of(&self, status: u16) -> Class<V> {
        classify_spec(self.success@, self.entries@, status)
    }

    /// Builds a table from a success set and the endpoint's failures.
    /// A table that lists a universal status, lists a status twice, or
    /// names a status as both success and failure is refused.
    pub fn new(success: Vec<u16>, entries: Vec<(u16, V)>) -> (r: Option<Self>)
        ensures
            r is Some <==> table_ok(success@, entries@),
            r matches Some(t) ==> t.success@ == success@ && t.entries@ == entries@,
    {
        if contains_status(&success, UNAUTHORIZED) || contains_status(&success, TOO_MANY_REQUESTS) {
            return None;
        }
        let mut i: usize = 0;
        while i < entries.len()
            invariant
                i <= entries.len(),
                !success@.contains(UNAUTHORIZED),
                !success@.contains(TOO_MANY_REQUESTS),
                forall|k: int|
                    0 <= k < i ==> {
                        &&& #[trigger] entries@[k].0 != UNAUTHORIZED
                        &&& entries@[k].0 != TOO_MANY_REQUESTS
                        &&& !success@.contains(entries@[k].0)
                    },
                forall|k: int, l: int|
                    0 <= k < l < i ==> #[trigger] entries@[k].0 != #[trigger] entries@[l].0,
            decreases entries.len() - i,
        {
            let s = entries[i].0;
            if s == UNAUTHORIZED || s == TOO_MANY_REQUESTS || contains_status(&success, s) {
                assert(!table_ok(success@, entries@));
                return None;
            }
            let mut j: usize = 0;
            while j < i
                invariant
                    j <= i < entries.len(),
                    s == entries@[i as int].0,
                    forall|k: int| 0 <= k < j ==> #[trigger] entries@[k].0 != s,
                decreases i - j,
            {
                if entries[j].0 == s {
                    assert(!table_ok(success@, entries@));
                    return None;
                }
                j = j + 1;
            }
            i = i + 1;
        }
        Some(StatusTable { success, entries })
    }

    /// Classifies a response status.
    pub fn classify(&self, status: u16) -> (r: Class<V>)
        requires
            self.wf(),
        ensures
            r == self.class_of(status),
    {
        if contains_status(&self.success, status) {
            return Class::Success;
        }
        if status == UNAUTHORIZED {
            return Class::AuthenticationFailed;
        }
        if status == TOO_MANY_REQUESTS {
            return Class::RateLimitExceeded;
        }
        let mut i: usize = 0;
        while i < self.entries.len()
            invariant
                self.wf(),
                i <= self.entries.len(),
                forall|k: int| 0 <= k < i ==> #[trigger] self.entries@[k].0 != status,
            decreases self.entries.len() - i,
        {
            let (s, v) = self.entries[i];
            if s == status {
                proof {
                    let e = self.entries@;
                    assert(0 <= i < e.len() && e[i as int].0 == status);
                    let c = choose|c: int| 0 <= c < e.len() && e[c].0 == status;
                    if c != i as int {
                        if c < i {
                            assert(e[c].0 != e[i as int].0);
                        } else {
                            assert(e[i as int].0 != e[c].0);
                        }
                    }
                }
                return Class::Listed(v);
            }
            i = i + 1;
        }
        Class::UnexpectedStatus(status)
    }
}

/// Every status that a table declares a success is classified as one.
pub proof fn lemma_success_statuses<V>(t: StatusTable<V>, status: u16)
    requires
        t.success@.contains(status),
    ensures
        classify_spec(t.success@, t.entries@, status) == Class::<V>::Success,
{
}

/// A status that a well-formed table neither declares a success nor
/// lists, and that is neither of the universal statuses, is unexpected.
pub proof fn lemma_unlisted_statuses<V>(t: StatusTable<V>, status: u16)
    requires
        table_ok(t.success@, t.entries@),
        !t.success@.contains(status),
        status != UNAUTHORIZED,
        status != TOO_MANY_REQUESTS,
        forall|i: int| 0 <= i < t.entries@.len() ==> t.entries@[i].0 != status,
    ensures
        classify_spec(t.success@, t.entries@, status) == Class::<V>::UnexpectedStatus(status),
{
}

/// Whatever a well-formed table lists, 401 means that the credentials
/// were rejected and 429 that the rate limit was exceeded.
pub proof fn lemma_universal_statuses<V>(t: StatusTable<V>)
    requires
        table_ok(t.success@, t.entries@),
    ensures
        classify_spec(t.success@, t.entries@, UNAUTHORIZED) == Class::<V>::AuthenticationFailed,
        classify_spec(t.success@, t.entries@, TOO_MANY_REQUESTS) == Class::<V>::RateLimitExceeded,
{
}


/// The result of converting a response, as the client hands it on.
#[derive(Debug)]
pub struct ConvertResult<T, E>(pub Result<T, E>);

impl<T, E> ConvertResult<T, E> {
    /// The result that this value carries.
    pub fn into(self) -> (r: Result<T, E>)
        ensures
            r == self.0,
    {
        self.0
    }
}


/// The header that carries the key id.
pub const HDR_KEY_ID: &'static str = "APCA-API-KEY-ID";

/// The header that carries the secret.
pub const HDR_SECRET: &'static str = "APCA-API-SECRET-KEY";

/// A request as the transport is to send it: the method, the path and
/// query that replace those of the service's base URL, the headers and
/// the body.
#[derive(Debug)]
pub struct Request {
    pub method: Method,
    pub path: String,
    pub query: Option<String>,
    pub headers: Vec<(String, Vec<u8>)>,
    pub body: Vec<u8>,
}

/// The names and values of headers.
pub open spec fn headers_view(h: Seq<(String, Vec<u8>)>) -> Seq<(Seq<char>, Seq<u8>)> {
    h.map_values(|p: (String, Vec<u8>)| (p.0@, p.1@))
}

/// The authentication headers: the key id and the secret, verbatim.
pub open spec fn auth_headers(key_id: Seq<u8>, secret: Seq<u8>) -> Seq<(Seq<char>, Seq<u8>)> {
    seq![(HDR_KEY_ID@, key_id), (HDR_SECRET@, secret)]
}

/// Puts together a request with the authentication headers.
pub fn assemble(
    method: Method,
    path: String,
    query: Option<String>,
    key_id: &[u8],
    secret: &[u8],
    body: Vec<u8>,
) -> (r: Request)
    ensures
        r.method == method,
        r.path == path,
        r.query == query,
        r.body == body,
        headers_view(r.headers@) == auth_headers(key_id@, secret@),
{
    let mut headers: Vec<(String, Vec<u8>)> = Vec::new();
    headers.push((String::from_str(HDR_KEY_ID), vstd::slice::slice_to_vec(key_id)));
    headers.push((String::from_str(HDR_SECRET), vstd::slice::slice_to_vec(secret)));
    assert(headers_view(headers@) =~= auth_headers(key_id@, secret@));
    Request { method, path, query, headers, body }
}


/// The text of an optional string.
pub open spec fn text_of(s: Option<String>) -> Option<Seq<char>> {
    match s {
        Some(t) => Some(t@),
        None => None,
    }
}

/// The errors of putting a request together.
#[derive(Debug)]
pub enum EndpointError {
    /// An HTTP related error.
    Http(hyper::http::Error),
    /// The body could not be serialized.
    Json(serde_json::Error),
    /// The query could not be encoded.
    Query(serde_urlencoded::ser::Error),
}

/// The method of an endpoint that names no other: GET.
pub fn default_method() -> (r: Method)
    ensures
        r == Method::Get,
{
    Method::Get
}

/// The query of an endpoint that sends none.
pub fn default_query<I>(input: &I) -> (r: Result<Option<String>, serde_urlencoded::ser::Error>)
    ensures
        r matches Ok(q) && q is None,
{
    Ok(None)
}

/// The body of an endpoint that sends none: empty.
pub fn default_body<I>(input: &I) -> (r: Result<Vec<u8>, serde_json::Error>)
    ensures
        r matches Ok(b) && b@.len() == 0,
{
    Ok(Vec::new())
}

/// One HTTP operation of the service: how a typed input becomes a
/// request, and how a response becomes a typed output or error.
///
/// An endpoint without a method, query or body of its own uses
/// `default_method`, `default_query` and `default_body`.
pub trait Endpoint {
    /// The data that a request is made from.
    type Input;
    /// The data that a success carries.
    type Output;
    /// The errors that the endpoint reports.
    type Error;

    /// The request method.
    spec fn spec_method() -> Method;

    /// The path of a request.
    spec fn spec_path(input: &Self::Input) -> Seq<char>;

    /// Whether the query of a request can be encoded.
    spec fn spec_query_ok(input: &Self::Input) -> bool;

    /// The query of a request, if it has one.
    spec fn spec_query(input: &Self::Input) -> Option<Seq<char>>;

    /// The body of a request; none where it cannot be serialized.
    spec fn spec_body(input: &Self::Input) -> Option<Seq<u8>>;

    /// Whether a response with `status` carries the output.
    spec fn spec_success(status: u16) -> bool;

    /// The error for a status that is not a success.
    spec fn spec_failure(status: u16, body: Vec<u8>) -> Self::Error;

    /// The result for what the decoder made of a success body.
    spec fn spec_decoded(d: Result<Self::Output, serde_json::Error>) -> Result<Self::Output, Self::Error>;

    /// The request method.
    fn method() -> (r: Method)
        ensures
            r == Self::spec_method(),
    ;

    /// The path of a request, a function of the input alone.
    fn path(input: &Self::Input) -> (r: String)
        ensures
            r@ == Self::spec_path(input),
    ;

    /// The query of a request, form encoded.
    fn query(input: &Self::Input) -> (r: Result<Option<String>, serde_urlencoded::ser::Error>)
        ensures
            r is Ok <==> Self::spec_query_ok(input),
            r matches Ok(q) ==> text_of(q) == Self::spec_query(input),
    ;

    /// The body of a request, serialized.
    fn body(input: &Self::Input) -> (r: Result<Vec<u8>, serde_json::Error>)
        ensures
            r is Ok <==> Self::spec_body(input) is Some,
            r matches Ok(b) ==> Self::spec_body(input) == Some(b@),
    ;

    /// Converts a response. On a success status the body is handed to
    /// `parse`, and what it returns decides the result; on any other
    /// status `parse` is not called and the status decides the error.
    fn convert<F>(status: u16, body: Vec<u8>, parse: F) -> (r: ConvertResult<Self::Output, Self::Error>)
        where
            F: FnOnce(&Vec<u8>) -> Result<Self::Output, serde_json::Error>,
        requires
            forall|b: &Vec<u8>| #[trigger] parse.requires((b,)),
        ensures
            Self::spec_success(status) ==> exists|d: Result<Self::Output, serde_json::Error>|
                #[trigger] parse.ensures((&body,), d) && r.0 == Self::spec_decoded(d),
            !Self::spec_success(status) ==> r.0 == Err::<Self::Output, Self::Error>(
                Self::spec_failure(status, body),
            ),
    ;

    /// The request for `input`, authenticated with `key_id` and `secret`
    /// sent verbatim. It is built exactly where the query can be encoded
    /// and the body serialized.
    fn request(key_id: &[u8], secret: &[u8], input: &Self::Input) -> (r: Result<Request, EndpointError>)
        ensures
            r is Ok <==> Self::spec_query_ok(input) && Self::spec_body(input) is Some,
            r matches Ok(q) ==> {
                &&& q.method == Self::spec_method()
                &&& q.path@ == Self::spec_path(input)
                &&& text_of(q.query) == Self::spec_query(input)
                &&& headers_view(q.headers@) == auth_headers(key_id@, secret@)
                &&& Self::spec_body(input) == Some(q.body@)
            },
    {
        let query = match Self::query(input) {
            Ok(q) => q,
            Err(e) => return Err(EndpointError::Query(e)),
        };
        let body = match Self::body(input) {
            Ok(b) => b,
            Err(e) => return Err(EndpointError::Json(e)),
        };
        Ok(assemble(Self::method(), Self::path(input), query, key_id, secret, body))
    }
}

} // verus!
