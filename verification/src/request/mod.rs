//! Transport-agnostic requests and the wire-level requests made of them.

use vstd::prelude::*;
use vstd::string::*;

pub mod caches;
pub mod counters;
pub mod entries;

verus! {

/// A header list as contracts see it: pairs of name and value, in stored order.
pub type HeaderSeq = Seq<(Seq<char>, Seq<char>)>;

/// The pairs of a list of owned strings, each string by its view.
pub open spec fn pairs_view(entries: Seq<(String, String)>) -> HeaderSeq {
    Seq::new(entries.len(), |i: int| (entries[i].0@, entries[i].1@))
}

/// No name occurs twice.
pub open spec fn names_distinct(entries: HeaderSeq) -> bool {
    forall|i: int, j: int|
        0 <= i < j < entries.len() ==> (#[trigger] entries[i]).0 != (#[trigger] entries[j]).0
}

/// Whether some entry has this name.
pub open spec fn has_name(entries: HeaderSeq, name: Seq<char>) -> bool {
    exists|i: int| 0 <= i < entries.len() && (#[trigger] entries[i]).0 == name
}

/// The place of an entry with this name, where there is one.
pub open spec fn index_of(entries: HeaderSeq, name: Seq<char>) -> int {
    choose|i: int| 0 <= i < entries.len() && (#[trigger] entries[i]).0 == name
}

/// The entries after `name` has been set to `value`: an entry of that name is
/// replaced where it stands, a new name goes to the end.
pub open spec fn inserted(entries: HeaderSeq, name: Seq<char>, value: Seq<char>) -> HeaderSeq {
    if has_name(entries, name) {
        entries.update(index_of(entries, name), (name, value))
    } else {
        entries.push((name, value))
    }
}

/// The mapping from name to value that the entries stand for.
pub open spec fn header_map(entries: HeaderSeq) -> Map<Seq<char>, Seq<char>> {
    Map::new(
        |name: Seq<char>| has_name(entries, name),
        |name: Seq<char>| entries[index_of(entries, name)].1,
    )
}

/// Setting a header is an insertion into the mapping, and keeps names distinct.
pub proof fn lemma_inserted_is_map_insert(entries: HeaderSeq, name: Seq<char>, value: Seq<char>)
    requires
        names_distinct(entries),
    ensures
        names_distinct(inserted(entries, name, value)),
        header_map(inserted(entries, name, value)) == header_map(entries).insert(name, value),
{
    let after = inserted(entries, name, value);
    if has_name(entries, name) {
        assert forall|k: Seq<char>| has_name(after, k) == has_name(entries, k) by {
            if has_name(entries, k) {
                assert(after[index_of(entries, k)].0 == k);
            }
            if has_name(after, k) {
                assert(entries[index_of(after, k)].0 == k);
            }
        }
        assert forall|k: Seq<char>| has_name(after, k) implies after[index_of(after, k)].1 == (if k
            == name {
            value
        } else {
            entries[index_of(entries, k)].1
        }) by {
            assert(entries[index_of(after, k)].0 == k);
            assert(index_of(after, k) == index_of(entries, k));
        }
    } else {
        assert forall|k: Seq<char>| has_name(after, k) == (k == name || has_name(entries, k)) by {
            if has_name(entries, k) {
                assert(after[index_of(entries, k)].0 == k);
            }
            if k == name {
                assert(after[entries.len() as int].0 == k);
            }
        }
        assert forall|k: Seq<char>| has_name(after, k) implies after[index_of(after, k)].1 == (if k
            == name {
            value
        } else {
            entries[index_of(entries, k)].1
        }) by {
            if k != name {
                assert(entries[index_of(after, k)].0 == k);
                assert(index_of(after, k) == index_of(entries, k));
            }
        }
    }
    assert(header_map(after) =~= header_map(entries).insert(name, value));
}

/// The headers that a request adds to the mandatory ones. Each name occurs at
/// most once; setting a name again replaces its value.
#[derive(Debug)]
pub struct Headers {
    entries: Vec<(String, String)>,
}

impl View for Headers {
    type V = HeaderSeq;

    closed spec fn view(&self) -> HeaderSeq {
        pairs_view(self.entries@)
    }
}

impl Headers {
    #[verifier::type_invariant]
    spec fn well_formed(&self) -> bool {
        names_distinct(self@)
    }

    /// No headers.
    pub fn new() -> (headers: Self)
        ensures
            headers@ == HeaderSeq::empty(),
    {
        let headers = Headers { entries: Vec::new() };
        assert(headers@ =~= HeaderSeq::empty());
        headers
    }

    /// The number of headers. No two of them have the same name.
    pub fn len(&self) -> (n: usize)
        ensures
            n == self@.len(),
            names_distinct(self@),
    {
        proof {
            use_type_invariant(self);
        }
        self.entries.len()
    }

    /// The place of the header `name`, where it is set.
    fn position(&self, name: &str) -> (place: Option<usize>)
        ensures
            names_distinct(self@),
            match place {
                Some(i) => has_name(self@, name@) && i == index_of(self@, name@) && i < self@.len(),
                None => !has_name(self@, name@),
            },
    {
        proof {
            use_type_invariant(self);
        }
        let wanted = String::from_str(name);
        let mut i: usize = 0;
        while i < self.entries.len()
            invariant
                i <= self.entries.len(),
                names_distinct(self@),
                wanted@ == name@,
                forall|j: int| 0 <= j < i ==> (#[trigger] self@[j]).0 != name@,
            decreases self.entries.len() - i,
        {
            if self.entries[i].0 == wanted {
                assert(self@[i as int].0 == name@);
                assert(index_of(self@, name@) == i);
                return Some(i);
            }
            i += 1;
        }
        None
    }

    /// Sets the header `name` to `value`.
    pub fn insert(&mut self, name: String, value: String)
        ensures
            final(self)@ == inserted(old(self)@, name@, value@),
    {
        let ghost before = self@;
        let place = self.position(name.as_str());
        proof {
            lemma_inserted_is_map_insert(before, name@, value@);
        }
        let mut entries: Vec<(String, String)> = Vec::new();
        core::mem::swap(&mut entries, &mut self.entries);
        match place {
            Some(i) => {
                entries[i] = (name, value);
            },
            None => {
                entries.push((name, value));
            },
        }
        assert(pairs_view(entries@) =~= inserted(before, name@, value@));
        self.entries = entries;
    }

    /// The value of the header `name`, where it is set.
    pub fn get(&self, name: &str) -> (value: Option<&String>)
        ensures
            names_distinct(self@),
            match value {
                Some(v) => has_name(self@, name@) && self@[index_of(self@, name@)].1 == v@,
                None => !has_name(self@, name@),
            },
    {
        match self.position(name) {
            Some(i) => Some(&self.entries[i].1),
            None => None,
        }
    }

    /// The name of the header at place `i`.
    pub fn name_at(&self, i: usize) -> (name: &String)
        requires
            i < self@.len(),
        ensures
            name@ == self@[i as int].0,
    {
        &self.entries[i].0
    }

    /// The value of the header at place `i`.
    pub fn value_at(&self, i: usize) -> (value: &String)
        requires
            i < self@.len(),
        ensures
            value@ == self@[i as int].1,
    {
        &self.entries[i].1
    }
}

/// The HTTP methods that the server's REST interface uses.
#[derive(Debug, Clone, Copy, PartialEq, Eq, Structural)]
pub enum Method {
    Get,
    Head,
    Post,
    Put,
    Delete,
}

impl Method {
    /// The method's name as it is written on the wire.
    pub open spec fn name(self) -> Seq<char> {
        match self {
            Method::Get => "GET"@,
            Method::Head => "HEAD"@,
            Method::Post => "POST"@,
            Method::Put => "PUT"@,
            Method::Delete => "DELETE"@,
        }
    }

    pub fn as_str(&self) -> (name: &'static str)
        ensures
            name@ == self.name(),
    {
        match self {
            Method::Get => "GET",
            Method::Head => "HEAD",
            Method::Post => "POST",
            Method::Put => "PUT",
            Method::Delete => "DELETE",
        }
    }
}

/// A request to the server before it is bound to a transport: what to do, to
/// which resource, with which extra headers and which body.
#[derive(Debug)]
pub struct Request {
    pub method: Method,
    pub path_and_query: String,
    pub headers: Headers,
    pub body: Option<String>,
}

/// A [`Request`] as contracts see it.
pub struct RequestView {
    pub method: Method,
    pub path_and_query: Seq<char>,
    pub headers: HeaderSeq,
    pub body: Option<Seq<char>>,
}

impl View for Request {
    type V = RequestView;

    open spec fn view(&self) -> RequestView {
        RequestView {
            method: self.method,
            path_and_query: self.path_and_query@,
            headers: self.headers@,
            body: match self.body {
                Some(body) => Some(body@),
                None => None,
            },
        }
    }
}

impl Request {
    pub fn new(
        method: Method,
        path_and_query: String,
        headers: Headers,
        body: Option<String>,
    ) -> (request: Request)
        ensures
            request.method == method,
            request.path_and_query == path_and_query,
            request.headers == headers,
            request.body == body,
    {
        Request { method, path_and_query, headers, body }
    }
}

/// A request as it goes over the wire: the full URI, every header in the order
/// in which it is set, and the body.
#[derive(Debug)]
pub struct HttpRequest {
    pub method: Method,
    pub uri: String,
    pub headers: Vec<(String, String)>,
    pub body: String,
}

/// An [`HttpRequest`] as contracts see it.
pub struct HttpRequestView {
    pub method: Method,
    pub uri: Seq<char>,
    pub headers: HeaderSeq,
    pub body: Seq<char>,
}

impl View for HttpRequest {
    type V = HttpRequestView;

    open spec fn view(&self) -> HttpRequestView {
        HttpRequestView {
            method: self.method,
            uri: self.uri@,
            headers: pairs_view(self.headers@),
            body: self.body@,
        }
    }
}

/// The two headers that every wire-level request carries, before its own.
pub open spec fn mandatory_headers(basic_auth: Seq<char>) -> HeaderSeq {
    seq![("Content-Type"@, "application/json"@), ("Authorization"@, basic_auth)]
}

/// The wire-level request for `request`, sent to the server at `base_url` with
/// the given value of the `Authorization` header.
pub open spec fn http_request(
    request: RequestView,
    base_url: Seq<char>,
    basic_auth: Seq<char>,
) -> HttpRequestView {
    HttpRequestView {
        method: request.method,
        uri: base_url + request.path_and_query,
        headers: mandatory_headers(basic_auth) + request.headers,
        body: match request.body {
            Some(body) => body,
            None => Seq::empty(),
        },
    }
}

/// What can be turned into a wire-level request.
pub trait ToHttpRequest {
    /// The transport-agnostic request that the value stands for.
    spec fn request(&self) -> RequestView;

    fn to_http_req(&self, base_url: &str, basic_auth_encoded: &str) -> (http_req: HttpRequest)
        ensures
            http_req@ == http_request(self.request(), base_url@, basic_auth_encoded@),
    ;
}

impl ToHttpRequest for Request {
    open spec fn request(&self) -> RequestView {
        self@
    }

    fn to_http_req(&self, base_url: &str, basic_auth_encoded: &str) -> (http_req: HttpRequest) {
        let mut uri = String::from_str(base_url);
        uri.append(self.path_and_query.as_str());
        let mut headers: Vec<(String, String)> = Vec::new();
        headers.push((String::from_str("Content-Type"), String::from_str("application/json")));
        headers.push((String::from_str("Authorization"), String::from_str(basic_auth_encoded)));
        let ghost own = self.headers@;
        let count = self.headers.len();
        let mut i: usize = 0;
        while i < count
            invariant
                i <= count,
                count == own.len(),
                own == self.headers@,
                pairs_view(headers@) == mandatory_headers(basic_auth_encoded@) + own.take(i as int),
            decreases count - i,
        {
            let name = self.headers.name_at(i).clone();
            let value = self.headers.value_at(i).clone();
            let ghost before = headers@;
            headers.push((name, value));
            assert(pairs_view(headers@) =~= pairs_view(before).push(own[i as int]));
            i += 1;
        }
        assert(own.take(count as int) =~= own);
        let body = match &self.body {
            Some(body) => body.clone(),
            None => String::new(),
        };
        HttpRequest { method: self.method, uri, headers, body }
    }
}

} // verus!
