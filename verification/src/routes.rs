//! The request-handling glue the pool's jobs are made of: matching the first
//! line of an HTTP request against the fixed route table, and the canned
//! response each route answers with. Reading from and writing to the socket
//! is I/O and stays with the caller; this module only computes.

use vstd::prelude::*;
use vstd::string::{StringExecFns, StringSliceAdditionalSpecFns};

verus! {

/// The routes the table knows: the JSON greeting at `/`, the same greeting
/// behind a deliberately slow handler at `/sleep`, and the fallback.
#[derive(Clone, Copy, Debug, PartialEq, Eq, Structural)]
pub enum Route {
    Root,
    Sleep,
    NotFound,
}

/// `p` is the first `p.len()` bytes of `s`.
pub open spec fn spec_is_prefix(p: Seq<u8>, s: Seq<u8>) -> bool {
    p.len() <= s.len() && p == s.subrange(0, p.len() as int)
}

/// The request line that selects `Route::Root`.
pub open spec fn spec_root_path() -> Seq<u8> {
    "GET / HTTP/1.1\r\n".spec_bytes()
}

/// The request line that selects `Route::Sleep`.
pub open spec fn spec_sleep_path() -> Seq<u8> {
    "GET /sleep HTTP/1.1\r\n".spec_bytes()
}

/// The routing rule: the first route whose request line is a prefix of the
/// raw request wins, in table order; anything else is `NotFound`.
pub open spec fn spec_route_of(request: Seq<u8>) -> Route {
    if spec_is_prefix(spec_root_path(), request) {
        Route::Root
    } else if spec_is_prefix(spec_sleep_path(), request) {
        Route::Sleep
    } else {
        Route::NotFound
    }
}

/// Whether `prefix` is the start of `data`, byte for byte.
fn is_prefix_of(prefix: &[u8], data: &[u8]) -> (r: bool)
    ensures
        r == spec_is_prefix(prefix@, data@),
{
    if prefix.len() > data.len() {
        proof {
            assert(!spec_is_prefix(prefix@, data@));
        }
        return false;
    }
    let mut i: usize = 0;
    while i < prefix.len()
        invariant
            i <= prefix@.len(),
            prefix@.len() <= data@.len(),
            forall|k: int| 0 <= k < i ==> prefix@[k] == data@[k],
        decreases prefix@.len() - i,
    {
        if prefix[i] != data[i] {
            proof {
                assert(prefix@ != data@.subrange(0, prefix@.len() as int));
            }
            return false;
        }
        i = i + 1;
    }
    proof {
        assert(prefix@ =~= data@.subrange(0, prefix@.len() as int));
    }
    true
}

/// Matches a raw request against the route table, in table order.
pub fn match_route(request: &[u8]) -> (r: Route)
    ensures
        r == spec_route_of(request@),
{
    if is_prefix_of("GET / HTTP/1.1\r\n".as_bytes(), request) {
        Route::Root
    } else if is_prefix_of("GET /sleep HTTP/1.1\r\n".as_bytes(), request) {
        Route::Sleep
    } else {
        Route::NotFound
    }
}

impl Route {
    /// The status line this route answers with.
    pub open spec fn spec_status_line(self) -> Seq<char> {
        match self {
            Route::Root => "HTTP/1.1 200 OK"@,
            Route::Sleep => "HTTP/1.1 200 OK"@,
            Route::NotFound => "HTTP/1.1 404 NOT FOUND"@,
        }
    }

    /// The body this route answers with.
    pub open spec fn spec_contents(self) -> Seq<char> {
        match self {
            Route::Root => "{\"hello\": \"world\"}"@,
            Route::Sleep => "{\"hello\": \"world\"}"@,
            Route::NotFound => "404"@,
        }
    }

    /// The decimal digits the response advertises as `Content-Length`; that
    /// they denote the body's byte count is proved by
    /// [`lemma_content_length_matches_body`].
    pub open spec fn spec_content_length_digits(self) -> Seq<char> {
        match self {
            Route::Root => "18"@,
            Route::Sleep => "18"@,
            Route::NotFound => "3"@,
        }
    }

    /// The complete response on the wire: the status line, the fixed
    /// content-type header, the content length (the body's byte count, in
    /// decimal), a blank line, and the body.
    pub open spec fn spec_response(self) -> Seq<char> {
        self.spec_status_line() + "\r\nContent-Type: application/json\r\nContent-Length: "@
            + self.spec_content_length_digits() + "\r\n\r\n"@ + self.spec_contents()
    }

    /// Whether this route's handler is the deliberately slow one.
    pub fn is_slow(self) -> (r: bool)
        ensures
            r == (self is Sleep),
    {
        match self {
            Route::Sleep => true,
            _ => false,
        }
    }

    /// The status line this route answers with.
    pub fn status_line(self) -> (s: &'static str)
        ensures
            s@ == self.spec_status_line(),
    {
        match self {
            Route::Root => "HTTP/1.1 200 OK",
            Route::Sleep => "HTTP/1.1 200 OK",
            Route::NotFound => "HTTP/1.1 404 NOT FOUND",
        }
    }

    /// The body this route answers with.
    pub fn contents(self) -> (s: &'static str)
        ensures
            s@ == self.spec_contents(),
    {
        match self {
            Route::Root => "{\"hello\": \"world\"}",
            Route::Sleep => "{\"hello\": \"world\"}",
            Route::NotFound => "404",
        }
    }

    /// The decimal digits the response advertises as `Content-Length`.
    pub fn content_length_digits(self) -> (s: &'static str)
        ensures
            s@ == self.spec_content_length_digits(),
    {
        match self {
            Route::Root => "18",
            Route::Sleep => "18",
            Route::NotFound => "3",
        }
    }

    /// The complete response for this route, framed part by part.
    pub fn response(self) -> (s: String)
        ensures
            s@ == self.spec_response(),
    {
        let mut s = String::new();
        s.append(self.status_line());
        s.append("\r\nContent-Type: application/json\r\nContent-Length: ");
        s.append(self.content_length_digits());
        s.append("\r\n\r\n");
        s.append(self.contents());
        s
    }
}

/// What a sequence of decimal digit characters denotes.
pub open spec fn spec_decimal_value(digits: Seq<char>) -> int
    decreases digits.len(),
{
    if digits.len() == 0 {
        0
    } else {
        10 * spec_decimal_value(digits.drop_last()) + (digits.last() as int - '0' as int)
    }
}

/// Law: the `Content-Length` digits of every route's response denote exactly
/// the byte count of that response's body (the bodies are ASCII, so their
/// byte count is their character count).
pub proof fn lemma_content_length_matches_body(route: Route)
    ensures
        spec_decimal_value(route.spec_content_length_digits()) == route.spec_contents().len(),
{
    reveal_strlit("18");
    reveal_strlit("3");
    reveal_strlit("{\"hello\": \"world\"}");
    reveal_strlit("404");
    assert(spec_decimal_value(Seq::<char>::empty()) == 0);
    match route {
        Route::Root | Route::Sleep => {
            assert(seq!['1'].drop_last() =~= Seq::<char>::empty());
            assert(seq!['1'].last() == '1');
            assert(spec_decimal_value(seq!['1']) == 1);
            assert("18"@.drop_last() =~= seq!['1']);
            assert("18"@.last() == '8');
            assert(spec_decimal_value("18"@) == 18);
        },
        Route::NotFound => {
            assert("3"@.drop_last() =~= Seq::<char>::empty());
            assert("3"@.last() == '3');
            assert(spec_decimal_value("3"@) == 3);
        },
    }
}

} // verus!
