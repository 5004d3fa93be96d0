//! The toy HTTP responder's rules: which page a request asks for, and the
//! bytes of the response that carries it.
use vstd::prelude::*;
use vstd::string::StringSliceAdditionalSpecFns;

verus! {

/// Whether `s` begins with `p`.
pub open spec fn starts_with(s: Seq<u8>, p: Seq<u8>) -> bool {
    p.len() <= s.len() && s.subrange(0, p.len() as int) == p
}

/// The request line for the front page.
pub open spec fn index_request() -> Seq<u8> {
    "GET / HTTP/1.1\r\n".spec_bytes()
}

/// The request line for the slow page.
pub open spec fn sleep_request() -> Seq<u8> {
    "GET /sleep HTTP/1.1\r\n".spec_bytes()
}

/// The decimal digits of `n`, in ASCII, most significant first.
pub open spec fn decimal(n: nat) -> Seq<u8>
    decreases n,
{
    if n < 10 {
        seq![(48 + n) as u8]
    } else {
        decimal(n / 10).push((48 + n % 10) as u8)
    }
}

/// What a request asks for.
#[derive(PartialEq, Eq, Structural, Clone, Copy, Debug)]
pub enum Route {
    /// The front page.
    Index,
    /// The front page, served after a pause.
    Sleep,
    /// Anything else.
    NotFound,
}

/// The route of a request, by its first bytes.
pub open spec fn route_of(request: Seq<u8>) -> Route {
    if starts_with(request, index_request()) {
        Route::Index
    } else if starts_with(request, sleep_request()) {
        Route::Sleep
    } else {
        Route::NotFound
    }
}

/// Whether `s` begins with `p`.
pub fn bytes_start_with(s: &[u8], p: &[u8]) -> (r: bool)
    ensures
        r == starts_with(s@, p@),
{
    if p.len() > s.len() {
        return false;
    }
    let mut i: usize = 0;
    while i < p.len()
        invariant
            p@.len() <= s@.len(),
            i <= p@.len(),
            forall|j: int| 0 <= j < i ==> s@[j] == p@[j],
        decreases p@.len() - i,
    {
        if s[i] != p[i] {
            proof {
                assert(s@.subrange(0, p@.len() as int)[i as int] != p@[i as int]);
            }
            return false;
        }
        i = i + 1;
    }
    proof {
        assert(s@.subrange(0, p@.len() as int) =~= p@);
    }
    true
}

/// The route of `request`: the front page for `GET / HTTP/1.1`, the slow
/// page for `GET /sleep HTTP/1.1`, not found otherwise.
pub fn route(request: &[u8]) -> (r: Route)
    ensures
        r == route_of(request@),
{
    if bytes_start_with(request, "GET / HTTP/1.1\r\n".as_bytes()) {
        Route::Index
    } else if bytes_start_with(request, "GET /sleep HTTP/1.1\r\n".as_bytes()) {
        Route::Sleep
    } else {
        Route::NotFound
    }
}

impl Route {
    /// The status line of the response.
    pub fn status_line(&self) -> (r: &'static str)
        ensures
            r@ == match self {
                Route::Index | Route::Sleep => "HTTP/1.1 200 OK"@,
                Route::NotFound => "HTTP/1.1 404 NOT FOUND"@,
            },
    {
        match self {
            Route::Index | Route::Sleep => "HTTP/1.1 200 OK",
            Route::NotFound => "HTTP/1.1 404 NOT FOUND",
        }
    }

    /// The file whose contents make the body of the response.
    pub fn page(&self) -> (r: &'static str)
        ensures
            r@ == match self {
                Route::Index | Route::Sleep => "hello.html"@,
                Route::NotFound => "404.html"@,
            },
    {
        match self {
            Route::Index | Route::Sleep => "hello.html",
            Route::NotFound => "404.html",
        }
    }

    /// Whether the response waits before it is sent.
    pub fn pauses(&self) -> (r: bool)
        ensures
            r == (*self == Route::Sleep),
    {
        match self {
            Route::Sleep => true,
            _ => false,
        }
    }
}

/// Appends the bytes of `b` to `v`.
fn push_all(v: &mut Vec<u8>, b: &[u8])
    ensures
        final(v)@ == old(v)@ + b@,
{
    let mut i: usize = 0;
    while i < b.len()
        invariant
            i <= b@.len(),
            v@ == old(v)@ + b@.subrange(0, i as int),
        decreases b@.len() - i,
    {
        v.push(b[i]);
        i = i + 1;
        proof {
            assert(b@.subrange(0, i as int) =~= b@.subrange(0, i - 1).push(b@[i - 1]));
        }
    }
    proof {
        assert(b@.subrange(0, i as int) =~= b@);
    }
}

/// The decimal digits of `n`, in ASCII.
pub fn decimal_digits(n: usize) -> (r: Vec<u8>)
    ensures
        r@ == decimal(n as nat),
{
    let mut m: usize = n;
    let mut tail: Vec<u8> = Vec::new();
    while m >= 10
        invariant
            decimal(n as nat) == decimal(m as nat) + tail@,
        decreases m,
    {
        let d: u8 = (48 + m % 10) as u8;
        proof {
            assert(decimal(m as nat) == decimal((m / 10) as nat).push(d));
            assert(decimal((m / 10) as nat).push(d) + tail@ =~= decimal((m / 10) as nat) + (
            seq![d] + tail@));
        }
        tail.insert(0, d);
        m = m / 10;
    }
    let mut r: Vec<u8> = Vec::new();
    r.push((48 + m) as u8);
    push_all(&mut r, tail.as_slice());
    proof {
        assert(r@ =~= decimal(m as nat) + tail@);
    }
    r
}

/// The bytes of a response: the status line, a `Content-Length` header
/// that gives the length of `body` in bytes, an empty line, and `body`.
pub fn response(status_line: &str, body: &str) -> (r: Vec<u8>)
    ensures
        r@ == status_line.spec_bytes() + "\r\nContent-Length: ".spec_bytes() + decimal(
            body.spec_bytes().len(),
        ) + "\r\n\r\n".spec_bytes() + body.spec_bytes(),
{
    let body_bytes = body.as_bytes();
    let mut r: Vec<u8> = Vec::new();
    push_all(&mut r, status_line.as_bytes());
    push_all(&mut r, "\r\nContent-Length: ".as_bytes());
    let digits = decimal_digits(body_bytes.len());
    push_all(&mut r, digits.as_slice());
    push_all(&mut r, "\r\n\r\n".as_bytes());
    push_all(&mut r, body_bytes);
    proof {
        assert(r@ =~= Seq::<u8>::empty() + status_line.spec_bytes() + "\r\nContent-Length: ".spec_bytes()
            + decimal(body.spec_bytes().len()) + "\r\n\r\n".spec_bytes() + body.spec_bytes());
    }
    r
}

} // verus!
