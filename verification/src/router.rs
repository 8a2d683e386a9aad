//! Telling requests apart by their first line.
//!
//! The server knows five request lines, each ending in a carriage return and
//! a line feed. A request is whatever bytes were read from a connection; it
//! is classified by the line it begins with, and by nothing after that.

use vstd::prelude::*;

verus! {

/// The method of a request, as far as the server tells methods apart.
#[derive(Clone, Copy, Debug, PartialEq, Eq, Structural)]
pub enum HttpMethod {
    GET,
    POST,
    PUT,
    DELETE,
    INVALID,
}

/// What the server does with a request: which method it is, which file
/// answers it, and for how many seconds the answer is held back first.
#[derive(Clone, Copy, Debug)]
pub struct Route {
    pub method: HttpMethod,
    pub path: &'static str,
    pub delay_secs: u64,
}

/// The bytes of `GET / HTTP/1.1`, with the line end.
pub open spec fn get_line() -> Seq<u8> {
    seq![71u8, 69, 84, 32, 47, 32, 72, 84, 84, 80, 47, 49, 46, 49, 13, 10]
}

/// The bytes of `GET /sleep HTTP/1.1`, with the line end.
pub open spec fn sleep_line() -> Seq<u8> {
    seq![71u8, 69, 84, 32, 47, 115, 108, 101, 101, 112, 32, 72, 84, 84, 80, 47, 49, 46, 49, 13, 10]
}

/// The bytes of `POST / HTTP/1.1`, with the line end.
pub open spec fn post_line() -> Seq<u8> {
    seq![80u8, 79, 83, 84, 32, 47, 32, 72, 84, 84, 80, 47, 49, 46, 49, 13, 10]
}

/// The bytes of `PUT / HTTP/1.1`, with the line end.
pub open spec fn put_line() -> Seq<u8> {
    seq![80u8, 85, 84, 32, 47, 32, 72, 84, 84, 80, 47, 49, 46, 49, 13, 10]
}

/// The bytes of `DELETE / HTTP/1.1`, with the line end.
pub open spec fn delete_line() -> Seq<u8> {
    seq![68u8, 69, 76, 69, 84, 69, 32, 47, 32, 72, 84, 84, 80, 47, 49, 46, 49, 13, 10]
}

/// How long the answer to the sleep request is held back, in seconds.
pub const SLEEP_SECS: u64 = 5;

/// The method of the request that begins with the bytes `buffer`.
pub open spec fn method_of(buffer: Seq<u8>) -> HttpMethod {
    if get_line().is_prefix_of(buffer) || sleep_line().is_prefix_of(buffer) {
        HttpMethod::GET
    } else if post_line().is_prefix_of(buffer) {
        HttpMethod::POST
    } else if put_line().is_prefix_of(buffer) {
        HttpMethod::PUT
    } else if delete_line().is_prefix_of(buffer) {
        HttpMethod::DELETE
    } else {
        HttpMethod::INVALID
    }
}

/// For how many seconds the request that begins with `buffer` is held back:
/// five for the sleep request, none for any other.
pub open spec fn delay_of(buffer: Seq<u8>) -> u64 {
    if sleep_line().is_prefix_of(buffer) {
        SLEEP_SECS
    } else {
        0
    }
}

/// The file that answers a request of the given method: the error page for
/// a request that was not understood, the index page for every other.
pub open spec fn page_of(method: HttpMethod) -> Seq<char> {
    if method is INVALID {
        "404.html"@
    } else {
        "index.html"@
    }
}

/// Whether `buffer` begins with `line`.
pub fn starts_with(buffer: &[u8], line: &[u8]) -> (yes: bool)
    ensures
        yes == line@.is_prefix_of(buffer@),
{
    if line.len() > buffer.len() {
        return false;
    }
    let mut i: usize = 0;
    while i < line.len()
        invariant
            i <= line@.len() <= buffer@.len(),
            forall|k: int| 0 <= k < i ==> line@[k] == buffer@[k],
        decreases line@.len() - i,
    {
        if line[i] != buffer[i] {
            assert(buffer@.subrange(0, line@.len() as int)[i as int] != line@[i as int]);
            return false;
        }
        i += 1;
    }
    assert(line@ =~= buffer@.subrange(0, line@.len() as int));
    true
}

/// Classifies the request that begins with the bytes of `buffer`.
///
/// The five known request lines are told apart; anything else is invalid
/// and is answered with the error page. The sleep request is a `GET` whose
/// answer is held back for five seconds: the wait is the caller's to make.
pub fn parse_request(buffer: &[u8]) -> (route: Route)
    ensures
        route.method == method_of(buffer@),
        route.delay_secs == delay_of(buffer@),
        route.path@ == page_of(route.method),
{
    let get: [u8; 16] = [71, 69, 84, 32, 47, 32, 72, 84, 84, 80, 47, 49, 46, 49, 13, 10];
    let sleep: [u8; 21] = [
        71, 69, 84, 32, 47, 115, 108, 101, 101, 112, 32, 72, 84, 84, 80, 47, 49, 46, 49, 13, 10,
    ];
    let post: [u8; 17] = [80, 79, 83, 84, 32, 47, 32, 72, 84, 84, 80, 47, 49, 46, 49, 13, 10];
    let put: [u8; 16] = [80, 85, 84, 32, 47, 32, 72, 84, 84, 80, 47, 49, 46, 49, 13, 10];
    let delete: [u8; 19] = [
        68, 69, 76, 69, 84, 69, 32, 47, 32, 72, 84, 84, 80, 47, 49, 46, 49, 13, 10,
    ];
    proof {
        assert(get@ =~= get_line());
        assert(sleep@ =~= sleep_line());
        assert(post@ =~= post_line());
        assert(put@ =~= put_line());
        assert(delete@ =~= delete_line());
    }
    if starts_with(buffer, &get) {
        proof {
            lemma_get_is_not_sleep(buffer@);
        }
        Route { method: HttpMethod::GET, path: "index.html", delay_secs: 0 }
    } else if starts_with(buffer, &sleep) {
        Route { method: HttpMethod::GET, path: "index.html", delay_secs: SLEEP_SECS }
    } else if starts_with(buffer, &post) {
        Route { method: HttpMethod::POST, path: "index.html", delay_secs: 0 }
    } else if starts_with(buffer, &put) {
        Route { method: HttpMethod::PUT, path: "index.html", delay_secs: 0 }
    } else if starts_with(buffer, &delete) {
        Route { method: HttpMethod::DELETE, path: "index.html", delay_secs: 0 }
    } else {
        Route { method: HttpMethod::INVALID, path: "404.html", delay_secs: 0 }
    }
}

/// No request begins with both `GET` lines: they part at their sixth byte.
pub proof fn lemma_get_is_not_sleep(buffer: Seq<u8>)
    ensures
        !(get_line().is_prefix_of(buffer) && sleep_line().is_prefix_of(buffer)),
{
    if get_line().is_prefix_of(buffer) && sleep_line().is_prefix_of(buffer) {
        assert(buffer.subrange(0, 16)[5] == get_line()[5]);
        assert(buffer.subrange(0, 21)[5] == sleep_line()[5]);
    }
}

/// The request lines exclude one another, so a request has the method of
/// the one line it begins with: each line alone decides.
pub proof fn law_request_lines_are_exclusive(buffer: Seq<u8>)
    ensures
        post_line().is_prefix_of(buffer) ==> method_of(buffer) is POST,
        put_line().is_prefix_of(buffer) ==> method_of(buffer) is PUT,
        delete_line().is_prefix_of(buffer) ==> method_of(buffer) is DELETE,
        get_line().is_prefix_of(buffer) ==> method_of(buffer) is GET && delay_of(buffer) == 0,
        sleep_line().is_prefix_of(buffer) ==> method_of(buffer) is GET && delay_of(buffer)
            == SLEEP_SECS,
{
    lemma_get_is_not_sleep(buffer);
    if post_line().is_prefix_of(buffer) {
        assert(buffer.subrange(0, 17)[0] == post_line()[0]);
        if get_line().is_prefix_of(buffer) {
            assert(buffer.subrange(0, 16)[0] == get_line()[0]);
        }
        if sleep_line().is_prefix_of(buffer) {
            assert(buffer.subrange(0, 21)[0] == sleep_line()[0]);
        }
    }
    if put_line().is_prefix_of(buffer) {
        assert(buffer.subrange(0, 16)[1] == put_line()[1]);
        if get_line().is_prefix_of(buffer) {
            assert(buffer.subrange(0, 16)[1] == get_line()[1]);
        }
        if sleep_line().is_prefix_of(buffer) {
            assert(buffer.subrange(0, 21)[0] == sleep_line()[0]);
            assert(buffer.subrange(0, 16)[0] == put_line()[0]);
        }
        if post_line().is_prefix_of(buffer) {
            assert(buffer.subrange(0, 17)[1] == post_line()[1]);
        }
    }
    if delete_line().is_prefix_of(buffer) {
        assert(buffer.subrange(0, 19)[0] == delete_line()[0]);
        if get_line().is_prefix_of(buffer) {
            assert(buffer.subrange(0, 16)[0] == get_line()[0]);
        }
        if sleep_line().is_prefix_of(buffer) {
            assert(buffer.subrange(0, 21)[0] == sleep_line()[0]);
        }
        if post_line().is_prefix_of(buffer) {
            assert(buffer.subrange(0, 17)[0] == post_line()[0]);
        }
        if put_line().is_prefix_of(buffer) {
            assert(buffer.subrange(0, 16)[0] == put_line()[0]);
        }
    }
}

} // verus!
