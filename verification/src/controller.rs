//! Building the answer to a request from the contents of the file that
//! answers it.

use vstd::prelude::*;

verus! {

/// The bytes of `HTTP/1.1 200 OK`.
pub open spec fn status_line() -> Seq<u8> {
    seq![72u8, 84, 84, 80, 47, 49, 46, 49, 32, 50, 48, 48, 32, 79, 75]
}

/// The bytes of a line end followed by `Content-Length: `.
pub open spec fn length_header() -> Seq<u8> {
    seq![13u8, 10, 67, 111, 110, 116, 101, 110, 116, 45, 76, 101, 110, 103, 116, 104, 58, 32]
}

/// The bytes of two line ends: the end of the header.
pub open spec fn header_end() -> Seq<u8> {
    seq![13u8, 10, 13, 10]
}

/// The decimal digits of `n` as ASCII bytes, without leading zeros.
pub open spec fn decimal(n: nat) -> Seq<u8>
    decreases n,
{
    if n < 10 {
        seq![(48 + n) as u8]
    } else {
        decimal(n / 10).push((48 + n % 10) as u8)
    }
}

/// The answer that carries `content`: the status line, the length of the
/// content in bytes, an empty line, and the content itself.
pub open spec fn ok_response(content: Seq<u8>) -> Seq<u8> {
    status_line() + length_header() + decimal(content.len()) + header_end() + content
}

/// Writes `n` in decimal, as ASCII bytes.
pub fn format_decimal(n: usize) -> (digits: Vec<u8>)
    ensures
        digits@ == decimal(n as nat),
{
    let mut reversed: Vec<u8> = Vec::new();
    let mut rest: usize = n;
    while rest >= 10
        invariant
            decimal(n as nat) == decimal(rest as nat) + reversed@.reverse(),
        decreases rest,
    {
        let digit: u8 = (48 + rest % 10) as u8;
        proof {
            let tail = reversed@.reverse();
            assert(decimal(rest as nat) == decimal((rest / 10) as nat).push(digit));
            assert(reversed@.push(digit).reverse() =~= seq![digit] + tail);
            assert(decimal((rest / 10) as nat).push(digit) + tail =~= decimal((rest / 10) as nat)
                + (seq![digit] + tail));
        }
        reversed.push(digit);
        rest = rest / 10;
    }
    let mut digits: Vec<u8> = Vec::new();
    digits.push((48 + rest) as u8);
    let mut i: usize = reversed.len();
    while i > 0
        invariant
            i <= reversed@.len(),
            digits@ == decimal(rest as nat) + reversed@.reverse().take(reversed@.len() - i),
            rest < 10,
        decreases i,
    {
        i -= 1;
        proof {
            let tail = reversed@.reverse();
            let done = reversed@.len() - i - 1;
            assert(tail[done] == reversed@[i as int]);
            assert(tail.take(done + 1) =~= tail.take(done).push(tail[done]));
            assert((decimal(rest as nat) + tail.take(done)).push(tail[done]) =~= decimal(
                rest as nat,
            ) + tail.take(done + 1));
        }
        digits.push(reversed[i]);
    }
    proof {
        assert(reversed@.reverse().take(reversed@.len() as int) =~= reversed@.reverse());
    }
    digits
}

/// Appends the bytes of `source` to `target`.
fn append(target: &mut Vec<u8>, source: &[u8])
    ensures
        final(target)@ == old(target)@ + source@,
{
    let mut i: usize = 0;
    while i < source.len()
        invariant
            i <= source@.len(),
            target@ == old(target)@ + source@.take(i as int),
        decreases source@.len() - i,
    {
        proof {
            assert(source@.take(i + 1) =~= source@.take(i as int).push(source@[i as int]));
            assert((old(target)@ + source@.take(i as int)).push(source@[i as int]) =~= old(
                target,
            )@ + source@.take(i + 1));
        }
        target.push(source[i]);
        i += 1;
    }
    proof {
        assert(source@.take(i as int) =~= source@);
    }
}

/// Builds the answer that carries `content`.
fn respond_ok(content: &[u8]) -> (response: Vec<u8>)
    ensures
        response@ == ok_response(content@),
{
    let status: [u8; 15] = [72, 84, 84, 80, 47, 49, 46, 49, 32, 50, 48, 48, 32, 79, 75];
    let header: [u8; 18] = [
        13, 10, 67, 111, 110, 116, 101, 110, 116, 45, 76, 101, 110, 103, 116, 104, 58, 32,
    ];
    let end: [u8; 4] = [13, 10, 13, 10];
    proof {
        assert(status@ =~= status_line());
        assert(header@ =~= length_header());
        assert(end@ =~= header_end());
    }
    let digits = format_decimal(content.len());
    let mut response: Vec<u8> = Vec::new();
    append(&mut response, &status);
    append(&mut response, &header);
    append(&mut response, digits.as_slice());
    append(&mut response, &end);
    append(&mut response, content);
    proof {
        assert(response@ =~= ok_response(content@));
    }
    response
}

/// Answers a `GET` request: `content` is what the file at the request's
/// path holds, and the answer carries it.
pub fn handle_get_request(content: &[u8]) -> (response: Vec<u8>)
    ensures
        response@ == ok_response(content@),
{
    respond_ok(content)
}

/// Answers a request that was not understood: `content` is what the error
/// page holds. The answer carries it, under the same status line as any
/// other answer.
pub fn handle_invalid_request(content: &[u8]) -> (response: Vec<u8>)
    ensures
        response@ == ok_response(content@),
{
    respond_ok(content)
}

/// Answers a `POST` request. Nothing is done with the request, and nothing
/// is sent back.
#[allow(unused_variables)]
pub fn handle_post_request(path: &str, buffer: &[u8]) -> (response: Vec<u8>)
    ensures
        response@ == Seq::<u8>::empty(),
{
    Vec::new()
}

/// Answers a `PUT` request. Nothing is done with the request, and nothing
/// is sent back.
#[allow(unused_variables)]
pub fn handle_put_request(path: &str, buffer: &[u8]) -> (response: Vec<u8>)
    ensures
        response@ == Seq::<u8>::empty(),
{
    Vec::new()
}

/// Answers a `DELETE` request. Nothing is done with the request, and
/// nothing is sent back.
#[allow(unused_variables)]
pub fn handle_delete_request(path: &str) -> (response: Vec<u8>)
    ensures
        response@ == Seq::<u8>::empty(),
{
    Vec::new()
}

} // verus!
