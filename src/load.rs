//! What comes of loading a source: the caller reads the file or performs the
//! request, and these functions turn what it saw into text or an error.
use vstd::prelude::*;

use crate::{ErrorKind, Failure};

verus! {

/// The decimal digit for `d`, which is below ten.
pub open spec fn digit_char(d: nat) -> char {
    seq!['0', '1', '2', '3', '4', '5', '6', '7', '8', '9'][d as int]
}

/// The decimal representation of `n`, most significant digit first, with no
/// leading zeros.
pub open spec fn decimal(n: nat) -> Seq<char>
    decreases n,
{
    if n < 10 {
        seq![digit_char(n)]
    } else {
        decimal(n / 10).push(digit_char(n % 10))
    }
}

/// Whether `code` is an HTTP success status (2xx).
pub open spec fn is_success_code(code: u16) -> bool {
    200 <= code < 300
}

/// Detail of the error for a response with status `code`.
pub open spec fn status_failure(code: u16) -> Seq<char> {
    "Request failed with code "@ + decimal(code as nat)
}

/// What comes of a request to `address`: the status code of its response, or
/// why no response came back.
pub open spec fn response_check(address: Seq<char>, sent: Result<u16, String>) -> Result<
    (),
    Failure,
> {
    match sent {
        Err(m) => Err(Failure::Request(address, m@)),
        Ok(code) => if is_success_code(code) {
            Ok(())
        } else {
            Err(Failure::Request(address, status_failure(code)))
        },
    }
}

/// A response whose status is outside 2xx fails with a `Request` error naming
/// the address, and the error's message holds the status code in decimal.
pub proof fn lemma_failed_status_names_code(address: Seq<char>, code: u16)
    requires
        !is_success_code(code),
    ensures
        response_check(address, Ok::<u16, String>(code)) == Err::<(), Failure>(
            Failure::Request(address, status_failure(code)),
        ),
        exists|i: int|
            0 <= i && i + decimal(code as nat).len() <= crate::failure_message(
                Failure::Request(address, status_failure(code)),
            ).len() && #[trigger] crate::failure_message(
                Failure::Request(address, status_failure(code)),
            ).subrange(i, i + decimal(code as nat).len()) == decimal(code as nat),
{
    let m = crate::failure_message(Failure::Request(address, status_failure(code)));
    let d = decimal(code as nat);
    let head = "Error making request to '"@ + address + "'. "@ + "Request failed with code "@;
    assert(m =~= head + d);
    assert(m.subrange(head.len() as int, head.len() + d.len() as int) =~= d);
}

fn digit_str(d: u16) -> (r: &'static str)
    requires
        d < 10,
    ensures
        r@ == seq![digit_char(d as nat)],
{
    proof {
        reveal_strlit("0");
        reveal_strlit("1");
        reveal_strlit("2");
        reveal_strlit("3");
        reveal_strlit("4");
        reveal_strlit("5");
        reveal_strlit("6");
        reveal_strlit("7");
        reveal_strlit("8");
        reveal_strlit("9");
    }
    let r = match d {
        0 => "0",
        1 => "1",
        2 => "2",
        3 => "3",
        4 => "4",
        5 => "5",
        6 => "6",
        7 => "7",
        8 => "8",
        _ => "9",
    };
    assert(r@ =~= seq![digit_char(d as nat)]);
    r
}

/// Appends the decimal representation of `n` to `out`.
pub fn push_decimal(out: &mut String, n: u16)
    ensures
        final(out)@ == old(out)@ + decimal(n as nat),
    decreases n,
{
    if n >= 10 {
        push_decimal(out, n / 10);
    }
    out.append(digit_str(n % 10));
    proof {
        if n >= 10 {
            assert(decimal(n as nat) == decimal((n / 10) as nat).push(digit_char((n % 10) as nat)));
        }
    }
    assert(final(out)@ =~= old(out)@ + decimal(n as nat));
}

/// Whether `code` is an HTTP success status (2xx).
pub fn is_success(code: u16) -> (r: bool)
    ensures
        r == is_success_code(code),
{
    200 <= code && code < 300
}

/// Decides what a request to `address` came to, from its status code or from
/// why it could not be made: a transport failure or a status outside 2xx is a
/// `Request` error naming `address`.
pub fn response_status(address: &str, sent: Result<u16, String>) -> (r: Result<(), ErrorKind>)
    ensures
        match r {
            Ok(()) => response_check(address@, sent) == Ok::<(), Failure>(()),
            Err(e) => response_check(address@, sent) == Err::<(), Failure>(e@),
        },
{
    match sent {
        Err(m) => Err(ErrorKind::Request(address.to_owned(), m)),
        Ok(code) => {
            if is_success(code) {
                Ok(())
            } else {
                let mut detail = String::from_str("Request failed with code ");
                push_decimal(&mut detail, code);
                Err(ErrorKind::Request(address.to_owned(), detail))
            }
        },
    }
}

/// The text of a response body, or a `Decode` error with the reason it could
/// not be read as text.
pub fn decode_body(body: Result<String, String>) -> (r: Result<String, ErrorKind>)
    ensures
        crate::outcome(r) == match body {
            Ok(t) => Ok::<Seq<char>, Failure>(t@),
            Err(m) => Err(Failure::Decode(m@)),
        },
{
    match body {
        Ok(t) => Ok(t),
        Err(m) => Err(ErrorKind::Decode(m)),
    }
}

/// The text of a local file, verbatim, or a `ReadToString` error with the
/// reason it could not be read.
pub fn import_file(read: Result<String, String>) -> (r: Result<String, ErrorKind>)
    ensures
        crate::outcome(r) == match read {
            Ok(t) => Ok::<Seq<char>, Failure>(t@),
            Err(m) => Err(Failure::ReadToString(m@)),
        },
{
    match read {
        Ok(t) => Ok(t),
        Err(m) => Err(ErrorKind::ReadToString(m)),
    }
}

} // verus!
