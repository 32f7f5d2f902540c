//! The wire format of the stream: the HTTP response header that announces a
//! `multipart/x-mixed-replace` body, and the boundary-delimited part that
//! wraps each JPEG frame. The boundary token is the fixed string `frame` and
//! must match between the header and the body markers exactly.
use vstd::prelude::*;
use vstd::string::StringExecFns;

verus! {

/// Decimal digit character for a value below ten.
pub open spec fn spec_digit(d: nat) -> char {
    if d == 0 {
        '0'
    } else if d == 1 {
        '1'
    } else if d == 2 {
        '2'
    } else if d == 3 {
        '3'
    } else if d == 4 {
        '4'
    } else if d == 5 {
        '5'
    } else if d == 6 {
        '6'
    } else if d == 7 {
        '7'
    } else if d == 8 {
        '8'
    } else {
        '9'
    }
}

/// Decimal representation of a natural number, most significant digit first,
/// with no leading zeros (zero itself is the single digit `0`).
pub open spec fn spec_decimal(n: nat) -> Seq<char>
    decreases n,
{
    if n < 10 {
        seq![spec_digit(n)]
    } else {
        spec_decimal(n / 10) + seq![spec_digit(n % 10)]
    }
}

fn digit_str(d: u64) -> (r: &'static str)
    requires
        d < 10,
    ensures
        r@ == seq![spec_digit(d as nat)],
{
    let r: &'static str = if d == 0 {
        proof {
            reveal_strlit("0");
        }
        "0"
    } else if d == 1 {
        proof {
            reveal_strlit("1");
        }
        "1"
    } else if d == 2 {
        proof {
            reveal_strlit("2");
        }
        "2"
    } else if d == 3 {
        proof {
            reveal_strlit("3");
        }
        "3"
    } else if d == 4 {
        proof {
            reveal_strlit("4");
        }
        "4"
    } else if d == 5 {
        proof {
            reveal_strlit("5");
        }
        "5"
    } else if d == 6 {
        proof {
            reveal_strlit("6");
        }
        "6"
    } else if d == 7 {
        proof {
            reveal_strlit("7");
        }
        "7"
    } else if d == 8 {
        proof {
            reveal_strlit("8");
        }
        "8"
    } else {
        proof {
            reveal_strlit("9");
        }
        "9"
    };
    proof {
        assert(r@ =~= seq![spec_digit(d as nat)]);
    }
    r
}

/// Appends the decimal representation of `n` to `s`.
fn push_decimal(s: &mut String, n: u64)
    ensures
        final(s)@ == old(s)@ + spec_decimal(n as nat),
    decreases n,
{
    if n >= 10 {
        push_decimal(s, n / 10);
    }
    let d = n % 10;
    s.append(digit_str(d));
    proof {
        assert(final(s)@ =~= old(s)@ + spec_decimal(n as nat));
    }
}

/// The decimal rendering of `n`, as used for the `Content-Length` value.
pub fn decimal_string(n: u64) -> (r: String)
    ensures
        r@ == spec_decimal(n as nat),
{
    let mut s = String::new();
    push_decimal(&mut s, n);
    proof {
        assert(s@ =~= spec_decimal(n as nat));
    }
    s
}

/// The HTTP response header a session emits on entering its streaming state.
pub open spec fn spec_response_header() -> Seq<char> {
    "HTTP/1.1 200 OK\r\nContent-Type: multipart/x-mixed-replace; boundary=frame\r\n\r\n"@
}

/// Builds the HTTP response header announcing the multipart stream.
pub fn response_header() -> (r: String)
    ensures
        r@ == spec_response_header(),
{
    String::from_str("HTTP/1.1 200 OK\r\nContent-Type: multipart/x-mixed-replace; boundary=frame\r\n\r\n")
}

/// The preamble of one part: boundary marker, part headers, and the blank
/// line separating them from the frame bytes that follow.
pub open spec fn spec_part_head(len: nat) -> Seq<char> {
    "--frame\r\nContent-Type: image/jpeg\r\nContent-Length: "@ + spec_decimal(len) + "\r\n\r\n"@
}

/// The terminator written after the frame bytes of each part.
pub open spec fn spec_part_tail() -> Seq<char> {
    "\r\n"@
}

/// Builds the preamble of a part whose frame holds `len` bytes.
pub fn part_head(len: usize) -> (r: String)
    ensures
        r@ == spec_part_head(len as nat),
{
    let mut s = String::from_str("--frame\r\nContent-Type: image/jpeg\r\nContent-Length: ");
    push_decimal(&mut s, len as u64);
    s.append("\r\n\r\n");
    s
}

/// One part of the multipart body, ready to be written in order: `head`,
/// then `body`, then `tail`.
pub struct Part {
    /// Boundary marker and part headers, ending in a blank line.
    pub head: String,
    /// The frame bytes, exactly as published.
    pub body: Vec<u8>,
    /// The terminating line break.
    pub tail: String,
}

/// A part is well formed for the frame `bytes` when its preamble announces
/// exactly the body's length, the body is the frame itself, and the
/// terminator follows.
pub open spec fn part_wf(p: Part, bytes: Seq<u8>) -> bool {
    &&& p.head@ == spec_part_head(bytes.len())
    &&& p.body@ == bytes
    &&& p.tail@ == spec_part_tail()
}

/// Wraps one frame into a well-formed part.
pub fn build_part(bytes: Vec<u8>) -> (p: Part)
    ensures
        part_wf(p, bytes@),
{
    let head = part_head(bytes.len());
    let tail = String::from_str("\r\n");
    Part { head, body: bytes, tail }
}

} // verus!
