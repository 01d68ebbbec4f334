//! The protocol response: a two-digit status code, the metadata that follows
//! it on the status line, and an optional text body, serialized as
//! `<status> <meta>\r\n<body?>`.

use vstd::prelude::*;
use vstd::string::StringExecFns;

verus! {

/// The decimal digit character for `d`.
pub open spec fn digit_char(d: int) -> char {
    if d == 0 {
        '0'
    } else if d == 1 {
        '1'
    } else if d == 2 {
        '2'
    } else if d == 3 {
        '3'
    } else if d == 4 {
        '4'
    } else if d == 5 {
        '5'
    } else if d == 6 {
        '6'
    } else if d == 7 {
        '7'
    } else if d == 8 {
        '8'
    } else {
        '9'
    }
}

/// The two decimal digits of a status code.
pub open spec fn status_digits(status: u8) -> Seq<char> {
    seq![digit_char(status as int / 10), digit_char(status as int % 10)]
}

/// The serialized form of a response: status digits, a space, the metadata,
/// CRLF, then the body.
pub open spec fn spec_serialize(status: u8, meta: Seq<char>, body: Seq<char>) -> Seq<char> {
    status_digits(status) + " "@ + meta + "\r\n"@ + body
}

/// A protocol response before serialization.
pub struct Response {
    pub status: u8,
    pub meta: String,
    pub body: Option<String>,
}

impl Response {
    /// A response is well formed when its status code has exactly two digits.
    pub open spec fn wf(self) -> bool {
        10 <= self.status <= 99
    }

    /// The body text, or the empty sequence when there is none.
    pub open spec fn spec_body(self) -> Seq<char> {
        match self.body {
            Some(b) => b@,
            None => Seq::empty(),
        }
    }

    /// The serialized form of this response.
    pub open spec fn spec_serialized(self) -> Seq<char> {
        spec_serialize(self.status, self.meta@, self.spec_body())
    }

    /// Serialize the response for the wire.
    pub fn serialize(&self) -> (r: String)
        requires
            self.wf(),
        ensures
            r@ == self.spec_serialized(),
    {
        let tens: u8 = self.status / 10;
        let ones: u8 = self.status % 10;
        let mut out = String::new();
        out.append(digit_str(tens));
        out.append(digit_str(ones));
        out.append(" ");
        out.append(self.meta.as_str());
        out.append("\r\n");
        match &self.body {
            Some(b) => out.append(b.as_str()),
            None => (),
        }
        proof {
            assert(out@ =~= self.spec_serialized());
        }
        out
    }
}

/// The one-character string for a decimal digit.
fn digit_str(d: u8) -> (r: &'static str)
    requires
        d < 10,
    ensures
        r@ == seq![digit_char(d as int)],
{
    proof {
        reveal_strlit("0");
        reveal_strlit("1");
        reveal_strlit("2");
        reveal_strlit("3");
        reveal_strlit("4");
        reveal_strlit("5");
        reveal_strlit("6");
        reveal_strlit("7");
        reveal_strlit("8");
        reveal_strlit("9");
    }
    let r = match d {
        0 => "0",
        1 => "1",
        2 => "2",
        3 => "3",
        4 => "4",
        5 => "5",
        6 => "6",
        7 => "7",
        8 => "8",
        _ => "9",
    };
    proof {
        assert(r@ =~= seq![digit_char(d as int)]);
    }
    r
}

} // verus!
