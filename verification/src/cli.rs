//! Parsing the command line into a startup plan.
//!
//! The arguments arrive as a list, each either its text or `None` when it is
//! not valid Unicode. `--cert` and `--key` take a path, which may be any
//! byte string, so the plan records the *index* of the path argument and the
//! caller reads the file behind it; `--port`, `--host` and `--base-url` take
//! text. A certificate without a key, or a key without a certificate, is
//! rejected once the whole line is read.

use vstd::prelude::*;
use vstd::string::{StringExecFns, StrSliceExecFns};

verus! {

/// Why a command line is rejected.
#[derive(Clone, Copy, PartialEq, Eq, Structural, Debug)]
pub enum CliError {
    /// `--cert` without a following path.
    MissingCertPath,
    /// `--key` without a following path.
    MissingKeyPath,
    /// `--port` without a following argument.
    MissingPort,
    /// The argument after `--port` is not a valid port number.
    InvalidPort,
    /// `--host` without a following argument.
    MissingHost,
    /// The argument after `--host` is not valid Unicode.
    InvalidHost,
    /// `--base-url` without a following argument.
    MissingBaseUrl,
    /// The argument after `--base-url` is not valid Unicode.
    InvalidBaseUrl,
    /// `-h` or `--help` was given; usage text is wanted instead of a start.
    HelpRequested,
    /// The argument at this index is not a recognized option.
    UnknownArgument(usize),
    /// Only one of `--cert` and `--key` was given.
    CertKeyMismatch,
}

/// The startup plan a parsed command line yields. The certificate and key
/// paths are indices into the argument list, so that a path that is not
/// valid Unicode can still be opened by the caller.
#[derive(PartialEq, Eq, Debug)]
pub struct CliPlan {
    pub cert_arg: Option<usize>,
    pub key_arg: Option<usize>,
    pub port: u16,
    pub host: String,
    pub base_url: String,
}

/// The mathematical form of a startup plan.
pub struct CliPlanView {
    pub cert_arg: Option<int>,
    pub key_arg: Option<int>,
    pub port: u16,
    pub host: Seq<char>,
    pub base_url: Seq<char>,
}

impl View for CliPlan {
    type V = CliPlanView;

    open spec fn view(&self) -> CliPlanView {
        CliPlanView {
            cert_arg: match self.cert_arg {
                Some(c) => Some(c as int),
                None => None,
            },
            key_arg: match self.key_arg {
                Some(k) => Some(k as int),
                None => None,
            },
            port: self.port,
            host: self.host@,
            base_url: self.base_url@,
        }
    }
}

/// The plan before any argument is read: no TLS material, port 1965, the
/// loopback host, and a localhost base URL.
pub open spec fn initial_plan() -> CliPlanView {
    CliPlanView {
        cert_arg: None,
        key_arg: None,
        port: 1965,
        host: "127.0.0.1"@,
        base_url: "gemini://localhost/"@,
    }
}

/// True for the value of an ASCII decimal digit.
pub open spec fn is_ascii_digit(c: char) -> bool {
    48 <= c as u32 <= 57
}

/// The numeric value of an ASCII decimal digit.
pub open spec fn digit_value(c: char) -> int
    recommends
        is_ascii_digit(c),
{
    c as u32 - 48
}

/// The number the decimal digits denote, most significant first.
pub open spec fn digits_value(ds: Seq<char>) -> int
    decreases ds.len(),
{
    if ds.len() == 0 {
        0
    } else {
        digits_value(ds.drop_last()) * 10 + digit_value(ds.last())
    }
}

/// The digits of a port string: the string itself, or what follows one
/// leading `+`.
pub open spec fn port_digits(s: Seq<char>) -> Seq<char> {
    if s.len() > 0 && s[0] == '+' {
        s.skip(1)
    } else {
        s
    }
}

/// The port a string denotes: an optional leading `+`, then at least one
/// ASCII decimal digit, denoting a number below two to the sixteenth.
pub open spec fn spec_parse_u16(s: Seq<char>) -> Option<u16> {
    let ds = port_digits(s);
    if ds.len() == 0 {
        None
    } else if !(forall|k: int| 0 <= k < ds.len() ==> is_ascii_digit(#[trigger] ds[k])) {
        None
    } else if digits_value(ds) > 65535 {
        None
    } else {
        Some(digits_value(ds) as u16)
    }
}

/// One step of reading the argument list at index `i` with the plan built so
/// far, mirroring how the options are consumed left to right.
pub open spec fn spec_parse_cli_from(
    args: Seq<Option<Seq<char>>>,
    i: int,
    acc: CliPlanView,
) -> Result<CliPlanView, CliError>
    decreases args.len() - i,
{
    if i < 0 || i >= args.len() {
        Ok(acc)
    } else {
        match args[i] {
            None => Err(CliError::UnknownArgument(i as usize)),
            Some(a) => {
                if a == "--cert"@ {
                    if i + 1 >= args.len() {
                        Err(CliError::MissingCertPath)
                    } else {
                        spec_parse_cli_from(
                            args,
                            i + 2,
                            CliPlanView { cert_arg: Some(i + 1), ..acc },
                        )
                    }
                } else if a == "--key"@ {
                    if i + 1 >= args.len() {
                        Err(CliError::MissingKeyPath)
                    } else {
                        spec_parse_cli_from(args, i + 2, CliPlanView { key_arg: Some(i + 1), ..acc })
                    }
                } else if a == "--port"@ {
                    if i + 1 >= args.len() {
                        Err(CliError::MissingPort)
                    } else {
                        match args[i + 1] {
                            None => Err(CliError::InvalidPort),
                            Some(p) => match spec_parse_u16(p) {
                                None => Err(CliError::InvalidPort),
                                Some(v) => spec_parse_cli_from(
                                    args,
                                    i + 2,
                                    CliPlanView { port: v, ..acc },
                                ),
                            },
                        }
                    }
                } else if a == "--host"@ {
                    if i + 1 >= args.len() {
                        Err(CliError::MissingHost)
                    } else {
                        match args[i + 1] {
                            None => Err(CliError::InvalidHost),
                            Some(h) => spec_parse_cli_from(
                                args,
                                i + 2,
                                CliPlanView { host: h, ..acc },
                            ),
                        }
                    }
                } else if a == "--base-url"@ {
                    if i + 1 >= args.len() {
                        Err(CliError::MissingBaseUrl)
                    } else {
                        match args[i + 1] {
                            None => Err(CliError::InvalidBaseUrl),
                            Some(b) => spec_parse_cli_from(
                                args,
                                i + 2,
                                CliPlanView { base_url: b, ..acc },
                            ),
                        }
                    }
                } else if a == "-h"@ || a == "--help"@ {
                    Err(CliError::HelpRequested)
                } else {
                    Err(CliError::UnknownArgument(i as usize))
                }
            },
        }
    }
}

/// The plan a whole command line yields: the options read left to right from
/// the defaults, then the demand that a certificate and a key come together.
pub open spec fn spec_parse_cli(args: Seq<Option<Seq<char>>>) -> Result<CliPlanView, CliError> {
    match spec_parse_cli_from(args, 0, initial_plan()) {
        Err(e) => Err(e),
        Ok(p) => {
            if (p.cert_arg is Some) == (p.key_arg is Some) {
                Ok(p)
            } else {
                Err(CliError::CertKeyMismatch)
            }
        },
    }
}

/// Parse a port number as an optional leading `+` and decimal digits.
pub fn parse_port(s: &str) -> (r: Option<u16>)
    ensures
        r == spec_parse_u16(s@),
{
    let n = s.unicode_len();
    let start: usize = if n > 0 && s.get_char(0) == '+' {
        1
    } else {
        0
    };
    let ghost ds = s@.subrange(start as int, n as int);
    proof {
        assert(n == s@.len());
        if s@.len() > 0 && s@[0] == '+' {
            assert(ds =~= s@.skip(1));
        } else {
            assert(ds =~= s@);
        }
        assert(ds == port_digits(s@));
    }
    if start >= n {
        return None;
    }
    let mut val: u32 = 0;
    let mut j: usize = start;
    while j < n
        invariant
            start <= j <= n,
            n == s@.len(),
            ds == s@.subrange(start as int, n as int),
            ds == port_digits(s@),
            ds.len() > 0,
            forall|k: int| start <= k < j ==> is_ascii_digit(#[trigger] s@[k]),
            val <= 65535,
            val == digits_value(s@.subrange(start as int, j as int)),
        decreases n - j,
    {
        let c = s.get_char(j);
        let d = c as u32;
        if d < 48 || d > 57 {
            proof {
                assert(ds[j - start] == s@[j as int]);
                assert(!is_ascii_digit(ds[j - start]));
                assert(0 <= j - start < ds.len());
                assert(!(forall|k: int| 0 <= k < ds.len() ==> is_ascii_digit(#[trigger] ds[k])));
                assert(spec_parse_u16(s@) is None);
            }
            return None;
        }
        val = val * 10 + (d - 48);
        proof {
            let pre = s@.subrange(start as int, j as int);
            let cur = s@.subrange(start as int, j + 1);
            assert(cur.drop_last() =~= pre);
            assert(cur.last() == s@[j as int]);
            assert(digit_value(cur.last()) == d - 48);
            assert(val == digits_value(cur));
        }
        j = j + 1;
        if val > 65535 {
            proof {
                if forall|k: int| 0 <= k < ds.len() ==> is_ascii_digit(#[trigger] ds[k]) {
                    assert(forall|k: int| start <= k < n ==> is_ascii_digit(#[trigger] s@[k]))
                        by {
                        assert(forall|k: int|
                            start <= k < n ==> #[trigger] s@[k] == ds[k - start]);
                    }
                    lemma_digits_value_prefix(s@, start as int, j as int, n as int);
                }
            }
            return None;
        }
    }
    proof {
        assert(s@.subrange(start as int, j as int) == ds);
        assert(forall|k: int| 0 <= k < ds.len() ==> is_ascii_digit(#[trigger] ds[k])) by {
            assert(forall|k: int| 0 <= k < ds.len() ==> #[trigger] ds[k] == s@[k + start]);
        }
    }
    Some(val as u16)
}

/// The digits of a prefix denote no more than those of the whole: appending
/// digits never shrinks the value.
proof fn lemma_digits_value_prefix(s: Seq<char>, start: int, mid: int, end: int)
    requires
        0 <= start <= mid <= end <= s.len(),
        forall|k: int| start <= k < end ==> is_ascii_digit(#[trigger] s[k]),
    ensures
        digits_value(s.subrange(start, mid)) <= digits_value(s.subrange(start, end)),
    decreases end - mid,
{
    if mid == end {
        assert(s.subrange(start, mid) == s.subrange(start, end));
    } else {
        let pre = s.subrange(start, mid);
        let cur = s.subrange(start, mid + 1);
        assert(cur.drop_last() =~= pre);
        lemma_digits_value_nonneg(pre);
        assert(is_ascii_digit(cur.last()));
        assert(digits_value(cur) == digits_value(pre) * 10 + digit_value(cur.last()));
        lemma_digits_value_prefix(s, start, mid + 1, end);
    }
}

/// A digit string denotes a nonnegative number.
proof fn lemma_digits_value_nonneg(ds: Seq<char>)
    requires
        forall|k: int| 0 <= k < ds.len() ==> is_ascii_digit(#[trigger] ds[k]),
    ensures
        digits_value(ds) >= 0,
    decreases ds.len(),
{
    if ds.len() > 0 {
        lemma_digits_value_nonneg(ds.drop_last());
    }
}

/// Parse the argument list into a startup plan, reading the options left to
/// right and then demanding that a certificate and a key come together. The
/// path indices in the plan point into `args`.
pub fn parse_cli(args: &Vec<Option<String>>) -> (r: Result<CliPlan, CliError>)
    ensures
        r is Ok <==> spec_parse_cli(args.deep_view()) is Ok,
        r matches Ok(p) ==> p@ == spec_parse_cli(args.deep_view())->Ok_0,
        r matches Err(e) ==> e == spec_parse_cli(args.deep_view())->Err_0,
        r matches Ok(p) ==> (p.cert_arg matches Some(c) ==> c < args.len()),
        r matches Ok(p) ==> (p.key_arg matches Some(k) ==> k < args.len()),
{
    let ghost gargs = args.deep_view();
    let lit_cert: String = "--cert".to_owned();
    let lit_key: String = "--key".to_owned();
    let lit_port: String = "--port".to_owned();
    let lit_host: String = "--host".to_owned();
    let lit_base_url: String = "--base-url".to_owned();
    let lit_h: String = "-h".to_owned();
    let lit_help: String = "--help".to_owned();
    let mut plan = CliPlan {
        cert_arg: None,
        key_arg: None,
        port: 1965,
        host: "127.0.0.1".to_owned(),
        base_url: "gemini://localhost/".to_owned(),
    };
    proof {
        assert(plan@ == initial_plan());
    }
    let mut i: usize = 0;
    while i < args.len()
        invariant
            i <= args.len(),
            gargs == args.deep_view(),
            gargs.len() == args.len(),
            spec_parse_cli_from(gargs, 0, initial_plan()) == spec_parse_cli_from(
                gargs,
                i as int,
                plan@,
            ),
            plan.cert_arg matches Some(c) ==> c < i,
            plan.key_arg matches Some(k) ==> k < i,
            lit_cert@ == "--cert"@,
            lit_key@ == "--key"@,
            lit_port@ == "--port"@,
            lit_host@ == "--host"@,
            lit_base_url@ == "--base-url"@,
            lit_h@ == "-h"@,
            lit_help@ == "--help"@,
        decreases args.len() - i,
    {
        proof {
            assert(gargs[i as int] == args@[i as int].deep_view());
        }
        match &args[i] {
            None => {
                return Err(CliError::UnknownArgument(i));
            },
            Some(a) => {
                if a.eq(&lit_cert) {
                    if i + 1 >= args.len() {
                        return Err(CliError::MissingCertPath);
                    }
                    plan.cert_arg = Some(i + 1);
                    i = i + 2;
                } else if a.eq(&lit_key) {
                    if i + 1 >= args.len() {
                        return Err(CliError::MissingKeyPath);
                    }
                    plan.key_arg = Some(i + 1);
                    i = i + 2;
                } else if a.eq(&lit_port) {
                    if i + 1 >= args.len() {
                        return Err(CliError::MissingPort);
                    }
                    proof {
                        assert(gargs[i + 1] == args@[i + 1].deep_view());
                    }
                    match &args[i + 1] {
                        None => {
                            return Err(CliError::InvalidPort);
                        },
                        Some(p) => {
                            match parse_port(p.as_str()) {
                                None => {
                                    return Err(CliError::InvalidPort);
                                },
                                Some(v) => {
                                    plan.port = v;
                                    i = i + 2;
                                },
                            }
                        },
                    }
                } else if a.eq(&lit_host) {
                    if i + 1 >= args.len() {
                        return Err(CliError::MissingHost);
                    }
                    proof {
                        assert(gargs[i + 1] == args@[i + 1].deep_view());
                    }
                    match &args[i + 1] {
                        None => {
                            return Err(CliError::InvalidHost);
                        },
                        Some(h) => {
                            plan.host = h.clone();
                            i = i + 2;
                        },
                    }
                } else if a.eq(&lit_base_url) {
                    if i + 1 >= args.len() {
                        return Err(CliError::MissingBaseUrl);
                    }
                    proof {
                        assert(gargs[i + 1] == args@[i + 1].deep_view());
                    }
                    match &args[i + 1] {
                        None => {
                            return Err(CliError::InvalidBaseUrl);
                        },
                        Some(b) => {
                            plan.base_url = b.clone();
                            i = i + 2;
                        },
                    }
                } else if a.eq(&lit_h) || a.eq(&lit_help) {
                    return Err(CliError::HelpRequested);
                } else {
                    return Err(CliError::UnknownArgument(i));
                }
            },
        }
    }
    let cert_present = match plan.cert_arg {
        Some(_) => true,
        None => false,
    };
    let key_present = match plan.key_arg {
        Some(_) => true,
        None => false,
    };
    if cert_present != key_present {
        return Err(CliError::CertKeyMismatch);
    }
    Ok(plan)
}

} // verus!
