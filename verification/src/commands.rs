//! The command capability contract and the commands this crate itself
//! defines: the mode-start command and a raw pass-through exchange.

use vstd::prelude::*;
use vstd::string::*;

use crate::channels::ChannelMode;
use crate::errors::Error;
use crate::errors::ErrorKind;
use crate::text::all_digits_in;
use crate::text::decimal;
use crate::text::digit_run_end;
use crate::text::digits_value;
use crate::text::has_prefix_at;
use crate::text::has_seq_at;
use crate::text::is_digit;
use crate::text::lemma_decimal_digits;
use crate::text::lemma_decimal_value;
use crate::text::lemma_digit_run_end_bounds;
use crate::text::lemma_digit_run_end_exact;
use crate::text::parse_usize;
use crate::text::scan_digits;
use crate::text::trim_line_end;

verus! {

/// A decode result with its success value abstracted to its view.
pub open spec fn response_view<R: View>(r: Result<R, Error>) -> Result<R::V, Error> {
    match r {
        Ok(v) => Ok(v.view()),
        Err(e) => Err(e),
    }
}

/// The capability contract a command must satisfy to be dispatchable: render
/// itself as one outbound protocol message, declare the fixed number of
/// response lines to read, and decode the accumulated raw lines into either
/// its typed response or a failure.
pub trait StreamCommand: Sized {
    /// The typed result of a successful decode.
    type Response: View;

    /// The exact text of the outbound message, protocol terminator included.
    spec fn spec_message(&self) -> Seq<char>;

    /// The fixed number of response lines this command's reply occupies.
    spec fn spec_read_lines(&self) -> usize;

    /// What the decode step yields on the raw response text `raw`.
    spec fn spec_receive(self, raw: Seq<char>) -> Result<<Self::Response as View>::V, Error>;

    /// Renders the exact message to send on the wire for this invocation.
    fn message(&self) -> (m: String)
        ensures
            m@ == self.spec_message(),
    ;

    /// How many response lines the dispatcher must read before decoding.
    fn read_lines_count(&self) -> (n: usize)
        ensures
            n == self.spec_read_lines(),
    ;

    /// Decodes the accumulated raw response lines.
    fn receive(self, message: String) -> (r: Result<Self::Response, Error>)
        ensures
            response_view(r) == self.spec_receive(message@),
    ;
}

/// The server's confirmation of a start command: the confirmed mode and the
/// negotiated protocol version and buffer size, which become the new state of
/// the connection.
#[derive(Debug, Clone, Copy, PartialEq, Eq, Structural)]
pub struct StartResponse {
    /// The mode the server confirmed.
    pub mode: ChannelMode,
    /// The protocol version the server reported.
    pub protocol_version: usize,
    /// The buffer size the server reported.
    pub max_buffer_size: usize,
}

impl View for StartResponse {
    type V = StartResponse;

    open spec fn view(&self) -> StartResponse {
        *self
    }
}

/// The channel mode whose canonical name stands at position `i` of `s`.
pub open spec fn mode_name_at(s: Seq<char>, i: int) -> Option<ChannelMode> {
    if has_seq_at(s, i, "search"@) {
        Some(ChannelMode::Search)
    } else if has_seq_at(s, i, "ingest"@) {
        Some(ChannelMode::Ingest)
    } else if has_seq_at(s, i, "control"@) {
        Some(ChannelMode::Control)
    } else {
        None
    }
}

/// The fields a start reply line encodes, in the fixed layout
/// `STARTED <mode> protocol(<version>) buffer(<size>)` with one trailing line
/// terminator allowed; `None` where the line is malformed or a value does not
/// fit in `usize`.
pub open spec fn parse_start_line(raw: Seq<char>) -> Option<StartResponse> {
    let t = trim_line_end(raw);
    if !has_seq_at(t, 0, "STARTED "@) {
        None
    } else {
        match mode_name_at(t, 8) {
            None => None,
            Some(mode) => {
                let i = 8 + mode.name().len() as int;
                if !has_seq_at(t, i, " protocol("@) {
                    None
                } else {
                    let j = i + 10;
                    let k = digit_run_end(t, j);
                    if k == j {
                        None
                    } else if !has_seq_at(t, k, ") buffer("@) {
                        None
                    } else {
                        let l = k + 9;
                        let e = digit_run_end(t, l);
                        if e == l {
                            None
                        } else if e + 1 != t.len() {
                            None
                        } else if t[e] != ')' {
                            None
                        } else {
                            let p = digits_value(t.subrange(j, k));
                            let b = digits_value(t.subrange(l, e));
                            if p <= usize::MAX && b <= usize::MAX {
                                Some(
                                    StartResponse {
                                        mode,
                                        protocol_version: p as usize,
                                        max_buffer_size: b as usize,
                                    },
                                )
                            } else {
                                None
                            }
                        }
                    }
                }
            },
        }
    }
}

/// Decodes a start reply line into the negotiated values.
fn parse_start_response(line: &str) -> (r: Option<StartResponse>)
    ensures
        r == parse_start_line(line@),
{
    proof {
        reveal_strlit("STARTED ");
        reveal_strlit("search");
        reveal_strlit("ingest");
        reveal_strlit("control");
        reveal_strlit(" protocol(");
        reveal_strlit(") buffer(");
    }
    let n: usize = line.unicode_len();
    let tlen: usize = if n >= 2 && line.get_char(n - 2) == '\r' && line.get_char(n - 1) == '\n' {
        n - 2
    } else if n >= 1 && line.get_char(n - 1) == '\n' {
        n - 1
    } else {
        n
    };
    let t: &str = line.substring_char(0, tlen);
    proof {
        assert(t@ =~= trim_line_end(line@));
    }
    if !has_prefix_at(t, 0, "STARTED ") {
        return None;
    }
    let mode: ChannelMode = if has_prefix_at(t, 8, "search") {
        ChannelMode::Search
    } else if has_prefix_at(t, 8, "ingest") {
        ChannelMode::Ingest
    } else if has_prefix_at(t, 8, "control") {
        ChannelMode::Control
    } else {
        return None;
    };
    assert(mode_name_at(t@, 8) == Some(mode));
    let name_len: usize = match mode {
        ChannelMode::Search => 6,
        ChannelMode::Ingest => 6,
        ChannelMode::Control => 7,
    };
    assert(name_len == mode.name().len());
    let i: usize = 8 + name_len;
    if !has_prefix_at(t, i, " protocol(") {
        return None;
    }
    let j: usize = i + 10;
    proof {
        lemma_digit_run_end_bounds(t@, j as int);
    }
    let k: usize = scan_digits(t, j);
    if k == j {
        return None;
    }
    if !has_prefix_at(t, k, ") buffer(") {
        return None;
    }
    let l: usize = k + 9;
    proof {
        lemma_digit_run_end_bounds(t@, l as int);
    }
    let e: usize = scan_digits(t, l);
    if e == l {
        return None;
    }
    if e >= tlen {
        return None;
    }
    if e + 1 != tlen {
        return None;
    }
    if t.get_char(e) != ')' {
        return None;
    }
    let protocol: usize = match parse_usize(t, j, k) {
        Some(v) => v,
        None => {
            return None;
        },
    };
    let buffer: usize = match parse_usize(t, l, e) {
        Some(v) => v,
        None => {
            return None;
        },
    };
    Some(StartResponse { mode, protocol_version: protocol, max_buffer_size: buffer })
}

/// The exact confirmation text the server sends for mode `mode`, protocol
/// version `p` and buffer size `b`, before the line terminator.
pub open spec fn start_line_of(mode: ChannelMode, p: usize, b: usize) -> Seq<char> {
    "STARTED "@ + mode.name() + " protocol("@ + decimal(p as int) + ") buffer("@ + decimal(
        b as int,
    ) + ")"@
}

/// Round trip with the wire: every well-formed confirmation line, terminator
/// included, is decoded — and to exactly the mode, protocol version and
/// buffer size it encodes.
pub proof fn lemma_parse_start_line_exact(mode: ChannelMode, p: usize, b: usize)
    ensures
        parse_start_line(start_line_of(mode, p, b) + "\r\n"@) == Some(
            (StartResponse { mode, protocol_version: p, max_buffer_size: b }),
        ),
{
    reveal_strlit("STARTED ");
    reveal_strlit("search");
    reveal_strlit("ingest");
    reveal_strlit("control");
    reveal_strlit(" protocol(");
    reveal_strlit(") buffer(");
    reveal_strlit(")");
    reveal_strlit("\r\n");
    let name = mode.name();
    let d1 = decimal(p as int);
    let d2 = decimal(b as int);
    lemma_decimal_digits(p as int);
    lemma_decimal_value(p as int);
    lemma_decimal_digits(b as int);
    lemma_decimal_value(b as int);
    let t = start_line_of(mode, p, b);
    let raw = t + "\r\n"@;
    let i = 8 + name.len() as int;
    let j = i + 10;
    let k = j + d1.len() as int;
    let l = k + 9;
    let e = l + d2.len() as int;
    assert(t.len() == e + 1);
    assert(raw[t.len() as int] == '\r');
    assert(raw[t.len() as int + 1] == '\n');
    assert(trim_line_end(raw) =~= t);
    assert(has_seq_at(t, 0, "STARTED "@)) by {
        assert(t.subrange(0, 8) =~= "STARTED "@);
    }
    match mode {
        ChannelMode::Search => {
            assert(has_seq_at(t, 8, "search"@)) by {
                assert(t.subrange(8, 14) =~= "search"@);
            }
        },
        ChannelMode::Ingest => {
            assert(t[8] == 'i');
            assert(!has_seq_at(t, 8, "search"@)) by {
                if has_seq_at(t, 8, "search"@) {
                    assert(t.subrange(8, 14)[0] == 's');
                }
            }
            assert(has_seq_at(t, 8, "ingest"@)) by {
                assert(t.subrange(8, 14) =~= "ingest"@);
            }
        },
        ChannelMode::Control => {
            assert(t[8] == 'c');
            assert(!has_seq_at(t, 8, "search"@)) by {
                if has_seq_at(t, 8, "search"@) {
                    assert(t.subrange(8, 14)[0] == 's');
                }
            }
            assert(!has_seq_at(t, 8, "ingest"@)) by {
                if has_seq_at(t, 8, "ingest"@) {
                    assert(t.subrange(8, 14)[0] == 'i');
                }
            }
            assert(has_seq_at(t, 8, "control"@)) by {
                assert(t.subrange(8, 15) =~= "control"@);
            }
        },
    }
    assert(mode_name_at(t, 8) == Some(mode));
    assert(has_seq_at(t, i, " protocol("@)) by {
        assert(t.subrange(i, i + 10) =~= " protocol("@);
    }
    assert(all_digits_in(t, j, k)) by {
        assert forall|q: int| j <= q < k implies is_digit(t[q]) by {
            assert(t[q] == d1[q - j]);
        }
    }
    assert(t[k] == ')');
    lemma_digit_run_end_exact(t, j, k);
    assert(has_seq_at(t, k, ") buffer("@)) by {
        assert(t.subrange(k, k + 9) =~= ") buffer("@);
    }
    assert(all_digits_in(t, l, e)) by {
        assert forall|q: int| l <= q < e implies is_digit(t[q]) by {
            assert(t[q] == d2[q - l]);
        }
    }
    assert(t[e] == ')');
    lemma_digit_run_end_exact(t, l, e);
    assert(t.subrange(j, k) =~= d1);
    assert(t.subrange(l, e) =~= d2);
    assert(parse_start_line(raw) == Some(
        (StartResponse { mode, protocol_version: p, max_buffer_size: b }),
    ));
}

/// The mode-start command: carries the requested mode and the credential, and
/// decodes the server's one-line confirmation into a [`StartResponse`].
#[derive(Debug, PartialEq, Eq)]
pub struct StartCommand {
    /// The mode the caller asks the connection to be bound to.
    pub mode: ChannelMode,
    /// The credential sent along with the request.
    pub password: String,
}

impl StreamCommand for StartCommand {
    type Response = StartResponse;

    open spec fn spec_message(&self) -> Seq<char> {
        "START "@ + self.mode.name() + " "@ + self.password@ + "\r\n"@
    }

    open spec fn spec_read_lines(&self) -> usize {
        1
    }

    open spec fn spec_receive(self, raw: Seq<char>) -> Result<StartResponse, Error> {
        match parse_start_line(raw) {
            Some(response) => Ok(response),
            None => Err(Error { kind: ErrorKind::WrongResponse }),
        }
    }

    fn message(&self) -> (m: String) {
        let mut m: String = String::from_str("START ");
        m.append(self.mode.to_str());
        m.append(" ");
        m.append(self.password.as_str());
        m.append("\r\n");
        proof {
            assert(m@ =~= self.spec_message());
        }
        m
    }

    fn read_lines_count(&self) -> (n: usize) {
        1
    }

    fn receive(self, message: String) -> (r: Result<StartResponse, Error>) {
        match parse_start_response(message.as_str()) {
            Some(response) => Ok(response),
            None => Err(Error::new(ErrorKind::WrongResponse)),
        }
    }
}

/// A raw exchange through the same dispatch path as every other command: the
/// caller supplies the exact outbound message, terminator included, and gets
/// the single reply line back undecoded.
#[derive(Debug, PartialEq, Eq)]
pub struct RawCommand {
    /// The exact text to send, protocol terminator included.
    pub line: String,
}

impl StreamCommand for RawCommand {
    type Response = String;

    open spec fn spec_message(&self) -> Seq<char> {
        self.line@
    }

    open spec fn spec_read_lines(&self) -> usize {
        1
    }

    open spec fn spec_receive(self, raw: Seq<char>) -> Result<Seq<char>, Error> {
        Ok(raw)
    }

    fn message(&self) -> (m: String) {
        self.line.clone()
    }

    fn read_lines_count(&self) -> (n: usize) {
        1
    }

    fn receive(self, message: String) -> (r: Result<String, Error>) {
        Ok(message)
    }
}

} // verus!
