//! Deciding and rendering the answer to one request: the outcome of
//! the application's file lookup is turned into a status and body,
//! and the response is laid out byte for byte — status line,
//! `Content-Length` header, blank line, body. What every wrong path,
//! unsupported method and lookup failure receives is part of the
//! contracts.

use vstd::prelude::*;
use crate::request::RequestV;
use crate::request::CR;
use crate::request::LF;

verus! {

/// The statuses this server sends.
#[derive(Clone, Copy, PartialEq, Eq, Structural, Debug)]
pub enum Status {
    /// 200: the file was found and is the body.
    Success,
    /// 404: nothing exists under the resolved path.
    NotFound,
    /// 405: the method is not one the server supports.
    MethodNotAllowed,
    /// 400: the request line could not be understood.
    BadRequest,
    /// 500: the file exists but could not be read.
    InternalError,
}

/// The numeric code of a status.
pub open spec fn code_of(s: Status) -> int {
    match s {
        Status::Success => 200,
        Status::NotFound => 404,
        Status::MethodNotAllowed => 405,
        Status::BadRequest => 400,
        Status::InternalError => 500,
    }
}

/// The reason phrase of a status.
pub open spec fn reason_of(s: Status) -> Seq<u8> {
    match s {
        Status::Success => seq![79u8, 75u8],
        Status::NotFound => seq![78u8, 111u8, 116u8, 32u8, 70u8, 111u8, 117u8, 110u8, 100u8],
        Status::MethodNotAllowed => seq![
            77u8, 101u8, 116u8, 104u8, 111u8, 100u8, 32u8, 78u8, 111u8, 116u8, 32u8, 65u8, 108u8,
            108u8, 111u8, 119u8, 101u8, 100u8,
        ],
        Status::BadRequest => seq![
            66u8, 97u8, 100u8, 32u8, 82u8, 101u8, 113u8, 117u8, 101u8, 115u8, 116u8,
        ],
        Status::InternalError => seq![
            73u8, 110u8, 116u8, 101u8, 114u8, 110u8, 97u8, 108u8, 32u8, 83u8, 101u8, 114u8, 118u8,
            101u8, 114u8, 32u8, 69u8, 114u8, 114u8, 111u8, 114u8,
        ],
    }
}

/// What the application's file lookup came back with, as
/// specifications speak of it.
pub enum FileOutcomeV {
    /// The file exists; these are its bytes.
    Found { bytes: Seq<u8> },
    /// Nothing exists under the resolved path.
    Missing,
    /// The file exists but reading it failed.
    ReadError,
}

/// What the application's file lookup came back with.
pub enum FileOutcome {
    /// The file exists; these are its bytes.
    Found { bytes: Vec<u8> },
    /// Nothing exists under the resolved path.
    Missing,
    /// The file exists but reading it failed.
    ReadError,
}

impl View for FileOutcome {
    type V = FileOutcomeV;

    open spec fn view(&self) -> FileOutcomeV {
        match self {
            FileOutcome::Found { bytes } => FileOutcomeV::Found { bytes: bytes@ },
            FileOutcome::Missing => FileOutcomeV::Missing,
            FileOutcome::ReadError => FileOutcomeV::ReadError,
        }
    }
}

/// A response before rendering, as specifications speak of it.
pub struct HttpResponseV {
    /// The status sent.
    pub status: Status,
    /// The bytes the `Content-Length` header counts.
    pub body: Seq<u8>,
    /// Whether the body itself is sent; a `HEAD` answer carries the
    /// headers only.
    pub include_body: bool,
}

/// A response before rendering.
pub struct HttpResponse {
    /// The status sent.
    pub status: Status,
    /// The bytes the `Content-Length` header counts.
    pub body: Vec<u8>,
    /// Whether the body itself is sent; a `HEAD` answer carries the
    /// headers only.
    pub include_body: bool,
}

impl View for HttpResponse {
    type V = HttpResponseV;

    open spec fn view(&self) -> HttpResponseV {
        HttpResponseV { status: self.status, body: self.body@, include_body: self.include_body }
    }
}

/// The answer one request is owed, given what the file lookup came
/// back with: a found file is the body of a 200; a missing one a
/// 404; a failed read a 500; an unsupported method a 405 and an
/// unreadable request line a 400, with empty bodies. A `HEAD` answer
/// counts the file's bytes but does not send them.
pub open spec fn respond_spec(req: RequestV, file: FileOutcomeV) -> HttpResponseV {
    match req {
        RequestV::Malformed => HttpResponseV {
            status: Status::BadRequest,
            body: Seq::empty(),
            include_body: true,
        },
        RequestV::Unsupported => HttpResponseV {
            status: Status::MethodNotAllowed,
            body: Seq::empty(),
            include_body: true,
        },
        RequestV::Get { .. } => match file {
            FileOutcomeV::Found { bytes } => HttpResponseV {
                status: Status::Success,
                body: bytes,
                include_body: true,
            },
            FileOutcomeV::Missing => HttpResponseV {
                status: Status::NotFound,
                body: Seq::empty(),
                include_body: true,
            },
            FileOutcomeV::ReadError => HttpResponseV {
                status: Status::InternalError,
                body: Seq::empty(),
                include_body: true,
            },
        },
        RequestV::Head { .. } => match file {
            FileOutcomeV::Found { bytes } => HttpResponseV {
                status: Status::Success,
                body: bytes,
                include_body: false,
            },
            FileOutcomeV::Missing => HttpResponseV {
                status: Status::NotFound,
                body: Seq::empty(),
                include_body: false,
            },
            FileOutcomeV::ReadError => HttpResponseV {
                status: Status::InternalError,
                body: Seq::empty(),
                include_body: false,
            },
        },
    }
}

/// Decides the answer to one classified request from the outcome of
/// the application's file lookup.
pub fn respond(req: &crate::request::Request, file: FileOutcome) -> (r: HttpResponse)
    ensures
        r@ == respond_spec(req@, file@),
{
    match req {
        crate::request::Request::Malformed => HttpResponse {
            status: Status::BadRequest,
            body: Vec::new(),
            include_body: true,
        },
        crate::request::Request::Unsupported => HttpResponse {
            status: Status::MethodNotAllowed,
            body: Vec::new(),
            include_body: true,
        },
        crate::request::Request::Get { .. } => match file {
            FileOutcome::Found { bytes } => HttpResponse {
                status: Status::Success,
                body: bytes,
                include_body: true,
            },
            FileOutcome::Missing => HttpResponse {
                status: Status::NotFound,
                body: Vec::new(),
                include_body: true,
            },
            FileOutcome::ReadError => HttpResponse {
                status: Status::InternalError,
                body: Vec::new(),
                include_body: true,
            },
        },
        crate::request::Request::Head { .. } => match file {
            FileOutcome::Found { bytes } => HttpResponse {
                status: Status::Success,
                body: bytes,
                include_body: false,
            },
            FileOutcome::Missing => HttpResponse {
                status: Status::NotFound,
                body: Vec::new(),
                include_body: false,
            },
            FileOutcome::ReadError => HttpResponse {
                status: Status::InternalError,
                body: Vec::new(),
                include_body: false,
            },
        },
    }
}

/// The decimal rendering of `n` as ASCII digit bytes, most
/// significant first, with no leading zero except for `n == 0`.
pub open spec fn dec_bytes(n: nat) -> Seq<u8>
    decreases n,
{
    if n < 10 {
        seq![(48 + n) as u8]
    } else {
        dec_bytes(n / 10).push((48 + n % 10) as u8)
    }
}

/// The status line: `HTTP/1.1 <code> <reason>` followed by CRLF.
pub open spec fn status_line_bytes(s: Status) -> Seq<u8> {
    seq![72u8, 84u8, 84u8, 80u8, 47u8, 49u8, 46u8, 49u8, 32u8] + dec_bytes(code_of(s) as nat)
        + seq![32u8] + reason_of(s) + seq![CR, LF]
}

/// The header block: `Content-Length: <n>` followed by CRLF and the
/// blank line that ends the head.
pub open spec fn header_bytes(body_len: nat) -> Seq<u8> {
    seq![
        67u8, 111u8, 110u8, 116u8, 101u8, 110u8, 116u8, 45u8, 76u8, 101u8, 110u8, 103u8, 116u8,
        104u8, 58u8, 32u8,
    ] + dec_bytes(body_len) + seq![CR, LF, CR, LF]
}

/// The full rendering of a response: status line, headers, and —
/// unless the answer is to a `HEAD` — the body.
pub open spec fn encode_spec(r: HttpResponseV) -> Seq<u8> {
    status_line_bytes(r.status) + header_bytes(r.body.len()) + (if r.include_body {
        r.body
    } else {
        Seq::empty()
    })
}

/// Appends the decimal rendering of `n`.
fn push_dec(v: &mut Vec<u8>, n: usize)
    ensures
        final(v)@ == old(v)@ + dec_bytes(n as nat),
    decreases n,
{
    if n >= 10 {
        push_dec(v, n / 10);
        v.push(48 + (n % 10) as u8);
        proof {
            assert(v@ =~= old(v)@ + dec_bytes(n as nat));
        }
    } else {
        v.push(48 + n as u8);
        proof {
            assert(v@ =~= old(v)@ + dec_bytes(n as nat));
        }
    }
}

/// Appends the reason phrase of `s`.
fn push_reason(v: &mut Vec<u8>, s: Status)
    ensures
        final(v)@ == old(v)@ + reason_of(s),
{
    match s {
        Status::Success => {
            v.push(79);
            v.push(75);
        },
        Status::NotFound => {
            v.push(78);
            v.push(111);
            v.push(116);
            v.push(32);
            v.push(70);
            v.push(111);
            v.push(117);
            v.push(110);
            v.push(100);
        },
        Status::MethodNotAllowed => {
            v.push(77);
            v.push(101);
            v.push(116);
            v.push(104);
            v.push(111);
            v.push(100);
            v.push(32);
            v.push(78);
            v.push(111);
            v.push(116);
            v.push(32);
            v.push(65);
            v.push(108);
            v.push(108);
            v.push(111);
            v.push(119);
            v.push(101);
            v.push(100);
        },
        Status::BadRequest => {
            v.push(66);
            v.push(97);
            v.push(100);
            v.push(32);
            v.push(82);
            v.push(101);
            v.push(113);
            v.push(117);
            v.push(101);
            v.push(115);
            v.push(116);
        },
        Status::InternalError => {
            v.push(73);
            v.push(110);
            v.push(116);
            v.push(101);
            v.push(114);
            v.push(110);
            v.push(97);
            v.push(108);
            v.push(32);
            v.push(83);
            v.push(101);
            v.push(114);
            v.push(118);
            v.push(101);
            v.push(114);
            v.push(32);
            v.push(69);
            v.push(114);
            v.push(114);
            v.push(111);
            v.push(114);
        },
    }
    proof {
        assert(v@ =~= old(v)@ + reason_of(s));
    }
}

/// The numeric code of `s` as sent on the wire.
pub fn status_code(s: Status) -> (r: u16)
    ensures
        r as int == code_of(s),
{
    match s {
        Status::Success => 200,
        Status::NotFound => 404,
        Status::MethodNotAllowed => 405,
        Status::BadRequest => 400,
        Status::InternalError => 500,
    }
}

/// Appends the status line of `s`.
fn push_status_line(v: &mut Vec<u8>, s: Status)
    ensures
        final(v)@ == old(v)@ + status_line_bytes(s),
{
    v.push(72);
    v.push(84);
    v.push(84);
    v.push(80);
    v.push(47);
    v.push(49);
    v.push(46);
    v.push(49);
    v.push(32);
    let code = status_code(s);
    push_dec(v, code as usize);
    v.push(32);
    push_reason(v, s);
    v.push(CR);
    v.push(LF);
    proof {
        assert(v@ =~= old(v)@ + status_line_bytes(s));
    }
}

/// Appends the header block counting `body_len` bytes.
fn push_headers(v: &mut Vec<u8>, body_len: usize)
    ensures
        final(v)@ == old(v)@ + header_bytes(body_len as nat),
{
    v.push(67);
    v.push(111);
    v.push(110);
    v.push(116);
    v.push(101);
    v.push(110);
    v.push(116);
    v.push(45);
    v.push(76);
    v.push(101);
    v.push(110);
    v.push(103);
    v.push(116);
    v.push(104);
    v.push(58);
    v.push(32);
    push_dec(v, body_len);
    v.push(CR);
    v.push(LF);
    v.push(CR);
    v.push(LF);
    proof {
        assert(v@ =~= old(v)@ + header_bytes(body_len as nat));
    }
}

/// Appends all of `w`.
fn push_all(v: &mut Vec<u8>, w: &Vec<u8>)
    ensures
        final(v)@ == old(v)@ + w@,
{
    let mut i: usize = 0;
    while i < w.len()
        invariant
            i <= w@.len(),
            v@ == old(v)@ + w@.subrange(0, i as int),
        decreases w@.len() - i,
    {
        v.push(w[i]);
        proof {
            assert(w@.subrange(0, i + 1) =~= w@.subrange(0, i as int).push(w@[i as int]));
            assert(v@ =~= old(v)@ + w@.subrange(0, i + 1));
        }
        i += 1;
    }
    proof {
        assert(w@.subrange(0, w@.len() as int) =~= w@);
    }
}

/// Renders a response into the bytes written back on the
/// connection.
pub fn encode_response(r: &HttpResponse) -> (out: Vec<u8>)
    ensures
        out@ == encode_spec(r@),
{
    let mut v: Vec<u8> = Vec::new();
    push_status_line(&mut v, r.status);
    push_headers(&mut v, r.body.len());
    if r.include_body {
        push_all(&mut v, &r.body);
    }
    proof {
        assert(v@ =~= encode_spec(r@));
    }
    v
}

/// A found file is answered 200 with exactly its bytes as the body;
/// a target nothing lies under is answered 404. The rendered answer
/// to a found file carries the file's bytes verbatim after the head.
pub proof fn lemma_get_outcomes(target: Seq<u8>, bytes: Seq<u8>)
    ensures
        respond_spec(RequestV::Get { target }, FileOutcomeV::Found { bytes }).status
            == Status::Success,
        respond_spec(RequestV::Get { target }, FileOutcomeV::Found { bytes }).body == bytes,
        code_of(respond_spec(RequestV::Get { target }, FileOutcomeV::Found { bytes }).status)
            == 200,
        respond_spec(RequestV::Get { target }, FileOutcomeV::Missing).status == Status::NotFound,
        code_of(respond_spec(RequestV::Get { target }, FileOutcomeV::Missing).status) == 404,
        ({
            let r = respond_spec(RequestV::Get { target }, FileOutcomeV::Found { bytes });
            let out = encode_spec(r);
            out.len() >= bytes.len() && out.subrange(
                out.len() - bytes.len(),
                out.len() as int,
            ) == bytes
        }),
{
    let r = respond_spec(RequestV::Get { target }, FileOutcomeV::Found { bytes });
    let out = encode_spec(r);
    assert(out.subrange(out.len() - bytes.len(), out.len() as int) =~= bytes);
}

} // verus!
