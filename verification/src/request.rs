//! Parsing the request head a connection hands the server: the
//! request line `METHOD SP TARGET SP VERSION CRLF` is taken apart,
//! the method classified — only `GET` and `HEAD` are served — and the
//! target turned into a root-relative file path that cannot escape
//! the served directory. The application reads the raw bytes off the
//! socket; everything decided about them is verified here.

use vstd::prelude::*;

verus! {

/// Carriage return.
pub const CR: u8 = 13;

/// Line feed.
pub const LF: u8 = 10;

/// Space.
pub const SP: u8 = 32;

/// Forward slash.
pub const SLASH: u8 = 47;

/// The index of the first occurrence of `b` in `s` at or after `i`.
pub open spec fn find_from(s: Seq<u8>, b: u8, i: int) -> Option<int>
    decreases s.len() - i,
{
    if i < 0 || i >= s.len() {
        None
    } else if s[i] == b {
        Some(i)
    } else {
        find_from(s, b, i + 1)
    }
}

/// What `find_from` returns: the first occurrence, with nothing
/// equal to `b` before it.
pub proof fn lemma_find_from(s: Seq<u8>, b: u8, i: int)
    requires
        0 <= i <= s.len(),
    ensures
        match find_from(s, b, i) {
            Some(j) => i <= j < s.len() && s[j] == b && forall|k: int| i <= k < j ==> s[k] != b,
            None => forall|k: int| i <= k < s.len() ==> s[k] != b,
        },
    decreases s.len() - i,
{
    if i < s.len() && s[i] != b {
        lemma_find_from(s, b, i + 1);
    }
}

/// An index that holds `b` with nothing equal to `b` between `i` and
/// it is exactly what `find_from` returns.
pub proof fn lemma_find_from_unique(s: Seq<u8>, b: u8, i: int, j: int)
    requires
        0 <= i <= j < s.len(),
        s[j] == b,
        forall|k: int| i <= k < j ==> s[k] != b,
    ensures
        find_from(s, b, i) == Some(j),
{
    lemma_find_from(s, b, i);
    match find_from(s, b, i) {
        None => {
            assert(s[j] == b);
        },
        Some(j2) => {
            if j2 < j {
                assert(s[j2] != b);
            }
            if j2 > j {
                assert(s[j] != b);
            }
        },
    }
}

/// Finds the first occurrence of `b` in `v` at or after `start`.
pub fn find_byte(v: &Vec<u8>, start: usize, b: u8) -> (r: Option<usize>)
    requires
        start <= v@.len(),
    ensures
        match r {
            Some(j) => start <= j < v@.len() && find_from(v@, b, start as int) == Some(j as int)
                && v@[j as int] == b && forall|k: int| start <= k < j ==> v@[k] != b,
            None => find_from(v@, b, start as int) is None && forall|k: int|
                start <= k < v@.len() ==> v@[k] != b,
        },
{
    let mut i: usize = start;
    while i < v.len()
        invariant
            start <= i <= v@.len(),
            find_from(v@, b, start as int) == find_from(v@, b, i as int),
        decreases v@.len() - i,
    {
        if v[i] == b {
            proof {
                lemma_find_from(v@, b, start as int);
            }
            return Some(i);
        }
        i += 1;
    }
    proof {
        lemma_find_from(v@, b, start as int);
    }
    None
}

/// The bytes of `v` from `a` up to but not including `b`.
pub fn copy_range(v: &Vec<u8>, a: usize, b: usize) -> (r: Vec<u8>)
    requires
        a <= b <= v@.len(),
    ensures
        r@ == v@.subrange(a as int, b as int),
{
    let mut r: Vec<u8> = Vec::new();
    let mut k: usize = a;
    while k < b
        invariant
            a <= k <= b <= v@.len(),
            r@ == v@.subrange(a as int, k as int),
        decreases b - k,
    {
        r.push(v[k]);
        proof {
            assert(v@.subrange(a as int, k + 1 as int) =~= v@.subrange(a as int, k as int).push(
                v@[k as int],
            ));
        }
        k += 1;
    }
    r
}

/// The method bytes `GET`.
pub open spec fn get_bytes() -> Seq<u8> {
    seq![71u8, 69u8, 84u8]
}

/// The method bytes `HEAD`.
pub open spec fn head_bytes() -> Seq<u8> {
    seq![72u8, 69u8, 65u8, 68u8]
}

/// The version prefix `HTTP/`.
pub open spec fn http_slash_bytes() -> Seq<u8> {
    seq![72u8, 84u8, 84u8, 80u8, 47u8]
}

/// The version bytes `HTTP/1.1`.
pub open spec fn http11_bytes() -> Seq<u8> {
    seq![72u8, 84u8, 84u8, 80u8, 47u8, 49u8, 46u8, 49u8]
}

/// A version field is acceptable when it names the HTTP protocol.
pub open spec fn is_version(v: Seq<u8>) -> bool {
    v.len() >= 5 && v.subrange(0, 5) == http_slash_bytes()
}

/// A classified request, as specifications speak of it.
pub enum RequestV {
    /// A `GET` for the given target.
    Get { target: Seq<u8> },
    /// A `HEAD` for the given target.
    Head { target: Seq<u8> },
    /// A well-formed request line whose method the server does not
    /// support.
    Unsupported,
    /// Not a well-formed request line.
    Malformed,
}

/// A classified request.
pub enum Request {
    /// A `GET` for the given target.
    Get { target: Vec<u8> },
    /// A `HEAD` for the given target.
    Head { target: Vec<u8> },
    /// A well-formed request line whose method the server does not
    /// support.
    Unsupported,
    /// Not a well-formed request line.
    Malformed,
}

impl View for Request {
    type V = RequestV;

    open spec fn view(&self) -> RequestV {
        match self {
            Request::Get { target } => RequestV::Get { target: target@ },
            Request::Head { target } => RequestV::Head { target: target@ },
            Request::Unsupported => RequestV::Unsupported,
            Request::Malformed => RequestV::Malformed,
        }
    }
}

/// What a request line means: method up to the first space, target
/// up to the second, the rest the version field. A line without two
/// spaces, or whose version field is not HTTP, is malformed.
pub open spec fn parse_line_spec(line: Seq<u8>) -> RequestV {
    match find_from(line, SP, 0) {
        None => RequestV::Malformed,
        Some(i) => match find_from(line, SP, i + 1) {
            None => RequestV::Malformed,
            Some(j) => {
                let method = line.subrange(0, i);
                let target = line.subrange(i + 1, j);
                let version = line.subrange(j + 1, line.len() as int);
                if !is_version(version) {
                    RequestV::Malformed
                } else if method == get_bytes() {
                    RequestV::Get { target }
                } else if method == head_bytes() {
                    RequestV::Head { target }
                } else {
                    RequestV::Unsupported
                }
            },
        },
    }
}

/// What a request head means: the request line is everything before
/// the first CRLF; a head without one is malformed.
pub open spec fn parse_spec(head: Seq<u8>) -> RequestV {
    match find_from(head, LF, 0) {
        None => RequestV::Malformed,
        Some(e) => if e >= 1 && head[e - 1] == CR {
            parse_line_spec(head.subrange(0, e - 1))
        } else {
            RequestV::Malformed
        },
    }
}

/// Whether the version field of `line` starting at `start` is
/// acceptable.
fn check_version(line: &Vec<u8>, start: usize) -> (r: bool)
    requires
        start <= line@.len(),
    ensures
        r == is_version(line@.subrange(start as int, line@.len() as int)),
{
    let ghost v = line@.subrange(start as int, line@.len() as int);
    if line.len() - start < 5 {
        return false;
    }
    let r = line[start] == 72 && line[start + 1] == 84 && line[start + 2] == 84 && line[start + 3]
        == 80 && line[start + 4] == 47;
    proof {
        assert(v[0] == line@[start as int]);
        assert(v[1] == line@[start + 1]);
        assert(v[2] == line@[start + 2]);
        assert(v[3] == line@[start + 3]);
        assert(v[4] == line@[start + 4]);
        if r {
            assert(v.subrange(0, 5) =~= http_slash_bytes());
        } else {
            assert(v.subrange(0, 5)[0] == v[0]);
            assert(v.subrange(0, 5)[1] == v[1]);
            assert(v.subrange(0, 5)[2] == v[2]);
            assert(v.subrange(0, 5)[3] == v[3]);
            assert(v.subrange(0, 5)[4] == v[4]);
        }
    }
    r
}

/// Classifies one request line.
fn parse_line(line: &Vec<u8>) -> (r: Request)
    ensures
        r@ == parse_line_spec(line@),
{
    let n = line.len();
    let i = match find_byte(line, 0, SP) {
        None => {
            return Request::Malformed;
        },
        Some(i) => i,
    };
    assert(i < n);
    let j = match find_byte(line, i + 1, SP) {
        None => {
            return Request::Malformed;
        },
        Some(j) => j,
    };
    assert(j < n);
    if !check_version(line, j + 1) {
        return Request::Malformed;
    }
    let ghost method = line@.subrange(0, i as int);
    let is_get = i == 3 && line[0] == 71 && line[1] == 69 && line[2] == 84;
    let is_head = i == 4 && line[0] == 72 && line[1] == 69 && line[2] == 65 && line[3] == 68;
    proof {
        assert(method.len() == i);
        if i > 0 {
            assert(method[0] == line@[0]);
        }
        if i > 1 {
            assert(method[1] == line@[1]);
        }
        if i > 2 {
            assert(method[2] == line@[2]);
        }
        if i > 3 {
            assert(method[3] == line@[3]);
        }
        if is_get {
            assert(method =~= get_bytes());
        } else {
            assert(method != get_bytes());
        }
        if is_head {
            assert(method =~= head_bytes());
        } else {
            assert(method != head_bytes());
        }
    }
    if is_get {
        let target = copy_range(line, i + 1, j);
        Request::Get { target }
    } else if is_head {
        let target = copy_range(line, i + 1, j);
        Request::Head { target }
    } else {
        Request::Unsupported
    }
}

/// Parsing is owed success on every well-formed `GET`: a head that
/// is literally `GET <target> HTTP/1.1` followed by CRLF and
/// anything further — with a target free of spaces, CR and LF — is
/// understood as a `GET` for exactly that target.
pub proof fn lemma_parse_accepts_wellformed_get(target: Seq<u8>, rest: Seq<u8>)
    requires
        forall|k: int| 0 <= k < target.len() ==> target[k] != SP && target[k] != CR && #[trigger]
            target[k] != LF,
    ensures
        parse_spec(
            get_bytes() + seq![SP] + target + seq![SP] + http11_bytes() + seq![CR, LF] + rest,
        ) == (RequestV::Get { target }),
{
    let t = target.len() as int;
    let line = get_bytes() + seq![SP] + target + seq![SP] + http11_bytes();
    let head = line + seq![CR, LF] + rest;
    assert(line.len() == t + 13);
    assert(head.len() == t + 15 + rest.len());

    // The first line feed is the one of the closing CRLF.
    assert(head[t + 14] == LF);
    assert(head[t + 13] == CR);
    assert forall|k: int| 0 <= k < t + 14 implies head[k] != LF by {
        if 4 <= k < 4 + t {
            assert(head[k] == target[k - 4]);
        }
    }
    lemma_find_from_unique(head, LF, 0, t + 14);
    assert(head.subrange(0, t + 13) =~= line);

    // The first space ends the method, the next one the target.
    assert(line[3] == SP);
    assert forall|k: int| 0 <= k < 3 implies line[k] != SP by {}
    lemma_find_from_unique(line, SP, 0, 3);
    assert(line[4 + t] == SP);
    assert forall|k: int| 4 <= k < 4 + t implies line[k] != SP by {
        assert(line[k] == target[k - 4]);
    }
    lemma_find_from_unique(line, SP, 4, 4 + t);

    // The three fields are the method, the target and the version.
    assert(line.subrange(0, 3) =~= get_bytes());
    assert(line.subrange(4, 4 + t) =~= target);
    assert(line.subrange(4 + t + 1, line.len() as int) =~= http11_bytes());
    assert(http11_bytes().subrange(0, 5) =~= http_slash_bytes());
    assert(is_version(http11_bytes()));
    assert(get_bytes() != head_bytes());
}

/// The same owed success for `HEAD`: a head that is literally
/// `HEAD <target> HTTP/1.1` followed by CRLF and anything further —
/// with a target free of spaces, CR and LF — is understood as a
/// `HEAD` for exactly that target.
pub proof fn lemma_parse_accepts_wellformed_head(target: Seq<u8>, rest: Seq<u8>)
    requires
        forall|k: int| 0 <= k < target.len() ==> target[k] != SP && target[k] != CR && #[trigger]
            target[k] != LF,
    ensures
        parse_spec(
            head_bytes() + seq![SP] + target + seq![SP] + http11_bytes() + seq![CR, LF] + rest,
        ) == (RequestV::Head { target }),
{
    let t = target.len() as int;
    let line = head_bytes() + seq![SP] + target + seq![SP] + http11_bytes();
    let head = line + seq![CR, LF] + rest;
    assert(line.len() == t + 14);
    assert(head.len() == t + 16 + rest.len());

    // The first line feed is the one of the closing CRLF.
    assert(head[t + 15] == LF);
    assert(head[t + 14] == CR);
    assert forall|k: int| 0 <= k < t + 15 implies head[k] != LF by {
        if 5 <= k < 5 + t {
            assert(head[k] == target[k - 5]);
        }
    }
    lemma_find_from_unique(head, LF, 0, t + 15);
    assert(head.subrange(0, t + 14) =~= line);

    // The first space ends the method, the next one the target.
    assert(line[4] == SP);
    assert forall|k: int| 0 <= k < 4 implies line[k] != SP by {}
    lemma_find_from_unique(line, SP, 0, 4);
    assert(line[5 + t] == SP);
    assert forall|k: int| 5 <= k < 5 + t implies line[k] != SP by {
        assert(line[k] == target[k - 5]);
    }
    lemma_find_from_unique(line, SP, 5, 5 + t);

    // The three fields are the method, the target and the version.
    assert(line.subrange(0, 4) =~= head_bytes());
    assert(line.subrange(5, 5 + t) =~= target);
    assert(line.subrange(5 + t + 1, line.len() as int) =~= http11_bytes());
    assert(http11_bytes().subrange(0, 5) =~= http_slash_bytes());
    assert(is_version(http11_bytes()));
    assert(head_bytes() != get_bytes());
}

/// The directory-index fallback `index.html`.
pub open spec fn index_bytes() -> Seq<u8> {
    seq![105u8, 110u8, 100u8, 101u8, 120u8, 46u8, 104u8, 116u8, 109u8, 108u8]
}

/// Whether `s` holds two dots in a row anywhere — the shape a parent
/// traversal needs.
pub open spec fn contains_dotdot(s: Seq<u8>) -> bool {
    exists|k: int| 0 <= k && k + 1 < s.len() && s[k] == 46 && #[trigger] s[k + 1] == 46
}

/// What a request target resolves to, relative to the served root: a
/// target must be absolute; its leading slash is stripped; the bare
/// root falls back to the directory index; anything that could climb
/// out of the root — a `..` pair or a second leading slash — is
/// refused.
pub open spec fn sanitize_spec(t: Seq<u8>) -> Option<Seq<u8>> {
    if t.len() == 0 || t[0] != SLASH {
        None
    } else {
        let rel = t.subrange(1, t.len() as int);
        if contains_dotdot(rel) {
            None
        } else if rel.len() == 0 {
            Some(index_bytes())
        } else if rel[0] == SLASH {
            None
        } else {
            Some(rel)
        }
    }
}

/// A resolved target is safe to join under the served root: it is
/// relative and holds no `..` pair.
pub proof fn lemma_sanitized_target_safe(t: Seq<u8>)
    ensures
        match sanitize_spec(t) {
            Some(rel) => rel.len() > 0 && rel[0] != SLASH && !contains_dotdot(rel),
            None => true,
        },
{
    if sanitize_spec(t) is Some {
        let rel = t.subrange(1, t.len() as int);
        if rel.len() == 0 {
            assert(!contains_dotdot(index_bytes())) by {
                assert(forall|k: int|
                    0 <= k && k + 1 < index_bytes().len() && index_bytes()[k] == 46
                        ==> #[trigger] index_bytes()[k + 1] != 46);
            }
        }
    }
}

/// Builds the directory-index fallback file name.
fn index_file() -> (r: Vec<u8>)
    ensures
        r@ == index_bytes(),
{
    let mut r: Vec<u8> = Vec::new();
    r.push(105);
    r.push(110);
    r.push(100);
    r.push(101);
    r.push(120);
    r.push(46);
    r.push(104);
    r.push(116);
    r.push(109);
    r.push(108);
    proof {
        assert(r@ =~= index_bytes());
    }
    r
}

/// Resolves a request target to the root-relative file path to
/// serve, or nothing when the target is unusable or could escape the
/// served root.
pub fn sanitize_target(t: &Vec<u8>) -> (r: Option<Vec<u8>>)
    ensures
        match r {
            Some(rel) => sanitize_spec(t@) == Some(rel@),
            None => sanitize_spec(t@) is None,
        },
{
    let n = t.len();
    if n == 0 || t[0] != SLASH {
        return None;
    }
    let rel = copy_range(t, 1, n);
    let rl = rel.len();
    if rl == 0 {
        assert(!contains_dotdot(rel@));
        return Some(index_file());
    }
    let mut k: usize = 0;
    while k < rl - 1
        invariant
            1 <= rl == rel@.len(),
            k <= rl - 1,
            t@.len() > 0 && t@[0] == SLASH,
            rel@ == t@.subrange(1, t@.len() as int),
            forall|m: int| 0 <= m < k && rel@[m] == 46 ==> #[trigger] rel@[m + 1] != 46,
        decreases rl - k,
    {
        if rel[k] == 46 && rel[k + 1] == 46 {
            assert(rel@[k as int] == 46 && rel@[k as int + 1] == 46);
            assert(contains_dotdot(rel@));
            return None;
        }
        k += 1;
    }
    assert(!contains_dotdot(rel@)) by {
        assert(forall|m: int| 0 <= m && m + 1 < rel@.len() && rel@[m] == 46
            ==> #[trigger] rel@[m + 1] != 46);
    }
    if rel[0] == SLASH {
        None
    } else {
        Some(rel)
    }
}

/// Classifies a request head: the request line is read up to the
/// first CRLF and taken apart into method, target and version.
pub fn parse_request(head: &Vec<u8>) -> (r: Request)
    ensures
        r@ == parse_spec(head@),
{
    match find_byte(head, 0, LF) {
        None => Request::Malformed,
        Some(e) => {
            if e == 0 || head[e - 1] != CR {
                return Request::Malformed;
            }
            let line = copy_range(head, 0, e - 1);
            parse_line(&line)
        },
    }
}

} // verus!
