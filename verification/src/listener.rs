//! The discovery-request parser: an inbound datagram is read as an
//! HTTP-request-shaped SSDP message, a method line followed by
//! `Name: value` header lines and a terminating blank line. Header
//! names are upper-cased for lookup; values keep their bytes as given,
//! with surrounding blanks removed.

use vstd::prelude::*;

use crate::error::Error;

verus! {

use vstd::string::StrSliceExecFns;
use vstd::string::StringSliceAdditionalSpecFns;

/// A blank byte inside a header line: space or horizontal tab.
pub open spec fn is_blank(b: u8) -> bool {
    b == 32 || b == 9
}

/// A byte allowed in a method or header-name token: anything but
/// blanks and line ends.
pub open spec fn is_token_byte(b: u8) -> bool {
    b != 32 && b != 9 && b != 13 && b != 10
}

/// The ASCII upper-case fold of one byte.
pub open spec fn upper_byte(b: u8) -> u8 {
    if 97 <= b <= 122 {
        (b - 32) as u8
    } else {
        b
    }
}

/// The first position at or after `i` where a CRLF pair begins, if any.
pub open spec fn find_crlf(s: Seq<u8>, i: int) -> Option<int>
    decreases s.len() - i,
{
    if i < 0 || i + 2 > s.len() {
        None
    } else if s[i] == 13 && s[i + 1] == 10 {
        Some(i)
    } else {
        find_crlf(s, i + 1)
    }
}

/// The first position in `[i, end)` holding the byte `b`, if any.
pub open spec fn find_byte(s: Seq<u8>, i: int, end: int, b: u8) -> Option<int>
    decreases end - i,
{
    if i < 0 || i >= end || end > s.len() {
        None
    } else if s[i] == b {
        Some(i)
    } else {
        find_byte(s, i + 1, end, b)
    }
}

pub proof fn lemma_find_crlf_bounds(s: Seq<u8>, i: int)
    requires
        0 <= i,
    ensures
        match find_crlf(s, i) {
            Some(j) => i <= j && j + 2 <= s.len() && s[j] == 13 && s[j + 1] == 10,
            None => true,
        },
    decreases s.len() - i,
{
    if i + 2 <= s.len() && !(s[i] == 13 && s[i + 1] == 10) {
        lemma_find_crlf_bounds(s, i + 1);
    }
}

pub proof fn lemma_find_byte_bounds(s: Seq<u8>, i: int, end: int, b: u8)
    requires
        0 <= i,
    ensures
        match find_byte(s, i, end, b) {
            Some(k) => i <= k < end && end <= s.len() && s[k] == b && forall|m: int|
                i <= m < k ==> s[m] != b,
            None => true,
        },
    decreases end - i,
{
    if i < end && end <= s.len() && s[i] != b {
        lemma_find_byte_bounds(s, i + 1, end, b);
    }
}

/// Every byte of `[i, j)` is a token byte.
pub open spec fn token_ok(s: Seq<u8>, i: int, j: int) -> bool {
    forall|m: int| i <= m < j ==> is_token_byte(#[trigger] s[m])
}

/// The bytes of `[i, j)`, upper-case folded.
pub open spec fn upper_range(s: Seq<u8>, i: int, j: int) -> Seq<u8>
    recommends
        0 <= i <= j <= s.len(),
{
    s.subrange(i, j).map_values(|b: u8| upper_byte(b))
}

/// The first position at or after `i`, before `j`, holding a
/// non-blank byte; `j` if there is none.
pub open spec fn skip_blanks_fwd(s: Seq<u8>, i: int, j: int) -> int
    decreases j - i,
{
    if 0 <= i && i < j && j <= s.len() && is_blank(s[i]) {
        skip_blanks_fwd(s, i + 1, j)
    } else {
        i
    }
}

/// The position after the last non-blank byte of `[i, j)`; `i` if
/// there is none.
pub open spec fn skip_blanks_back(s: Seq<u8>, i: int, j: int) -> int
    decreases j - i,
{
    if 0 <= i && i < j && j <= s.len() && is_blank(s[j - 1]) {
        skip_blanks_back(s, i, j - 1)
    } else {
        j
    }
}

/// The bytes of `[i, j)` with leading and trailing blanks removed.
pub open spec fn trimmed(s: Seq<u8>, i: int, j: int) -> Seq<u8>
    recommends
        0 <= i <= j <= s.len(),
{
    let lo = skip_blanks_fwd(s, i, j);
    let hi = skip_blanks_back(s, lo, j);
    s.subrange(lo, hi)
}

/// One parsed header: the upper-cased name and the value as given.
#[derive(Debug)]
pub struct Header {
    pub name: Vec<u8>,
    pub value: Vec<u8>,
}

/// The mathematical image of one parsed header.
pub struct HeaderView {
    pub name: Seq<u8>,
    pub value: Seq<u8>,
}

impl View for Header {
    type V = HeaderView;

    open spec fn view(&self) -> HeaderView {
        HeaderView { name: self.name@, value: self.value@ }
    }
}

/// The mathematical images of a run of parsed headers.
pub open spec fn headers_view(hs: Seq<Header>) -> Seq<HeaderView> {
    Seq::new(hs.len(), |i: int| hs[i]@)
}

/// One header line `Name: value` over `[i, j)`: a non-empty token
/// name before the first colon, then the value with its surrounding
/// blanks removed.
pub open spec fn parse_header_line(s: Seq<u8>, i: int, j: int) -> Option<HeaderView>
    recommends
        0 <= i <= j <= s.len(),
{
    match find_byte(s, i, j, 58) {
        None => None,
        Some(k) => if k == i || !token_ok(s, i, k) {
            None
        } else {
            Some(HeaderView { name: upper_range(s, i, k), value: trimmed(s, k + 1, j) })
        },
    }
}

/// The header lines from position `i` up to the terminating blank
/// line; `None` when a line is malformed or the blank line is missing.
pub open spec fn parse_headers(s: Seq<u8>, i: int) -> Option<Seq<HeaderView>>
    decreases s.len() - i,
        when i >= 0
        via parse_headers_decreases
{
    match find_crlf(s, i) {
        None => None,
        Some(j) => if j == i {
            Some(Seq::empty())
        } else {
            match parse_header_line(s, i, j) {
                None => None,
                Some(h) => match parse_headers(s, j + 2) {
                    None => None,
                    Some(rest) => Some(seq![h] + rest),
                },
            }
        },
    }
}

#[via_fn]
proof fn parse_headers_decreases(s: Seq<u8>, i: int) {
    lemma_find_crlf_bounds(s, i);
}

/// The request line over `[0, j)`: a non-empty method token, a space,
/// a non-empty target, a space, and a version beginning `HTTP/`. The
/// result is the method's bytes.
pub open spec fn parse_request_line(s: Seq<u8>, j: int) -> Option<Seq<u8>>
    recommends
        0 <= j <= s.len(),
{
    match find_byte(s, 0, j, 32) {
        None => None,
        Some(k) => if k == 0 || !token_ok(s, 0, k) {
            None
        } else {
            match find_byte(s, k + 1, j, 32) {
                None => None,
                Some(m) => if m == k + 1 || j - m - 1 < 5 {
                    None
                } else if s[m + 1] == 72 && s[m + 2] == 84 && s[m + 3] == 84 && s[m + 4] == 80
                    && s[m + 5] == 47 {
                    Some(s.subrange(0, k))
                } else {
                    None
                },
            }
        },
    }
}

/// A whole parsed discovery request.
pub struct RequestView {
    pub method: Seq<u8>,
    pub headers: Seq<HeaderView>,
}

/// The datagram as an SSDP request: a request line, header lines, and
/// the terminating blank line; bytes after the blank line are ignored.
pub open spec fn parse_request(s: Seq<u8>) -> Option<RequestView> {
    match find_crlf(s, 0) {
        None => None,
        Some(j) => if j == 0 {
            None
        } else {
            match parse_request_line(s, j) {
                None => None,
                Some(method) => match parse_headers(s, j + 2) {
                    None => None,
                    Some(hs) => Some(RequestView { method, headers: hs }),
                },
            }
        },
    }
}

/// The datagram has a request line but no method token on it.
pub open spec fn missing_method(s: Seq<u8>) -> bool {
    match find_crlf(s, 0) {
        Some(j) => j == 0 || s[0] == 32,
        None => false,
    }
}

fn find_crlf_exec(v: &Vec<u8>, i: usize) -> (r: Option<usize>)
    requires
        i <= v.len(),
    ensures
        match r {
            Some(u) => find_crlf(v@, i as int) == Some(u as int),
            None => find_crlf(v@, i as int) is None,
        },
{
    let mut cur = i;
    loop
        invariant
            i <= cur <= v.len(),
            find_crlf(v@, i as int) == find_crlf(v@, cur as int),
        decreases v.len() - cur,
    {
        if v.len() < 2 || cur > v.len() - 2 {
            return None;
        }
        if v[cur] == 13 && v[cur + 1] == 10 {
            return Some(cur);
        }
        proof {
            assert(find_crlf(v@, cur as int) == find_crlf(v@, cur as int + 1));
        }
        cur = cur + 1;
    }
}

fn find_byte_exec(v: &Vec<u8>, i: usize, end: usize, b: u8) -> (r: Option<usize>)
    requires
        i <= end <= v.len(),
    ensures
        match r {
            Some(u) => find_byte(v@, i as int, end as int, b) == Some(u as int),
            None => find_byte(v@, i as int, end as int, b) is None,
        },
{
    let mut cur = i;
    loop
        invariant
            i <= cur <= end <= v.len(),
            find_byte(v@, i as int, end as int, b) == find_byte(v@, cur as int, end as int, b),
        decreases end - cur,
    {
        if cur >= end {
            return None;
        }
        if v[cur] == b {
            return Some(cur);
        }
        proof {
            assert(find_byte(v@, cur as int, end as int, b) == find_byte(
                v@,
                cur as int + 1,
                end as int,
                b,
            ));
        }
        cur = cur + 1;
    }
}

fn token_ok_exec(v: &Vec<u8>, i: usize, j: usize) -> (r: bool)
    requires
        i <= j <= v.len(),
    ensures
        r == token_ok(v@, i as int, j as int),
{
    let mut cur = i;
    while cur < j
        invariant
            i <= cur <= j <= v.len(),
            forall|m: int| i <= m < cur ==> is_token_byte(#[trigger] v@[m]),
        decreases j - cur,
    {
        let b = v[cur];
        if b == 32 || b == 9 || b == 13 || b == 10 {
            return false;
        }
        cur = cur + 1;
    }
    true
}

fn upper_copy(v: &Vec<u8>, i: usize, j: usize) -> (out: Vec<u8>)
    requires
        i <= j <= v.len(),
    ensures
        out@ == upper_range(v@, i as int, j as int),
{
    let mut out: Vec<u8> = Vec::new();
    let mut cur = i;
    while cur < j
        invariant
            i <= cur <= j <= v.len(),
            out@.len() == cur - i,
            forall|t: int| 0 <= t < out@.len() ==> #[trigger] out@[t] == upper_byte(v@[i + t]),
        decreases j - cur,
    {
        let b = v[cur];
        let u: u8 = if 97 <= b && b <= 122 {
            b - 32
        } else {
            b
        };
        out.push(u);
        cur = cur + 1;
    }
    proof {
        assert(out@ =~= upper_range(v@, i as int, j as int));
    }
    out
}

fn copy_range(v: &Vec<u8>, i: usize, j: usize) -> (out: Vec<u8>)
    requires
        i <= j <= v.len(),
    ensures
        out@ == v@.subrange(i as int, j as int),
{
    let mut out: Vec<u8> = Vec::new();
    let mut cur = i;
    while cur < j
        invariant
            i <= cur <= j <= v.len(),
            out@.len() == cur - i,
            forall|t: int| 0 <= t < out@.len() ==> #[trigger] out@[t] == v@[i + t],
        decreases j - cur,
    {
        out.push(v[cur]);
        cur = cur + 1;
    }
    proof {
        assert(out@ =~= v@.subrange(i as int, j as int));
    }
    out
}

fn trimmed_copy(v: &Vec<u8>, i: usize, j: usize) -> (out: Vec<u8>)
    requires
        i <= j <= v.len(),
    ensures
        out@ == trimmed(v@, i as int, j as int),
{
    let mut lo = i;
    while lo < j && (v[lo] == 32 || v[lo] == 9)
        invariant
            i <= lo <= j <= v.len(),
            skip_blanks_fwd(v@, i as int, j as int) == skip_blanks_fwd(v@, lo as int, j as int),
        decreases j - lo,
    {
        proof {
            assert(skip_blanks_fwd(v@, lo as int, j as int) == skip_blanks_fwd(
                v@,
                lo as int + 1,
                j as int,
            ));
        }
        lo = lo + 1;
    }
    proof {
        assert(skip_blanks_fwd(v@, lo as int, j as int) == lo as int);
    }
    let mut hi = j;
    while hi > lo && (v[hi - 1] == 32 || v[hi - 1] == 9)
        invariant
            lo <= hi <= j <= v.len(),
            skip_blanks_back(v@, lo as int, j as int) == skip_blanks_back(v@, lo as int, hi as int),
        decreases hi,
    {
        proof {
            assert(skip_blanks_back(v@, lo as int, hi as int) == skip_blanks_back(
                v@,
                lo as int,
                hi as int - 1,
            ));
        }
        hi = hi - 1;
    }
    proof {
        assert(skip_blanks_back(v@, lo as int, hi as int) == hi as int);
    }
    copy_range(v, lo, hi)
}

fn parse_header_line_exec(v: &Vec<u8>, i: usize, j: usize) -> (r: Option<Header>)
    requires
        i <= j <= v.len(),
    ensures
        match r {
            Some(h) => parse_header_line(v@, i as int, j as int) == Some(h@),
            None => parse_header_line(v@, i as int, j as int) is None,
        },
{
    match find_byte_exec(v, i, j, 58) {
        None => None,
        Some(k) => {
            proof {
                lemma_find_byte_bounds(v@, i as int, j as int, 58);
            }
            if k == i || !token_ok_exec(v, i, k) {
                None
            } else {
                let name = upper_copy(v, i, k);
                let value = trimmed_copy(v, k + 1, j);
                Some(Header { name, value })
            }
        },
    }
}

fn parse_headers_exec(v: &Vec<u8>, i: usize) -> (r: Option<Vec<Header>>)
    requires
        i <= v.len(),
    ensures
        match r {
            Some(hs) => parse_headers(v@, i as int) == Some(headers_view(hs@)),
            None => parse_headers(v@, i as int) is None,
        },
    decreases v.len() - i,
{
    match find_crlf_exec(v, i) {
        None => None,
        Some(j) => {
            proof {
                lemma_find_crlf_bounds(v@, i as int);
            }
            if j == i {
                let out: Vec<Header> = Vec::new();
                proof {
                    assert(headers_view(out@) =~= Seq::<HeaderView>::empty());
                }
                Some(out)
            } else {
                match parse_header_line_exec(v, i, j) {
                    None => None,
                    Some(h) => {
                        match parse_headers_exec(v, j + 2) {
                            None => None,
                            Some(mut rest) => {
                                let ghost h_view = h@;
                                let ghost rest_view = headers_view(rest@);
                                rest.insert(0, h);
                                proof {
                                    assert(headers_view(rest@) =~= seq![h_view] + rest_view);
                                }
                                Some(rest)
                            },
                        }
                    },
                }
            }
        },
    }
}

/// A discovery request parsed from one inbound datagram: the method
/// and the headers, names upper-cased, in the order received.
#[derive(Debug)]
pub struct DiscoveryRequest {
    pub method: Vec<u8>,
    pub headers: Vec<Header>,
}

impl View for DiscoveryRequest {
    type V = RequestView;

    open spec fn view(&self) -> RequestView {
        RequestView { method: self.method@, headers: headers_view(self.headers@) }
    }
}

/// Parses one inbound datagram as an SSDP request. Returns
/// `NoSSDPMethod` when the request line carries no method token, and
/// `MalformedPacket` for every other shape the grammar rejects.
pub fn parse_ssdp(buffer: &Vec<u8>) -> (r: Result<DiscoveryRequest, Error>)
    ensures
        match r {
            Ok(req) => parse_request(buffer@) == Some(req@),
            Err(e) => parse_request(buffer@) is None && e == (if missing_method(buffer@) {
                Error::NoSSDPMethod
            } else {
                Error::MalformedPacket
            }),
        },
{
    match find_crlf_exec(buffer, 0) {
        None => Err(Error::MalformedPacket),
        Some(j) => {
            proof {
                lemma_find_crlf_bounds(buffer@, 0);
            }
            if j == 0 {
                return Err(Error::NoSSDPMethod);
            }
            let method = match find_byte_exec(buffer, 0, j, 32) {
                None => {
                    return Err(Error::MalformedPacket);
                },
                Some(k) => {
                    proof {
                        lemma_find_byte_bounds(buffer@, 0, j as int, 32);
                    }
                    if k == 0 {
                        return Err(Error::NoSSDPMethod);
                    }
                    if !token_ok_exec(buffer, 0, k) {
                        return Err(Error::MalformedPacket);
                    }
                    match find_byte_exec(buffer, k + 1, j, 32) {
                        None => {
                            return Err(Error::MalformedPacket);
                        },
                        Some(m) => {
                            proof {
                                lemma_find_byte_bounds(buffer@, k as int + 1, j as int, 32);
                            }
                            if m == k + 1 || j - m - 1 < 5 {
                                return Err(Error::MalformedPacket);
                            }
                            if !(buffer[m + 1] == 72 && buffer[m + 2] == 84 && buffer[m + 3] == 84
                                && buffer[m + 4] == 80 && buffer[m + 5] == 47) {
                                return Err(Error::MalformedPacket);
                            }
                            copy_range(buffer, 0, k)
                        },
                    }
                },
            };
            proof {
                lemma_find_crlf_bounds(buffer@, 0);
                assert(j as int + 2 <= buffer@.len());
            }
            match parse_headers_exec(buffer, j + 2) {
                None => Err(Error::MalformedPacket),
                Some(headers) => Ok(DiscoveryRequest { method, headers }),
            }
        },
    }
}

/// The value of the header named `name`; when a name repeats, the last
/// occurrence wins, as it does in a map filled in arrival order.
pub open spec fn header_value(hs: Seq<HeaderView>, name: Seq<u8>) -> Option<Seq<u8>>
    decreases hs.len(),
{
    if hs.len() == 0 {
        None
    } else if hs.last().name == name {
        Some(hs.last().value)
    } else {
        header_value(hs.drop_last(), name)
    }
}

fn bytes_eq(a: &Vec<u8>, b: &Vec<u8>) -> (r: bool)
    ensures
        r == (a@ == b@),
{
    if a.len() != b.len() {
        return false;
    }
    let mut i: usize = 0;
    while i < a.len()
        invariant
            i <= a.len(),
            a@.len() == b@.len(),
            forall|t: int| 0 <= t < i ==> a@[t] == #[trigger] b@[t],
        decreases a.len() - i,
    {
        if a[i] != b[i] {
            return false;
        }
        i = i + 1;
    }
    proof {
        assert(a@ =~= b@);
    }
    true
}

impl DiscoveryRequest {
    /// Looks a header up by its upper-cased name.
    pub fn header_value(&self, name: &Vec<u8>) -> (r: Option<&Vec<u8>>)
        ensures
            match r {
                Some(v) => header_value(self@.headers, name@) == Some(v@),
                None => header_value(self@.headers, name@) is None,
            },
    {
        let ghost all = self@.headers;
        let mut idx = self.headers.len();
        proof {
            assert(all.subrange(0, idx as int) =~= all);
        }
        while idx > 0
            invariant
                idx <= self.headers.len(),
                all == self@.headers,
                header_value(all, name@) == header_value(all.subrange(0, idx as int), name@),
            decreases idx,
        {
            let ghost prefix = all.subrange(0, idx as int);
            if bytes_eq(&self.headers[idx - 1].name, name) {
                proof {
                    assert(prefix.last() == all[idx - 1]);
                    assert(all[idx - 1] == self.headers@[idx - 1]@);
                }
                return Some(&self.headers[idx - 1].value);
            }
            proof {
                assert(prefix.last() == all[idx - 1]);
                assert(prefix.drop_last() =~= all.subrange(0, idx - 1));
            }
            idx = idx - 1;
        }
        proof {
            assert(all.subrange(0, 0) =~= Seq::<HeaderView>::empty());
        }
        None
    }
}

/// The method a discovery request must carry.
pub open spec fn m_search_bytes() -> Seq<u8> {
    "M-SEARCH".spec_bytes()
}

/// The name of the search-target header.
pub open spec fn st_bytes() -> Seq<u8> {
    "ST".spec_bytes()
}

/// The one search target answered on the upstream server's behalf.
pub open spec fn media_server_urn_bytes() -> Seq<u8> {
    "urn:schemas-upnp-org:device:MediaServer:1".spec_bytes()
}

/// The method bytes `M-SEARCH`.
pub fn m_search_vec() -> (r: Vec<u8>)
    ensures
        r@ == m_search_bytes(),
{
    "M-SEARCH".as_bytes_vec()
}

/// The header-name bytes `ST`.
pub fn st_vec() -> (r: Vec<u8>)
    ensures
        r@ == st_bytes(),
{
    "ST".as_bytes_vec()
}

/// The URN bytes of the MediaServer:1 device type.
pub fn media_server_urn_vec() -> (r: Vec<u8>)
    ensures
        r@ == media_server_urn_bytes(),
{
    "urn:schemas-upnp-org:device:MediaServer:1".as_bytes_vec()
}

/// The datagram is a well-formed M-SEARCH whose ST header equals
/// exactly the MediaServer:1 URN.
pub open spec fn wants_reply_spec(s: Seq<u8>) -> bool {
    match parse_request(s) {
        None => false,
        Some(req) => req.method == m_search_bytes() && header_value(req.headers, st_bytes())
            == Some(media_server_urn_bytes()),
    }
}

/// Decides whether an inbound datagram is answered with a unicast Ok:
/// only a parseable M-SEARCH for exactly the MediaServer:1 URN is.
pub fn wants_reply(buffer: &Vec<u8>) -> (r: bool)
    ensures
        r == wants_reply_spec(buffer@),
{
    match parse_ssdp(buffer) {
        Err(_) => false,
        Ok(req) => {
            let method = m_search_vec();
            if !bytes_eq(&req.method, &method) {
                return false;
            }
            let st = st_vec();
            match req.header_value(&st) {
                None => false,
                Some(value) => {
                    let urn = media_server_urn_vec();
                    bytes_eq(value, &urn)
                },
            }
        },
    }
}

/// A discovery request whose ST header differs from the MediaServer:1
/// URN — or that carries none — draws no reply, whatever else it holds.
pub proof fn lemma_other_st_ignored(s: Seq<u8>)
    requires
        parse_request(s) is Some,
        header_value(parse_request(s).unwrap().headers, st_bytes()) != Some(
            media_server_urn_bytes(),
        ),
    ensures
        !wants_reply_spec(s),
{
}

/// A request whose method is not M-SEARCH draws no reply.
pub proof fn lemma_other_method_ignored(s: Seq<u8>)
    requires
        parse_request(s) is Some,
        parse_request(s).unwrap().method != m_search_bytes(),
    ensures
        !wants_reply_spec(s),
{
}

/// A datagram the grammar rejects — a malformed request line among the
/// rest — draws no reply.
pub proof fn lemma_malformed_ignored(s: Seq<u8>)
    requires
        parse_request(s) is None,
    ensures
        !wants_reply_spec(s),
{
}

} // verus!
