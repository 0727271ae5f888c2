use vstd::prelude::*;

verus! {

/// One header line: a name and a value, both as raw bytes.
pub struct Header {
    pub name: Vec<u8>,
    pub value: Vec<u8>,
}

impl View for Header {
    type V = (Seq<u8>, Seq<u8>);

    open spec fn view(&self) -> (Seq<u8>, Seq<u8>) {
        (self.name@, self.value@)
    }
}

/// The headers of a list, as byte sequences, in order.
pub open spec fn headers_view(hs: Seq<Header>) -> Seq<(Seq<u8>, Seq<u8>)> {
    hs.map_values(|h: Header| h@)
}

/// ASCII lower-casing of one byte; other bytes are left alone.
pub open spec fn lower_byte(b: u8) -> u8 {
    if 65 <= b <= 90 {
        (b + 32) as u8
    } else {
        b
    }
}

/// Header names compare without regard to ASCII case.
pub open spec fn same_name(a: Seq<u8>, b: Seq<u8>) -> bool {
    a.len() == b.len() && forall|i: int| 0 <= i < a.len() ==> lower_byte(#[trigger] a[i]) == lower_byte(b[i])
}

pub open spec fn host_name() -> Seq<u8> {
    seq![104u8, 111, 115, 116]
}

pub open spec fn content_length_name() -> Seq<u8> {
    seq![99u8, 111, 110, 116, 101, 110, 116, 45, 108, 101, 110, 103, 116, 104]
}

pub open spec fn transfer_encoding_name() -> Seq<u8> {
    seq![116u8, 114, 97, 110, 115, 102, 101, 114, 45, 101, 110, 99, 111, 100, 105, 110, 103]
}

/// Headers that the transport recomputes for the outbound leg.
pub open spec fn dropped_outbound(name: Seq<u8>) -> bool {
    same_name(name, host_name()) || same_name(name, content_length_name())
}

/// Headers of the upstream response that the proxy's own transport re-frames.
pub open spec fn dropped_inbound(name: Seq<u8>) -> bool {
    same_name(name, transfer_encoding_name())
}

/// The headers of `hs` that are sent upstream, in order.
pub open spec fn forwarded_headers(hs: Seq<(Seq<u8>, Seq<u8>)>) -> Seq<(Seq<u8>, Seq<u8>)> {
    hs.filter(|h: (Seq<u8>, Seq<u8>)| !dropped_outbound(h.0))
}

/// The headers of an upstream response `hs` that reach the client, in order.
pub open spec fn returned_headers(hs: Seq<(Seq<u8>, Seq<u8>)>) -> Seq<(Seq<u8>, Seq<u8>)> {
    hs.filter(|h: (Seq<u8>, Seq<u8>)| !dropped_inbound(h.0))
}

fn lower(b: u8) -> (r: u8)
    ensures
        r == lower_byte(b),
{
    if 65 <= b && b <= 90 {
        b + 32
    } else {
        b
    }
}

fn name_is(name: &Vec<u8>, target: &Vec<u8>) -> (r: bool)
    ensures
        r == same_name(name@, target@),
{
    if name.len() != target.len() {
        return false;
    }
    let mut i: usize = 0;
    while i < name.len()
        invariant
            name@.len() == target@.len(),
            i <= name@.len(),
            forall|j: int| 0 <= j < i ==> lower_byte(#[trigger] name@[j]) == lower_byte(target@[j]),
        decreases name@.len() - i,
    {
        if lower(name[i]) != lower(target[i]) {
            return false;
        }
        i = i + 1;
    }
    true
}

fn is_dropped_outbound(name: &Vec<u8>) -> (r: bool)
    ensures
        r == dropped_outbound(name@),
{
    let host: Vec<u8> = vec![104u8, 111, 115, 116];
    let content_length: Vec<u8> = vec![99u8, 111, 110, 116, 101, 110, 116, 45, 108, 101, 110, 103, 116, 104];
    assert(host@ == host_name());
    assert(content_length@ == content_length_name());
    name_is(name, &host) || name_is(name, &content_length)
}

fn is_dropped_inbound(name: &Vec<u8>) -> (r: bool)
    ensures
        r == dropped_inbound(name@),
{
    let transfer_encoding: Vec<u8> = vec![116u8, 114, 97, 110, 115, 102, 101, 114, 45, 101, 110, 99, 111, 100, 105, 110, 103];
    assert(transfer_encoding@ == transfer_encoding_name());
    name_is(name, &transfer_encoding)
}

fn copy_bytes(v: &Vec<u8>) -> (r: Vec<u8>)
    ensures
        r@ == v@,
{
    let mut r: Vec<u8> = Vec::with_capacity(v.len());
    let mut i: usize = 0;
    while i < v.len()
        invariant
            i <= v@.len(),
            r@ == v@.subrange(0, i as int),
        decreases v@.len() - i,
    {
        r.push(v[i]);
        i = i + 1;
        assert(r@ =~= v@.subrange(0, i as int));
    }
    assert(r@ =~= v@);
    r
}

/// Copies the headers of `hs` in order, leaving out those whose names are
/// hop-by-hop for the given direction.
fn retain_headers(hs: &Vec<Header>, outbound: bool) -> (r: Vec<Header>)
    ensures
        outbound ==> headers_view(r@) == forwarded_headers(headers_view(hs@)),
        !outbound ==> headers_view(r@) == returned_headers(headers_view(hs@)),
{
    let ghost drop: spec_fn(Seq<u8>) -> bool = if outbound {
        |n: Seq<u8>| dropped_outbound(n)
    } else {
        |n: Seq<u8>| dropped_inbound(n)
    };
    let ghost keep = |h: (Seq<u8>, Seq<u8>)| !drop(h.0);
    let mut r: Vec<Header> = Vec::new();
    let mut i: usize = 0;
    proof {
        reveal(Seq::filter);
    }
    while i < hs.len()
        invariant
            i <= hs@.len(),
            drop == (if outbound {
                |n: Seq<u8>| dropped_outbound(n)
            } else {
                |n: Seq<u8>| dropped_inbound(n)
            }),
            keep == (|h: (Seq<u8>, Seq<u8>)| !drop(h.0)),
            headers_view(r@) == headers_view(hs@.subrange(0, i as int)).filter(keep),
        decreases hs@.len() - i,
    {
        let h = &hs[i];
        let skip = if outbound {
            is_dropped_outbound(&h.name)
        } else {
            is_dropped_inbound(&h.name)
        };
        let ghost before = r@;
        if !skip {
            r.push(Header { name: copy_bytes(&h.name), value: copy_bytes(&h.value) });
        }
        proof {
            reveal(Seq::filter);
            let prefix = headers_view(hs@.subrange(0, i + 1));
            assert(prefix.drop_last() =~= headers_view(hs@.subrange(0, i as int)));
            assert(prefix.last() == hs@[i as int]@);
            assert(skip == drop(hs@[i as int]@.0));
            assert(prefix.filter(keep) == (if skip {
                prefix.drop_last().filter(keep)
            } else {
                prefix.drop_last().filter(keep).push(prefix.last())
            }));
            if !skip {
                assert(headers_view(r@) =~= headers_view(before).push(hs@[i as int]@));
            } else {
                assert(headers_view(r@) =~= headers_view(before));
            }
        }
        i = i + 1;
    }
    assert(hs@.subrange(0, hs@.len() as int) =~= hs@);
    if outbound {
        assert(keep =~= |h: (Seq<u8>, Seq<u8>)| !dropped_outbound(h.0));
    } else {
        assert(keep =~= |h: (Seq<u8>, Seq<u8>)| !dropped_inbound(h.0));
    }
    r
}

/// A request as the proxy received it.
pub struct InboundRequest {
    pub method: String,
    /// Path and query exactly as received; empty when absent.
    pub path_and_query: String,
    pub headers: Vec<Header>,
    pub body: Vec<u8>,
}

/// The call the proxy makes to the upstream on behalf of an inbound request.
pub struct OutboundRequest {
    pub method: String,
    pub url: String,
    pub headers: Vec<Header>,
    /// The body to send; `None` when the inbound body was empty.
    pub body: Option<Vec<u8>>,
}

/// What the upstream answered, with its body read in full.
pub struct UpstreamResponse {
    pub status: u16,
    pub headers: Vec<Header>,
    pub body: Vec<u8>,
}

/// Why a forwarding attempt produced no upstream response; each carries a
/// human-readable cause.
pub enum ForwardError {
    /// The outbound client could not be built.
    ClientConstruction(String),
    /// The upstream could not be reached or the send failed.
    Transport(String),
    /// The upstream answered but its body could not be read in full.
    BodyRead(String),
}

/// The body of a response to the client: the upstream's bytes, or a text
/// describing a failure.
pub enum ResponseBody {
    Bytes(Vec<u8>),
    Text(String),
}

/// The response the proxy sends back to its client.
pub struct ProxyResponse {
    pub status: u16,
    pub headers: Vec<Header>,
    pub body: ResponseBody,
}

pub const STATUS_INTERNAL_SERVER_ERROR: u16 = 500;

pub const STATUS_BAD_GATEWAY: u16 = 502;

impl ForwardError {
    /// The status code the client receives for this failure.
    pub open spec fn spec_status(&self) -> u16 {
        match self {
            ForwardError::Transport(_) => STATUS_BAD_GATEWAY,
            _ => STATUS_INTERNAL_SERVER_ERROR,
        }
    }

    /// The text the client receives for this failure.
    pub open spec fn spec_message(&self) -> Seq<char> {
        match self {
            ForwardError::ClientConstruction(c) => "Failed to create HTTP client: "@ + c@,
            ForwardError::Transport(c) => "Failed to send request to upstream server: "@ + c@,
            ForwardError::BodyRead(c) => "Failed to get response body: "@ + c@,
        }
    }

    pub fn status(&self) -> (r: u16)
        ensures
            r == self.spec_status(),
    {
        match self {
            ForwardError::Transport(_) => STATUS_BAD_GATEWAY,
            _ => STATUS_INTERNAL_SERVER_ERROR,
        }
    }

    pub fn message(&self) -> (r: String)
        ensures
            r@ == self.spec_message(),
    {
        match self {
            ForwardError::ClientConstruction(c) => String::from_str("Failed to create HTTP client: ").concat(c.as_str()),
            ForwardError::Transport(c) => String::from_str("Failed to send request to upstream server: ").concat(c.as_str()),
            ForwardError::BodyRead(c) => String::from_str("Failed to get response body: ").concat(c.as_str()),
        }
    }
}

/// Builds the upstream call for `inbound`: same method, the path and query
/// appended to `upstream`, every header but Host and Content-Length in order,
/// and the body only when it is non-empty.
pub fn outbound_request(inbound: InboundRequest, upstream: &str) -> (r: OutboundRequest)
    ensures
        r.method@ == inbound.method@,
        r.url@ == upstream@ + inbound.path_and_query@,
        headers_view(r.headers@) == forwarded_headers(headers_view(inbound.headers@)),
        inbound.body@.len() == 0 ==> r.body is None,
        inbound.body@.len() > 0 ==> r.body == Some(inbound.body),
{
    let url = String::from_str(upstream).concat(inbound.path_and_query.as_str());
    let headers = retain_headers(&inbound.headers, true);
    let body = if inbound.body.len() == 0 {
        None
    } else {
        Some(inbound.body)
    };
    OutboundRequest { method: inbound.method, url, headers, body }
}

/// Turns the outcome of one upstream call into the client's response: the
/// upstream's status, headers but Transfer-Encoding, and body; or, on failure,
/// 502 for a transport failure and 500 otherwise, with a text naming the cause.
pub fn client_response(outcome: Result<UpstreamResponse, ForwardError>) -> (r: ProxyResponse)
    ensures
        match outcome {
            Ok(u) => {
                &&& r.status == u.status
                &&& headers_view(r.headers@) == returned_headers(headers_view(u.headers@))
                &&& r.body == ResponseBody::Bytes(u.body)
            },
            Err(e) => {
                &&& r.status == e.spec_status()
                &&& r.headers@.len() == 0
                &&& r.body matches ResponseBody::Text(t) && t@ == e.spec_message()
            },
        },
{
    match outcome {
        Ok(u) => {
            let headers = retain_headers(&u.headers, false);
            ProxyResponse { status: u.status, headers, body: ResponseBody::Bytes(u.body) }
        },
        Err(e) => ProxyResponse { status: e.status(), headers: Vec::new(), body: ResponseBody::Text(e.message()) },
    }
}

/// What the proxy guarantees of headers in each direction: no header it sends
/// upstream is named Host or Content-Length, none it hands back is named
/// Transfer-Encoding, every other header passes in its original order, and a
/// list with no such header passes unchanged.
pub proof fn lemma_forwarding_fidelity(
    inbound: Seq<(Seq<u8>, Seq<u8>)>,
    upstream: Seq<(Seq<u8>, Seq<u8>)>,
)
    ensures
        forall|i: int|
            0 <= i < forwarded_headers(inbound).len()
                ==> !dropped_outbound(#[trigger] forwarded_headers(inbound)[i].0),
        forall|i: int|
            0 <= i < returned_headers(upstream).len()
                ==> !dropped_inbound(#[trigger] returned_headers(upstream)[i].0),
        (forall|i: int| 0 <= i < inbound.len() ==> !dropped_outbound(#[trigger] inbound[i].0))
            ==> forwarded_headers(inbound) == inbound,
        (forall|i: int| 0 <= i < upstream.len() ==> !dropped_inbound(#[trigger] upstream[i].0))
            ==> returned_headers(upstream) == upstream,
{
    let out = |h: (Seq<u8>, Seq<u8>)| !dropped_outbound(h.0);
    let back = |h: (Seq<u8>, Seq<u8>)| !dropped_inbound(h.0);
    assert forall|i: int| 0 <= i < inbound.filter(out).len() implies !dropped_outbound(
        #[trigger] inbound.filter(out)[i].0,
    ) by {
        inbound.lemma_filter_pred(out, i);
    }
    assert forall|i: int| 0 <= i < upstream.filter(back).len() implies !dropped_inbound(
        #[trigger] upstream.filter(back)[i].0,
    ) by {
        upstream.lemma_filter_pred(back, i);
    }
    lemma_filter_all(inbound, out);
    lemma_filter_all(upstream, back);
}

proof fn lemma_filter_all(s: Seq<(Seq<u8>, Seq<u8>)>, keep: spec_fn((Seq<u8>, Seq<u8>)) -> bool)
    ensures
        (forall|i: int| 0 <= i < s.len() ==> #[trigger] keep(s[i])) ==> s.filter(keep) == s,
    decreases s.len(),
{
    reveal(Seq::filter);
    if s.len() > 0 && forall|i: int| 0 <= i < s.len() ==> #[trigger] keep(s[i]) {
        let d = s.drop_last();
        assert forall|i: int| 0 <= i < d.len() implies #[trigger] keep(d[i]) by {
            assert(d[i] == s[i]);
        }
        lemma_filter_all(d, keep);
        assert(keep(s[s.len() - 1]));
        assert(d.push(s.last()) =~= s);
    }
}

} // verus!
