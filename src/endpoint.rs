//! The multiplayer argument: `port` listens as the host, `host:port`
//! connects as the remote peer.
use vstd::prelude::*;
use vstd::string::*;

verus! {

/// Which end of a networked game this process plays.
#[derive(Clone, Debug, PartialEq, Eq)]
pub enum ServerOrClient {
    /// Listen on all local addresses on this port.
    Server(u16),
    /// Connect to this host on this port.
    Client(String, u16),
}

pub enum ServerOrClientView {
    Server(u16),
    Client(Seq<char>, u16),
}

impl View for ServerOrClient {
    type V = ServerOrClientView;

    open spec fn view(&self) -> ServerOrClientView {
        match self {
            ServerOrClient::Server(p) => ServerOrClientView::Server(*p),
            ServerOrClient::Client(h, p) => ServerOrClientView::Client(h@, *p),
        }
    }
}

#[derive(Clone, Copy, Debug, PartialEq, Eq, Structural)]
pub enum EndpointError {
    /// The port is not a decimal number from 0 to 65535.
    InvalidPort,
}

pub open spec fn is_digit(c: char) -> bool {
    '0' <= c && c <= '9'
}

/// The value of a string of decimal digits.
pub open spec fn decimal(s: Seq<char>) -> nat
    decreases s.len(),
{
    if s.len() == 0 {
        0
    } else {
        decimal(s.drop_last()) * 10 + ((s.last() as u32 - 48) as nat)
    }
}

/// `s` without a leading '+'.
pub open spec fn unsigned_part(s: Seq<char>) -> Seq<char> {
    if s.len() > 0 && s[0] == '+' {
        s.subrange(1, s.len() as int)
    } else {
        s
    }
}

pub open spec fn all_digits(d: Seq<char>) -> bool {
    forall|i: int| 0 <= i < d.len() ==> is_digit(#[trigger] d[i])
}

/// The port that `s` spells: an optional '+' and then one or more decimal
/// digits whose value fits in 16 bits.
pub open spec fn port_of(s: Seq<char>) -> Option<u16> {
    let d = unsigned_part(s);
    if d.len() > 0 && all_digits(d) && decimal(d) <= 65535 {
        Some(decimal(d) as u16)
    } else {
        None
    }
}

/// The index of the first ':' at or after `i` (or the length).
pub open spec fn colon_from(s: Seq<char>, i: int) -> int
    decreases s.len() - i,
{
    if i >= s.len() {
        s.len() as int
    } else if s[i] == ':' {
        i
    } else {
        colon_from(s, i + 1)
    }
}

/// What the argument `s` asks for. Without ':' it is a port; otherwise
/// the text before the first ':' is the host and the text between it and the
/// next ':' (or the end) is the port.
pub open spec fn endpoint_of(s: Seq<char>) -> Result<ServerOrClientView, EndpointError> {
    let c = colon_from(s, 0);
    if c >= s.len() {
        match port_of(s) {
            Some(p) => Ok(ServerOrClientView::Server(p)),
            None => Err(EndpointError::InvalidPort),
        }
    } else {
        let e = colon_from(s, c + 1);
        match port_of(s.subrange(c + 1, e)) {
            Some(p) => Ok(ServerOrClientView::Client(s.subrange(0, c), p)),
            None => Err(EndpointError::InvalidPort),
        }
    }
}

pub open spec fn result_view(r: Result<ServerOrClient, EndpointError>) -> Result<
    ServerOrClientView,
    EndpointError,
> {
    match r {
        Ok(v) => Ok(v@),
        Err(e) => Err(e),
    }
}

proof fn lemma_colon_bounds(s: Seq<char>, i: int)
    requires
        0 <= i <= s.len(),
    ensures
        i <= colon_from(s, i) <= s.len(),
    decreases s.len() - i,
{
    if i < s.len() && s[i] != ':' {
        lemma_colon_bounds(s, i + 1);
    }
}

fn colon_index(s: &str, i: usize) -> (r: usize)
    requires
        i <= s@.len(),
    ensures
        r == colon_from(s@, i as int),
        i <= r <= s@.len(),
{
    let n = s.unicode_len();
    let mut j = i;
    while j < n && s.get_char(j) != ':'
        invariant
            i <= j <= n,
            n == s@.len(),
            colon_from(s@, i as int) == colon_from(s@, j as int),
        decreases n - j,
    {
        j = j + 1;
    }
    proof {
        lemma_colon_bounds(s@, j as int);
    }
    j
}

/// The port that `s` spells, or `None`.
pub fn parse_port(s: &str) -> (r: Option<u16>)
    ensures
        r == port_of(s@),
{
    let n = s.unicode_len();
    let start: usize = if n > 0 && s.get_char(0) == '+' {
        1
    } else {
        0
    };
    let ghost d = s@.subrange(start as int, n as int);
    assert(d =~= unsigned_part(s@));
    if start >= n {
        return None;
    }
    let mut acc: u32 = 0;
    let mut i: usize = start;
    while i < n
        invariant
            start <= i <= n,
            n == s@.len(),
            d == s@.subrange(start as int, n as int),
            d == unsigned_part(s@),
            forall|k: int| 0 <= k < i - start ==> is_digit(#[trigger] d[k]),
            acc == (if decimal(d.take(i - start)) <= 65536 {
                decimal(d.take(i - start))
            } else {
                65536
            }),
        decreases n - i,
    {
        let c = s.get_char(i);
        if !('0' <= c && c <= '9') {
            proof {
                let k = i - start;
                assert(!is_digit(d[k]));
            }
            return None;
        }
        proof {
            assert(d.take(i + 1 - start).drop_last() =~= d.take(i - start));
            assert(d.take(i + 1 - start).last() == c);
        }
        let v = acc * 10 + (c as u32 - 48);
        acc = if v > 65536 {
            65536
        } else {
            v
        };
        i = i + 1;
    }
    assert(d.take(n - start) =~= d);
    if acc > 65535 {
        None
    } else {
        Some(acc as u16)
    }
}

/// Reads the multiplayer argument: `port`, or `host:port`.
pub fn parse_endpoint(s: &str) -> (r: Result<ServerOrClient, EndpointError>)
    ensures
        result_view(r) == endpoint_of(s@),
{
    let c = colon_index(s, 0);
    let n = s.unicode_len();
    if c >= n {
        match parse_port(s) {
            Some(p) => Ok(ServerOrClient::Server(p)),
            None => Err(EndpointError::InvalidPort),
        }
    } else {
        let e = colon_index(s, c + 1);
        match parse_port(s.substring_char(c + 1, e)) {
            Some(p) => Ok(ServerOrClient::Client(s.substring_char(0, c).to_owned(), p)),
            None => Err(EndpointError::InvalidPort),
        }
    }
}

} // verus!
