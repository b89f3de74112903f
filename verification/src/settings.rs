use vstd::prelude::*;

verus! {

/// Proxy protocol offered on the settings page.
#[derive(Debug, Clone, Copy, PartialEq, Eq, Structural)]
pub enum ProxyProtocol {
    Http,
    Socks5,
}

/// The name a protocol is written with in the configuration and in proxy URLs.
pub open spec fn proxy_protocol_name(p: ProxyProtocol) -> Seq<char> {
    match p {
        ProxyProtocol::Http => "http"@,
        ProxyProtocol::Socks5 => "socks5"@,
    }
}

/// The protocol a stored name selects: `socks5` is SOCKS5, anything else HTTP.
pub open spec fn proxy_protocol_of(s: Seq<char>) -> ProxyProtocol {
    if s == "socks5"@ {
        ProxyProtocol::Socks5
    } else {
        ProxyProtocol::Http
    }
}

impl ProxyProtocol {
    pub fn as_str(&self) -> (r: &'static str)
        ensures
            r@ == proxy_protocol_name(*self),
    {
        match self {
            ProxyProtocol::Http => "http",
            ProxyProtocol::Socks5 => "socks5",
        }
    }

    /// Reads a protocol name; unknown names fall back to HTTP.
    pub fn parse(s: &str) -> (r: ProxyProtocol)
        ensures
            r == proxy_protocol_of(s@),
    {
        if crate::text::str_eq(s, "socks5") {
            ProxyProtocol::Socks5
        } else {
            ProxyProtocol::Http
        }
    }
}

impl std::str::FromStr for ProxyProtocol {
    type Err = ();

    /// Never fails: unknown names read as HTTP.
    fn from_str(s: &str) -> (r: Result<ProxyProtocol, ()>)
        ensures
            r == Ok::<ProxyProtocol, ()>(proxy_protocol_of(s@)),
    {
        Ok(ProxyProtocol::parse(s))
    }
}

/// Reading back the name of a protocol gives the same protocol.
pub proof fn law_proxy_protocol_roundtrip(p: ProxyProtocol)
    ensures
        proxy_protocol_of(proxy_protocol_name(p)) == p,
{
    reveal_strlit("http");
    reveal_strlit("socks5");
    assert("http"@.len() != "socks5"@.len());
}

} // verus!
