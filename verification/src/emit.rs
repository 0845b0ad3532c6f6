//! Emitter: renders one virtual host into the ordered sequence of
//! `put <key> <value>` statements a proxy control plane consumes, together
//! with the name derivation and the address/port split the statements are
//! built from.

use vstd::prelude::*;
use vstd::string::{StrSliceExecFns, StringExecFns};
use crate::configs::{VirtualHost, VirtualHostView};
use crate::strutil::str_eq;

verus! {

/// `server_name` with a literal `http://` or `https://` prefix removed.
pub open spec fn strip_scheme(s: Seq<char>) -> Seq<char> {
    if s.len() >= 7 && s.subrange(0, 7) == "http://"@ {
        s.skip(7)
    } else if s.len() >= 8 && s.subrange(0, 8) == "https://"@ {
        s.skip(8)
    } else {
        s
    }
}

/// Every `.` replaced by `-`.
pub open spec fn dash_dots(s: Seq<char>) -> Seq<char> {
    s.map_values(|c: char| if c == '.' { '-' } else { c })
}

/// The DNS-safe identifier derived from a server name: scheme prefix
/// stripped, dots dashed. A pure function of the name, so the derivation is
/// deterministic.
pub open spec fn derived_name_of(server_name: Seq<char>) -> Seq<char> {
    dash_dots(strip_scheme(server_name))
}

/// Index of the first `:` at position `i` or later, or -1 when there is
/// none.
pub open spec fn colon_idx_from(s: Seq<char>, i: int) -> int
    decreases s.len() - i,
{
    if i < 0 || i >= s.len() {
        -1
    } else if s[i] == ':' {
        i
    } else {
        colon_idx_from(s, i + 1)
    }
}

/// Index of the first `:`, or -1 when the host token carries no port.
pub open spec fn colon_idx(s: Seq<char>) -> int {
    colon_idx_from(s, 0)
}

/// The address part of a bind token: everything before the first `:`, or
/// the whole token when there is none.
pub open spec fn address_of(host: Seq<char>) -> Seq<char> {
    if colon_idx(host) < 0 {
        host
    } else {
        host.take(colon_idx(host))
    }
}

/// The port part of a bind token: everything after the first `:`, or the
/// default `80` when there is none.
pub open spec fn port_of(host: Seq<char>) -> Seq<char> {
    if colon_idx(host) < 0 {
        "80"@
    } else {
        host.skip(colon_idx(host) + 1)
    }
}

/// The load-balancer scheme a port implies: `443` means `https`, every
/// other port (the default `80` included) means `http`.
pub open spec fn scheme_of_port(port: Seq<char>) -> Seq<char> {
    if port == "443"@ {
        "https"@
    } else {
        "http"@
    }
}

/// The ordered `put` statements for one host. A host with an empty
/// `server_name` has nothing to route and yields the empty sequence.
pub open spec fn etcd_statements_of(v: VirtualHostView) -> Seq<Seq<char>> {
    if v.server_name.len() == 0 {
        Seq::empty()
    } else {
        let d = derived_name_of(v.server_name);
        let addr = address_of(v.host);
        let port = port_of(v.host);
        let sch = scheme_of_port(port);
        seq![
            "put traefik/http/routers/"@ + d + "/rule Host(`"@ + v.server_name + "`)"@,
            "put traefik/http/routers/"@ + d + "/tls true"@,
            "put traefik/http/routers/"@ + d + "/entryPoints/0 websecure"@,
            "put traefik/http/routers/"@ + d + "/middlewares/0 https-only"@,
            "put traefik/http/routers/"@ + d + "/middlewares/1 follow-redirects"@,
            "put traefik/http/routers/"@ + d + "/service "@ + d,
            "put traefik/http/services/"@ + d + "/loadbalancer/servers/0/scheme "@ + sch,
            "put traefik/http/services/"@ + d + "/loadbalancer/servers/0/url "@ + sch + "://"@
                + addr,
            "put traefik/http/services/"@ + d + "/loadbalancer/servers/0/port "@ + port,
            "put traefik/http/services/"@ + d
                + "/loadbalancer/responseForwarding/flushInterval 100ms"@,
            "put traefik/http/serversTransports/"@ + d + "-transport/insecureSkipVerify true"@,
            "put traefik/http/serversTransports/"@ + d
                + "-transport/forwardingTimeouts/responseHeaderTimeout 30s"@,
            "put traefik/http/serversTransports/"@ + d
                + "-transport/forwardingTimeouts/idleConnTimeout 30s"@,
            "put traefik/http/services/"@ + d + "/loadbalancer/serversTransport "@ + d
                + "-transport"@,
        ]
    }
}

/// The statements joined into one text, each followed by a newline.
pub open spec fn joined_lines(ls: Seq<Seq<char>>) -> Seq<char>
    decreases ls.len(),
{
    if ls.len() == 0 {
        Seq::empty()
    } else {
        joined_lines(ls.drop_last()) + ls.last() + "\n"@
    }
}

/// The full command text for one host.
pub open spec fn etcd_config_of(v: VirtualHostView) -> Seq<char> {
    joined_lines(etcd_statements_of(v))
}

/// Derives the DNS-safe identifier used as router, service and transport
/// name: a literal `http://` or `https://` prefix is stripped and every `.`
/// becomes `-`.
#[verifier::loop_isolation(false)]
pub fn derive_name(server_name: &str) -> (r: String)
    ensures
        r@ == derived_name_of(server_name@),
{
    let n = server_name.unicode_len();
    let stripped: &str = if n >= 7 && str_eq(server_name.substring_char(0, 7), "http://") {
        server_name.substring_char(7, n)
    } else if n >= 8 && str_eq(server_name.substring_char(0, 8), "https://") {
        server_name.substring_char(8, n)
    } else {
        server_name
    };
    proof {
        assert(stripped@ == strip_scheme(server_name@));
    }
    let m = stripped.unicode_len();
    let mut out = String::new();
    let mut i: usize = 0;
    while i < m
        invariant
            m == stripped@.len(),
            i <= m,
            out@ =~= dash_dots(stripped@).take(i as int),
        decreases m - i,
    {
        let c = stripped.get_char(i);
        if c == '.' {
            out.append("-");
            proof {
                reveal_strlit("-");
                assert(out@ =~= dash_dots(stripped@).take(i + 1 as int));
            }
        } else {
            out.append(stripped.substring_char(i, i + 1));
            proof {
                assert(out@ =~= dash_dots(stripped@).take(i + 1 as int));
            }
        }
        i += 1;
    }
    proof {
        assert(dash_dots(stripped@).take(m as int) =~= dash_dots(stripped@));
    }
    out
}

/// Splits a bind token on its first `:` into address and port; a token
/// without `:` is all address, with the port defaulting to `80`. The split
/// cannot fail, whatever the token holds.
#[verifier::loop_isolation(false)]
pub fn split_host_port(host: &str) -> (r: (String, String))
    ensures
        r.0@ == address_of(host@),
        r.1@ == port_of(host@),
{
    let n = host.unicode_len();
    let mut i: usize = 0;
    while i < n
        invariant
            n == host@.len(),
            i <= n,
            colon_idx(host@) == colon_idx_from(host@, i as int),
        decreases n - i,
    {
        if host.get_char(i) == ':' {
            proof {
                assert(colon_idx_from(host@, i as int) == i);
            }
            let addr = String::from_str(host.substring_char(0, i));
            let port = String::from_str(host.substring_char(i + 1, n));
            return (addr, port);
        }
        i += 1;
    }
    proof {
        assert(colon_idx(host@) == -1);
    }
    (String::from_str(host), String::from_str("80"))
}

/// The scheme a port implies: `443` means `https`, everything else `http`.
pub fn scheme_for_port(port: &str) -> (r: &'static str)
    ensures
        r@ == scheme_of_port(port@),
{
    if str_eq(port, "443") {
        "https"
    } else {
        "http"
    }
}

impl VirtualHost {
    /// The ordered `put` statements routing this host: rule, TLS flag,
    /// entry point, middleware chain, service binding, load-balancer
    /// scheme, URL and port, flush interval, the per-host transport, and
    /// the transport binding. A host with an empty `server_name` has
    /// nothing to route and yields no statement at all.
    pub fn etcd_statements(&self) -> (r: Vec<String>)
        ensures
            r.deep_view() == etcd_statements_of(self@),
            self@.server_name.len() == 0 ==> r.deep_view() == Seq::<Seq<char>>::empty(),
    {
        let mut out: Vec<String> = Vec::new();
        if self.server_name.as_str().is_empty() {
            proof {
                assert(out.deep_view() =~= etcd_statements_of(self@));
            }
            return out;
        }
        let d = derive_name(self.server_name.as_str());
        let dn = d.as_str();
        let (addr, port) = split_host_port(self.host.as_str());
        let sch = scheme_for_port(port.as_str());

        let mut line = String::from_str("put traefik/http/routers/");
        line.append(dn);
        line.append("/rule Host(`");
        line.append(self.server_name.as_str());
        line.append("`)");
        out.push(line);

        let mut line = String::from_str("put traefik/http/routers/");
        line.append(dn);
        line.append("/tls true");
        out.push(line);

        let mut line = String::from_str("put traefik/http/routers/");
        line.append(dn);
        line.append("/entryPoints/0 websecure");
        out.push(line);

        let mut line = String::from_str("put traefik/http/routers/");
        line.append(dn);
        line.append("/middlewares/0 https-only");
        out.push(line);

        let mut line = String::from_str("put traefik/http/routers/");
        line.append(dn);
        line.append("/middlewares/1 follow-redirects");
        out.push(line);

        let mut line = String::from_str("put traefik/http/routers/");
        line.append(dn);
        line.append("/service ");
        line.append(dn);
        out.push(line);

        let mut line = String::from_str("put traefik/http/services/");
        line.append(dn);
        line.append("/loadbalancer/servers/0/scheme ");
        line.append(sch);
        out.push(line);

        let mut line = String::from_str("put traefik/http/services/");
        line.append(dn);
        line.append("/loadbalancer/servers/0/url ");
        line.append(sch);
        line.append("://");
        line.append(addr.as_str());
        out.push(line);

        let mut line = String::from_str("put traefik/http/services/");
        line.append(dn);
        line.append("/loadbalancer/servers/0/port ");
        line.append(port.as_str());
        out.push(line);

        let mut line = String::from_str("put traefik/http/services/");
        line.append(dn);
        line.append("/loadbalancer/responseForwarding/flushInterval 100ms");
        out.push(line);

        let mut line = String::from_str("put traefik/http/serversTransports/");
        line.append(dn);
        line.append("-transport/insecureSkipVerify true");
        out.push(line);

        let mut line = String::from_str("put traefik/http/serversTransports/");
        line.append(dn);
        line.append("-transport/forwardingTimeouts/responseHeaderTimeout 30s");
        out.push(line);

        let mut line = String::from_str("put traefik/http/serversTransports/");
        line.append(dn);
        line.append("-transport/forwardingTimeouts/idleConnTimeout 30s");
        out.push(line);

        let mut line = String::from_str("put traefik/http/services/");
        line.append(dn);
        line.append("/loadbalancer/serversTransport ");
        line.append(dn);
        line.append("-transport");
        out.push(line);

        proof {
            assert(out.deep_view() =~= etcd_statements_of(self@));
        }
        out
    }

    /// The full command text for this host: its statements in order, each
    /// on its own line. The text is a function of the host value alone, so
    /// emitting twice yields identical output; an empty `server_name`
    /// yields the empty text.
    #[verifier::loop_isolation(false)]
    pub fn to_etcd_config(&self) -> (r: String)
        ensures
            r@ == etcd_config_of(self@),
            self@.server_name.len() == 0 ==> r@ == Seq::<char>::empty(),
    {
        let stmts = self.etcd_statements();
        let ghost sdv = stmts.deep_view();
        let mut out = String::new();
        let n = stmts.len();
        let mut i: usize = 0;
        while i < n
            invariant
                n == stmts.len(),
                sdv == stmts.deep_view(),
                i <= n,
                out@ == joined_lines(sdv.take(i as int)),
            decreases n - i,
        {
            out.append(stmts[i].as_str());
            out.append("\n");
            proof {
                assert(sdv.take(i + 1 as int).drop_last() =~= sdv.take(i as int));
                assert(sdv.take(i + 1 as int).last() == sdv[i as int]);
            }
            i += 1;
        }
        proof {
            assert(sdv.take(n as int) =~= sdv);
        }
        out
    }
}

/// The fixed middleware statements the proxy needs once per control plane:
/// the secured chain, the https-only redirect, the follow-redirects rule and
/// the header-enabling middleware.
pub open spec fn middleware_statements() -> Seq<Seq<char>> {
    seq![
        "put traefik.http.middlewares.secured.chain.middlewares https-only"@,
        "put traefik/http/middlewares/https-only/redirectScheme/scheme https"@,
        "put traefik/http/middlewares/follow-redirects/redirectregex/permanent true"@,
        "put traefik.http.middlewares.secured.chain.middlewares https-only"@,
        "put traefik/http/middlewares/https-only/redirectScheme/scheme https"@,
        "put traefik/http/middlewares/https-only/redirectScheme/permanent true"@,
        "put traefik/http/middlewares/https-only/redirectScheme/port 443"@,
        "put traefik/http/middlewares/enable-headers/headers/accessControlAllowMethods \"GET, POST, OPTIONS, PUT, DELETE\""@,
        "put traefik/http/middlewares/enable-headers/headers/accessControlAllowHeaders \"Content-Type, Content-Length, Accept-Encoding, X-CSRF-Token, Authorization, accept, origin, Cache-Control, X-Requested-With\""@,
        "put traefik/http/middlewares/enable-headers/headers/accessControlAllowOriginList \"*\""@,
        "put traefik/http/middlewares/enable-headers/headers/accessControlMaxAge \"3600\""@,
        "put traefik/http/middlewares/enable-headers/headers/addVaryHeader true"@,
    ]
}

/// The fixed middleware statements, in order, one string per statement.
pub fn middleware_commands() -> (r: Vec<String>)
    ensures
        r.deep_view() == middleware_statements(),
{
    let mut out: Vec<String> = Vec::new();
    out.push(String::from_str("put traefik.http.middlewares.secured.chain.middlewares https-only"));
    out.push(String::from_str("put traefik/http/middlewares/https-only/redirectScheme/scheme https"));
    out.push(
        String::from_str("put traefik/http/middlewares/follow-redirects/redirectregex/permanent true"),
    );
    out.push(String::from_str("put traefik.http.middlewares.secured.chain.middlewares https-only"));
    out.push(String::from_str("put traefik/http/middlewares/https-only/redirectScheme/scheme https"));
    out.push(String::from_str("put traefik/http/middlewares/https-only/redirectScheme/permanent true"));
    out.push(String::from_str("put traefik/http/middlewares/https-only/redirectScheme/port 443"));
    out.push(
        String::from_str(
            "put traefik/http/middlewares/enable-headers/headers/accessControlAllowMethods \"GET, POST, OPTIONS, PUT, DELETE\"",
        ),
    );
    out.push(
        String::from_str(
            "put traefik/http/middlewares/enable-headers/headers/accessControlAllowHeaders \"Content-Type, Content-Length, Accept-Encoding, X-CSRF-Token, Authorization, accept, origin, Cache-Control, X-Requested-With\"",
        ),
    );
    out.push(
        String::from_str(
            "put traefik/http/middlewares/enable-headers/headers/accessControlAllowOriginList \"*\"",
        ),
    );
    out.push(
        String::from_str(
            "put traefik/http/middlewares/enable-headers/headers/accessControlMaxAge \"3600\"",
        ),
    );
    out.push(
        String::from_str("put traefik/http/middlewares/enable-headers/headers/addVaryHeader true"),
    );
    proof {
        assert(out.deep_view() =~= middleware_statements());
    }
    out
}

/// Name derivation is deterministic: equal server names derive equal
/// identifiers.
pub proof fn lemma_name_derivation_deterministic(a: Seq<char>, b: Seq<char>)
    requires
        a == b,
    ensures
        derived_name_of(a) == derived_name_of(b),
{
}

/// Emission is deterministic: two hosts with the same value emit
/// byte-identical statement sequences and command text.
pub proof fn lemma_emission_deterministic(a: VirtualHostView, b: VirtualHostView)
    requires
        a == b,
    ensures
        etcd_statements_of(a) == etcd_statements_of(b),
        etcd_config_of(a) == etcd_config_of(b),
{
}

} // verus!
