//! The intermediate model: a run-level [`ProxyConfig`] holding the
//! [`VirtualHost`] entities collected from all processed sources, together
//! with the sub-entities of one host and a builder for assembling one.

use vstd::prelude::*;

verus! {

/// One path-scoped location inside a virtual host: a path and the HTTP
/// methods allowed under it. Reserved by the current directive set.
#[derive(Debug, Clone)]
pub struct Location {
    pub path: String,
    pub allow_methods: Vec<String>,
}

#[verifier::ext_equal]
pub ghost struct LocationView {
    pub path: Seq<char>,
    pub allow_methods: Seq<Seq<char>>,
}

impl View for Location {
    type V = LocationView;

    open spec fn view(&self) -> LocationView {
        LocationView { path: self.path@, allow_methods: self.allow_methods.deep_view() }
    }
}

/// One rewrite or proxy-pass rule: a raw pattern and its replacement.
/// Neither string is validated as a regular expression.
#[derive(Debug, Clone)]
pub struct RewriteRule {
    pub pattern: String,
    pub replacement: String,
}

#[verifier::ext_equal]
pub ghost struct RewriteRuleView {
    pub pattern: Seq<char>,
    pub replacement: Seq<char>,
}

impl View for RewriteRule {
    type V = RewriteRuleView;

    open spec fn view(&self) -> RewriteRuleView {
        RewriteRuleView { pattern: self.pattern@, replacement: self.replacement@ }
    }
}

/// TLS settings of one virtual host. `chain_file`, `ciphers` and `protocols`
/// are `None` when the corresponding directive was never seen, which is
/// distinct from an empty value.
#[derive(Debug, Clone)]
pub struct SslConfig {
    pub enabled: bool,
    pub certificate_file: String,
    pub key_file: String,
    pub chain_file: Option<String>,
    pub honor_cipher_order: bool,
    pub ciphers: Option<String>,
    pub protocols: Option<Vec<String>>,
}

#[verifier::ext_equal]
pub ghost struct SslConfigView {
    pub enabled: bool,
    pub certificate_file: Seq<char>,
    pub key_file: Seq<char>,
    pub chain_file: Option<Seq<char>>,
    pub honor_cipher_order: bool,
    pub ciphers: Option<Seq<char>>,
    pub protocols: Option<Seq<Seq<char>>>,
}

impl View for SslConfig {
    type V = SslConfigView;

    open spec fn view(&self) -> SslConfigView {
        SslConfigView {
            enabled: self.enabled,
            certificate_file: self.certificate_file@,
            key_file: self.key_file@,
            chain_file: self.chain_file.deep_view(),
            honor_cipher_order: self.honor_cipher_order,
            ciphers: self.ciphers.deep_view(),
            protocols: self.protocols.deep_view(),
        }
    }
}

/// The TLS settings of a host for which no SSL directive was ever seen.
pub open spec fn empty_ssl_config() -> SslConfigView {
    SslConfigView {
        enabled: false,
        certificate_file: Seq::empty(),
        key_file: Seq::empty(),
        chain_file: None,
        honor_cipher_order: false,
        ciphers: None,
        protocols: None,
    }
}

impl Default for SslConfig {
    fn default() -> (r: Self)
        ensures
            r@ == empty_ssl_config(),
    {
        SslConfig {
            enabled: false,
            certificate_file: String::new(),
            key_file: String::new(),
            chain_file: None,
            honor_cipher_order: false,
            ciphers: None,
            protocols: None,
        }
    }
}

/// One server block: bind token, names, logging, rewriting and TLS settings.
///
/// `headers` is an association list from header name to the values seen for
/// that name, in encounter order; a name is present exactly when at least one
/// value was recorded for it.
#[derive(Debug, Clone)]
pub struct VirtualHost {
    pub host: String,
    pub server_name: String,
    pub server_aliases: Vec<String>,
    pub document_root: String,
    pub custom_log: String,
    pub locations: Vec<Location>,
    pub rewrite_engine: bool,
    pub rewrite_rules: Vec<RewriteRule>,
    pub ssl_config: SslConfig,
    pub env: Vec<(String, String)>,
    pub headers: Vec<(String, Vec<String>)>,
    pub listen: Vec<String>,
    pub log_level: String,
}

#[verifier::ext_equal]
pub ghost struct VirtualHostView {
    pub host: Seq<char>,
    pub server_name: Seq<char>,
    pub server_aliases: Seq<Seq<char>>,
    pub document_root: Seq<char>,
    pub custom_log: Seq<char>,
    pub locations: Seq<LocationView>,
    pub rewrite_engine: bool,
    pub rewrite_rules: Seq<RewriteRuleView>,
    pub ssl_config: SslConfigView,
    pub env: Seq<(Seq<char>, Seq<char>)>,
    pub headers: Seq<(Seq<char>, Seq<Seq<char>>)>,
    pub listen: Seq<Seq<char>>,
    pub log_level: Seq<char>,
}

impl View for VirtualHost {
    type V = VirtualHostView;

    open spec fn view(&self) -> VirtualHostView {
        VirtualHostView {
            host: self.host@,
            server_name: self.server_name@,
            server_aliases: self.server_aliases.deep_view(),
            document_root: self.document_root@,
            custom_log: self.custom_log@,
            locations: self.locations@.map_values(|l: Location| l@),
            rewrite_engine: self.rewrite_engine,
            rewrite_rules: self.rewrite_rules@.map_values(|r: RewriteRule| r@),
            ssl_config: self.ssl_config@,
            env: self.env.deep_view(),
            headers: self.headers.deep_view(),
            listen: self.listen.deep_view(),
            log_level: self.log_level@,
        }
    }
}

/// The host every construction path starts from: everything empty, rewriting
/// off, TLS absent.
pub open spec fn empty_virtual_host() -> VirtualHostView {
    VirtualHostView {
        host: Seq::empty(),
        server_name: Seq::empty(),
        server_aliases: Seq::empty(),
        document_root: Seq::empty(),
        custom_log: Seq::empty(),
        locations: Seq::empty(),
        rewrite_engine: false,
        rewrite_rules: Seq::empty(),
        ssl_config: empty_ssl_config(),
        env: Seq::empty(),
        headers: Seq::empty(),
        listen: Seq::empty(),
        log_level: Seq::empty(),
    }
}

impl Default for VirtualHost {
    fn default() -> (r: Self)
        ensures
            r@ == empty_virtual_host(),
    {
        let r = VirtualHost {
            host: String::new(),
            server_name: String::new(),
            server_aliases: Vec::new(),
            document_root: String::new(),
            custom_log: String::new(),
            locations: Vec::new(),
            rewrite_engine: false,
            rewrite_rules: Vec::new(),
            ssl_config: SslConfig::default(),
            env: Vec::new(),
            headers: Vec::new(),
            listen: Vec::new(),
            log_level: String::new(),
        };
        proof {
            assert(r@ =~= empty_virtual_host());
        }
        r
    }
}

impl VirtualHost {
    /// Starts a fluent construction of a host, all fields at their defaults.
    pub fn builder() -> (r: VirtualHostBuilder)
        ensures
            r@ == empty_virtual_host(),
    {
        VirtualHostBuilder::default()
    }
}

/// Fluent accumulator for a [`VirtualHost`]; every setter replaces one field
/// and leaves the rest untouched, and [`VirtualHostBuilder::build`] hands the
/// accumulated value out unchanged.
#[derive(Debug)]
pub struct VirtualHostBuilder {
    pub host: String,
    pub server_name: String,
    pub server_aliases: Vec<String>,
    pub document_root: String,
    pub custom_log: String,
    pub locations: Vec<Location>,
    pub rewrite_engine: bool,
    pub rewrite_rules: Vec<RewriteRule>,
    pub ssl_config: SslConfig,
    pub env: Vec<(String, String)>,
    pub headers: Vec<(String, Vec<String>)>,
    pub listen: Vec<String>,
    pub log_level: String,
}

impl View for VirtualHostBuilder {
    type V = VirtualHostView;

    open spec fn view(&self) -> VirtualHostView {
        VirtualHostView {
            host: self.host@,
            server_name: self.server_name@,
            server_aliases: self.server_aliases.deep_view(),
            document_root: self.document_root@,
            custom_log: self.custom_log@,
            locations: self.locations@.map_values(|l: Location| l@),
            rewrite_engine: self.rewrite_engine,
            rewrite_rules: self.rewrite_rules@.map_values(|r: RewriteRule| r@),
            ssl_config: self.ssl_config@,
            env: self.env.deep_view(),
            headers: self.headers.deep_view(),
            listen: self.listen.deep_view(),
            log_level: self.log_level@,
        }
    }
}

impl Default for VirtualHostBuilder {
    fn default() -> (r: Self)
        ensures
            r@ == empty_virtual_host(),
    {
        let r = VirtualHostBuilder {
            host: String::new(),
            server_name: String::new(),
            server_aliases: Vec::new(),
            document_root: String::new(),
            custom_log: String::new(),
            locations: Vec::new(),
            rewrite_engine: false,
            rewrite_rules: Vec::new(),
            ssl_config: SslConfig::default(),
            env: Vec::new(),
            headers: Vec::new(),
            listen: Vec::new(),
            log_level: String::new(),
        };
        proof {
            assert(r@ =~= empty_virtual_host());
        }
        r
    }
}

impl VirtualHostBuilder {
    pub fn host(self, host: String) -> (r: Self)
        ensures
            r@ == (VirtualHostView { host: host@, ..self@ }),
    {
        let mut b = self;
        b.host = host;
        b
    }

    pub fn server_name(self, server_name: String) -> (r: Self)
        ensures
            r@ == (VirtualHostView { server_name: server_name@, ..self@ }),
    {
        let mut b = self;
        b.server_name = server_name;
        b
    }

    pub fn server_aliases(self, server_aliases: Vec<String>) -> (r: Self)
        ensures
            r@ == (VirtualHostView { server_aliases: server_aliases.deep_view(), ..self@ }),
    {
        let mut b = self;
        b.server_aliases = server_aliases;
        b
    }

    pub fn document_root(self, document_root: String) -> (r: Self)
        ensures
            r@ == (VirtualHostView { document_root: document_root@, ..self@ }),
    {
        let mut b = self;
        b.document_root = document_root;
        b
    }

    pub fn custom_log(self, custom_log: String) -> (r: Self)
        ensures
            r@ == (VirtualHostView { custom_log: custom_log@, ..self@ }),
    {
        let mut b = self;
        b.custom_log = custom_log;
        b
    }

    pub fn locations(self, locations: Vec<Location>) -> (r: Self)
        ensures
            r@ == (VirtualHostView {
                locations: locations@.map_values(|l: Location| l@),
                ..self@
            }),
    {
        let mut b = self;
        b.locations = locations;
        b
    }

    pub fn rewrite_engine(self, rewrite_engine: bool) -> (r: Self)
        ensures
            r@ == (VirtualHostView { rewrite_engine: rewrite_engine, ..self@ }),
    {
        let mut b = self;
        b.rewrite_engine = rewrite_engine;
        b
    }

    pub fn rewrite_rules(self, rewrite_rules: Vec<RewriteRule>) -> (r: Self)
        ensures
            r@ == (VirtualHostView {
                rewrite_rules: rewrite_rules@.map_values(|rr: RewriteRule| rr@),
                ..self@
            }),
    {
        let mut b = self;
        b.rewrite_rules = rewrite_rules;
        b
    }

    pub fn ssl_config(self, ssl_config: SslConfig) -> (r: Self)
        ensures
            r@ == (VirtualHostView { ssl_config: ssl_config@, ..self@ }),
    {
        let mut b = self;
        b.ssl_config = ssl_config;
        b
    }

    pub fn env(self, env: Vec<(String, String)>) -> (r: Self)
        ensures
            r@ == (VirtualHostView { env: env.deep_view(), ..self@ }),
    {
        let mut b = self;
        b.env = env;
        b
    }

    pub fn headers(self, headers: Vec<(String, Vec<String>)>) -> (r: Self)
        ensures
            r@ == (VirtualHostView { headers: headers.deep_view(), ..self@ }),
    {
        let mut b = self;
        b.headers = headers;
        b
    }

    pub fn listen(self, listen: Vec<String>) -> (r: Self)
        ensures
            r@ == (VirtualHostView { listen: listen.deep_view(), ..self@ }),
    {
        let mut b = self;
        b.listen = listen;
        b
    }

    pub fn log_level(self, log_level: String) -> (r: Self)
        ensures
            r@ == (VirtualHostView { log_level: log_level@, ..self@ }),
    {
        let mut b = self;
        b.log_level = log_level;
        b
    }

    /// Finalizes the construction; the produced host is field-for-field the
    /// accumulated state of the builder.
    pub fn build(self) -> (r: VirtualHost)
        ensures
            r@ == self@,
    {
        VirtualHost {
            host: self.host,
            server_name: self.server_name,
            server_aliases: self.server_aliases,
            document_root: self.document_root,
            custom_log: self.custom_log,
            locations: self.locations,
            rewrite_engine: self.rewrite_engine,
            rewrite_rules: self.rewrite_rules,
            ssl_config: self.ssl_config,
            env: self.env,
            headers: self.headers,
            listen: self.listen,
            log_level: self.log_level,
        }
    }
}

/// Root aggregate of one processing run: every virtual host in encounter
/// order, plus the unrecognized top-level directives kept as an association
/// list from directive name to its serialized argument list.
#[derive(Debug, Clone)]
pub struct ProxyConfig {
    pub virtual_hosts: Vec<VirtualHost>,
    pub meta: Vec<(String, String)>,
}

#[verifier::ext_equal]
pub ghost struct ProxyConfigView {
    pub virtual_hosts: Seq<VirtualHostView>,
    pub meta: Seq<(Seq<char>, Seq<char>)>,
}

impl View for ProxyConfig {
    type V = ProxyConfigView;

    open spec fn view(&self) -> ProxyConfigView {
        ProxyConfigView {
            virtual_hosts: self.virtual_hosts@.map_values(|vh: VirtualHost| vh@),
            meta: self.meta.deep_view(),
        }
    }
}

/// The configuration of a run that has processed nothing yet.
pub open spec fn empty_proxy_config() -> ProxyConfigView {
    ProxyConfigView { virtual_hosts: Seq::empty(), meta: Seq::empty() }
}

impl Default for ProxyConfig {
    fn default() -> (r: Self)
        ensures
            r@ == empty_proxy_config(),
    {
        let r = ProxyConfig { virtual_hosts: Vec::new(), meta: Vec::new() };
        proof {
            assert(r@ =~= empty_proxy_config());
        }
        r
    }
}

impl ProxyConfig {
    /// Appends one host; nothing else in the configuration changes.
    pub fn add_virtual_host(&mut self, virtual_host: VirtualHost)
        ensures
            final(self)@.virtual_hosts == old(self)@.virtual_hosts.push(virtual_host@),
            final(self)@.meta == old(self)@.meta,
    {
        let ghost pre = self@.virtual_hosts;
        let ghost added = virtual_host@;
        self.virtual_hosts.push(virtual_host);
        proof {
            assert(self@.virtual_hosts =~= pre.push(added));
        }
    }
}

} // verus!
