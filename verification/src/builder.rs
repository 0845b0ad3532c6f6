//! Model Builder: folds one directive tree into the intermediate model.
//!
//! A virtual-host block yields exactly one host; its child directives are
//! folded in order, one nesting level deep. Scalar directives overwrite
//! (last write wins), plural directives append, a recognized directive with
//! too few arguments is skipped as malformed, and an unrecognized top-level
//! directive is retained in the metadata bag instead of a host.

use vstd::prelude::*;
use crate::configs::{
    ProxyConfig, ProxyConfigView, RewriteRule, RewriteRuleView, SslConfigView, VirtualHost,
    VirtualHostView, empty_proxy_config, empty_virtual_host,
};
use crate::directive::{Directive, children_of};
use crate::jsonval::{args_to_json, json_of_args};
use crate::strutil::{lower_of, lowercase, str_eq};
use crate::table::{table_append, table_set, table_lookup, lemma_table_append_lookup, headers_put, table_put};

verus! {

/// The model after one child directive of a virtual-host block has been
/// folded into `v`. Recognized scalar directives overwrite their field,
/// plural ones append; a recognized directive whose argument list is shorter
/// than the field extractor needs leaves the model unchanged; so does an
/// unrecognized name.
pub open spec fn apply_directive(
    v: VirtualHostView,
    name: Seq<char>,
    args: Seq<Seq<char>>,
) -> VirtualHostView {
    if name == "ServerName"@ {
        if args.len() >= 1 {
            VirtualHostView { server_name: args[0], ..v }
        } else {
            v
        }
    } else if name == "DocumentRoot"@ {
        if args.len() >= 1 {
            VirtualHostView { document_root: args[0], ..v }
        } else {
            v
        }
    } else if name == "ServerAlias"@ {
        if args.len() >= 1 {
            VirtualHostView { server_aliases: v.server_aliases.push(args[0]), ..v }
        } else {
            v
        }
    } else if name == "Header"@ || name == "RequestHeader"@ {
        if args.len() >= 2 {
            VirtualHostView { headers: table_append(v.headers, args[0], args[1]), ..v }
        } else {
            v
        }
    } else if name == "RewriteEngine"@ {
        if args.len() >= 1 {
            VirtualHostView { rewrite_engine: args[0] == "On"@, ..v }
        } else {
            v
        }
    } else if name == "RewriteRule"@ || name == "ProxyPassReverse"@ || name == "ProxyPass"@ {
        if args.len() >= 2 {
            VirtualHostView {
                rewrite_rules: v.rewrite_rules.push(
                    RewriteRuleView { pattern: args[0], replacement: args[1] },
                ),
                ..v
            }
        } else {
            v
        }
    } else if name == "CustomLog"@ {
        if args.len() >= 1 {
            VirtualHostView { custom_log: args[0], ..v }
        } else {
            v
        }
    } else if name == "SSLEngine"@ {
        if args.len() >= 1 {
            VirtualHostView {
                ssl_config: SslConfigView { enabled: lower_of(args[0]) == "on"@, ..v.ssl_config },
                ..v
            }
        } else {
            v
        }
    } else if name == "SSLCertificateFile"@ {
        if args.len() >= 1 {
            VirtualHostView {
                ssl_config: SslConfigView { certificate_file: args[0], ..v.ssl_config },
                ..v
            }
        } else {
            v
        }
    } else if name == "SSLCertificateKeyFile"@ {
        if args.len() >= 1 {
            VirtualHostView { ssl_config: SslConfigView { key_file: args[0], ..v.ssl_config }, ..v }
        } else {
            v
        }
    } else if name == "SSLCertificateChainFile"@ {
        if args.len() >= 1 {
            VirtualHostView {
                ssl_config: SslConfigView { chain_file: Some(args[0]), ..v.ssl_config },
                ..v
            }
        } else {
            v
        }
    } else if name == "SSLHonorCipherOrder"@ {
        if args.len() >= 1 {
            VirtualHostView {
                ssl_config: SslConfigView {
                    honor_cipher_order: lower_of(args[0]) == "on"@,
                    ..v.ssl_config
                },
                ..v
            }
        } else {
            v
        }
    } else if name == "SSLCiphers"@ {
        if args.len() >= 1 {
            VirtualHostView {
                ssl_config: SslConfigView { ciphers: Some(args[0]), ..v.ssl_config },
                ..v
            }
        } else {
            v
        }
    } else if name == "SSLProtocols"@ {
        VirtualHostView { ssl_config: SslConfigView { protocols: Some(args), ..v.ssl_config }, ..v }
    } else if name == "LogLevel"@ {
        if args.len() >= 1 {
            VirtualHostView { log_level: args[0], ..v }
        } else {
            v
        }
    } else {
        v
    }
}

/// The model after the child directives `ds` have been folded into `v`, in
/// order.
pub open spec fn fold_directives(v: VirtualHostView, ds: Seq<Directive>) -> VirtualHostView
    decreases ds.len(),
{
    if ds.len() == 0 {
        v
    } else {
        apply_directive(
            fold_directives(v, ds.drop_last()),
            ds.last().name@,
            ds.last().args.deep_view(),
        )
    }
}

/// The host a virtual-host block with at least one positional argument
/// denotes: the first argument is the bind token, and the block's children
/// are folded into an otherwise empty host.
pub open spec fn vhost_of_directive(d: Directive) -> VirtualHostView {
    fold_directives(
        VirtualHostView { host: d.args.deep_view()[0], ..empty_virtual_host() },
        children_of(d),
    )
}

/// The configuration one top-level directive denotes: a virtual-host block
/// with a bind token yields exactly its host, one without any argument is
/// malformed and yields nothing, and any other name is retained in the
/// metadata bag with its serialized argument list.
pub open spec fn config_of_directive(d: Directive) -> ProxyConfigView {
    if d.name@ == "VirtualHost"@ {
        if d.args@.len() > 0 {
            ProxyConfigView { virtual_hosts: seq![vhost_of_directive(d)], meta: Seq::empty() }
        } else {
            empty_proxy_config()
        }
    } else {
        ProxyConfigView {
            virtual_hosts: Seq::empty(),
            meta: seq![(d.name@, json_of_args(d.args.deep_view()))],
        }
    }
}

/// Folds one child directive into the host under construction.
fn apply_child(vh: &mut VirtualHost, d: &Directive)
    ensures
        final(vh)@ == apply_directive(old(vh)@, d.name@, d.args.deep_view()),
{
    let ghost pre = vh@;
    let ghost spec_args = d.args.deep_view();
    let name = d.name.as_str();
    if str_eq(name, "ServerName") {
        if d.args.len() >= 1 {
            vh.server_name = d.args[0].clone();
        }
    } else if str_eq(name, "DocumentRoot") {
        if d.args.len() >= 1 {
            vh.document_root = d.args[0].clone();
        }
    } else if str_eq(name, "ServerAlias") {
        if d.args.len() >= 1 {
            vh.server_aliases.push(d.args[0].clone());
            proof {
                assert(vh.server_aliases.deep_view() =~= pre.server_aliases.push(spec_args[0]));
            }
        }
    } else if str_eq(name, "Header") || str_eq(name, "RequestHeader") {
        if d.args.len() >= 2 {
            headers_put(&mut vh.headers, d.args[0].clone(), d.args[1].clone());
        }
    } else if str_eq(name, "RewriteEngine") {
        if d.args.len() >= 1 {
            vh.rewrite_engine = str_eq(d.args[0].as_str(), "On");
        }
    } else if str_eq(name, "RewriteRule") || str_eq(name, "ProxyPassReverse") || str_eq(
        name,
        "ProxyPass",
    ) {
        if d.args.len() >= 2 {
            let rule = RewriteRule { pattern: d.args[0].clone(), replacement: d.args[1].clone() };
            vh.rewrite_rules.push(rule);
            proof {
                assert(vh.rewrite_rules@.map_values(|r: RewriteRule| r@) =~= pre.rewrite_rules.push(
                    RewriteRuleView { pattern: spec_args[0], replacement: spec_args[1] },
                ));
            }
        }
    } else if str_eq(name, "CustomLog") {
        if d.args.len() >= 1 {
            vh.custom_log = d.args[0].clone();
        }
    } else if str_eq(name, "SSLEngine") {
        if d.args.len() >= 1 {
            let low = lowercase(d.args[0].as_str());
            vh.ssl_config.enabled = str_eq(low.as_str(), "on");
        }
    } else if str_eq(name, "SSLCertificateFile") {
        if d.args.len() >= 1 {
            vh.ssl_config.certificate_file = d.args[0].clone();
        }
    } else if str_eq(name, "SSLCertificateKeyFile") {
        if d.args.len() >= 1 {
            vh.ssl_config.key_file = d.args[0].clone();
        }
    } else if str_eq(name, "SSLCertificateChainFile") {
        if d.args.len() >= 1 {
            vh.ssl_config.chain_file = Some(d.args[0].clone());
        }
    } else if str_eq(name, "SSLHonorCipherOrder") {
        if d.args.len() >= 1 {
            let low = lowercase(d.args[0].as_str());
            vh.ssl_config.honor_cipher_order = str_eq(low.as_str(), "on");
        }
    } else if str_eq(name, "SSLCiphers") {
        if d.args.len() >= 1 {
            vh.ssl_config.ciphers = Some(d.args[0].clone());
        }
    } else if str_eq(name, "SSLProtocols") {
        let copy = d.args.clone();
        proof {
            assert(copy.deep_view() =~= spec_args);
        }
        vh.ssl_config.protocols = Some(copy);
    } else if str_eq(name, "LogLevel") {
        if d.args.len() >= 1 {
            vh.log_level = d.args[0].clone();
        }
    }
    proof {
        assert(vh@ =~= apply_directive(pre, d.name@, spec_args));
    }
}

impl VirtualHost {
    /// Builds the host a virtual-host block denotes: the block's first
    /// positional argument becomes the bind token and the children are
    /// folded in order. A block without any argument is malformed and
    /// yields nothing.
    pub fn from_directive(d: &Directive) -> (r: Option<VirtualHost>)
        ensures
            r is Some <==> d.args@.len() > 0,
            r is Some ==> r.unwrap()@ == vhost_of_directive(*d),
    {
        if d.args.len() == 0 {
            return None;
        }
        let mut vh = VirtualHost::default();
        vh.host = d.args[0].clone();
        let ghost init = VirtualHostView { host: d.args.deep_view()[0], ..empty_virtual_host() };
        proof {
            assert(vh@ =~= init);
        }
        match &d.children {
            None => {
                proof {
                    assert(children_of(*d) =~= Seq::<Directive>::empty());
                }
            },
            Some(cs) => {
                let n = cs.len();
                let mut i: usize = 0;
                while i < n
                    invariant
                        n == cs.len(),
                        i <= n,
                        vh@ == fold_directives(init, cs@.take(i as int)),
                    decreases n - i,
                {
                    apply_child(&mut vh, &cs[i]);
                    proof {
                        assert(cs@.take(i + 1 as int).drop_last() =~= cs@.take(i as int));
                        assert(cs@.take(i + 1 as int).last() == cs@[i as int]);
                    }
                    i += 1;
                }
                proof {
                    assert(cs@.take(n as int) =~= cs@);
                }
            },
        }
        Some(vh)
    }
}

impl ProxyConfig {
    /// Builds the configuration one top-level directive denotes: a
    /// virtual-host block becomes one host, anything else is kept as
    /// metadata.
    pub fn from_directive(d: &Directive) -> (r: ProxyConfig)
        ensures
            r@ == config_of_directive(*d),
    {
        let mut pc = ProxyConfig::default();
        if str_eq(d.name.as_str(), "VirtualHost") {
            match VirtualHost::from_directive(d) {
                Some(vh) => {
                    pc.add_virtual_host(vh);
                    proof {
                        assert(pc@ =~= config_of_directive(*d));
                    }
                },
                None => {
                    proof {
                        assert(pc@ =~= config_of_directive(*d));
                    }
                },
            }
        } else {
            let serialized = args_to_json(&d.args);
            pc.meta.push((d.name.clone(), serialized));
            proof {
                assert(pc@.meta =~= seq![(d.name@, json_of_args(d.args.deep_view()))]);
                assert(pc@ =~= config_of_directive(*d));
            }
        }
        pc
    }
}

/// The directive names that matter to the laws below are pairwise
/// distinct, so a known name selects its own branch of `apply_directive`.
pub proof fn lemma_directive_names_distinct()
    ensures
        "Header"@ != "ServerName"@,
        "Header"@ != "DocumentRoot"@,
        "Header"@ != "ServerAlias"@,
        "RequestHeader"@ != "ServerName"@,
        "RequestHeader"@ != "DocumentRoot"@,
        "RequestHeader"@ != "ServerAlias"@,
        "RewriteEngine"@ != "ServerName"@,
        "RewriteEngine"@ != "DocumentRoot"@,
        "RewriteEngine"@ != "ServerAlias"@,
        "RewriteEngine"@ != "Header"@,
        "RewriteEngine"@ != "RequestHeader"@,
{
    reveal_strlit("ServerName");
    reveal_strlit("DocumentRoot");
    reveal_strlit("ServerAlias");
    reveal_strlit("Header");
    reveal_strlit("RequestHeader");
    reveal_strlit("RewriteEngine");
    assert("ServerName"@.len() == 10);
    assert("DocumentRoot"@.len() == 12);
    assert("ServerAlias"@.len() == 11);
    assert("Header"@.len() == 6);
    assert("RequestHeader"@.len() == 13);
    assert("RewriteEngine"@.len() == 13);
    assert("RewriteEngine"@[2] == 'w');
    assert("RequestHeader"@[2] == 'q');
}

/// No child directive ever touches the bind token.
pub proof fn lemma_fold_preserves_host(v: VirtualHostView, ds: Seq<Directive>)
    ensures
        fold_directives(v, ds).host == v.host,
    decreases ds.len(),
{
    if ds.len() > 0 {
        lemma_fold_preserves_host(v, ds.drop_last());
    }
}

/// For every directive tree recognized as a virtual-host block, the derived
/// host's bind token is the block's first positional argument, verbatim.
pub proof fn lemma_host_is_first_argument(d: Directive)
    requires
        d.args@.len() > 0,
    ensures
        vhost_of_directive(d).host == d.args.deep_view()[0],
{
    lemma_fold_preserves_host(
        VirtualHostView { host: d.args.deep_view()[0], ..empty_virtual_host() },
        children_of(d),
    );
}

/// Whether `d` is a rewrite-engine directive carrying an argument.
pub open spec fn is_rewrite_engine(d: Directive) -> bool {
    d.name@ == "RewriteEngine"@ && d.args@.len() >= 1
}

/// The rewrite-engine flag after the directives `ds` have been processed on
/// top of a flag value `b`: the last rewrite-engine directive decides, and it
/// turns the engine on exactly when its argument is the literal token `On`;
/// any other argument turns it off.
pub open spec fn rewrite_engine_after(b: bool, ds: Seq<Directive>) -> bool
    decreases ds.len(),
{
    if ds.len() == 0 {
        b
    } else if is_rewrite_engine(ds.last()) {
        ds.last().args.deep_view()[0] == "On"@
    } else {
        rewrite_engine_after(b, ds.drop_last())
    }
}

/// Folding tracks `rewrite_engine_after`: the last rewrite-engine directive
/// decides the flag.
pub proof fn lemma_fold_rewrite_engine(v: VirtualHostView, ds: Seq<Directive>)
    ensures
        fold_directives(v, ds).rewrite_engine == rewrite_engine_after(v.rewrite_engine, ds),
    decreases ds.len(),
{
    lemma_directive_names_distinct();
    if ds.len() > 0 {
        lemma_fold_rewrite_engine(v, ds.drop_last());
    }
}

/// `RewriteEngine On` sets the flag, any other argument value clears it; a
/// block with no rewrite-engine directive leaves it off.
pub proof fn lemma_rewrite_engine_last_wins(d: Directive)
    requires
        d.args@.len() > 0,
    ensures
        vhost_of_directive(d).rewrite_engine == rewrite_engine_after(false, children_of(d)),
{
    lemma_fold_rewrite_engine(
        VirtualHostView { host: d.args.deep_view()[0], ..empty_virtual_host() },
        children_of(d),
    );
}

/// Whether `d` records a value for header name `k`: one of the two
/// header-like directive names, with the name in argument 0 and the value in
/// argument 1.
pub open spec fn is_header_for(d: Directive, k: Seq<char>) -> bool {
    (d.name@ == "Header"@ || d.name@ == "RequestHeader"@) && d.args@.len() >= 2
        && d.args.deep_view()[0] == k
}

/// Every value recorded for header name `k` by the directives `ds`, in
/// encounter order.
pub open spec fn header_values_in(ds: Seq<Directive>, k: Seq<char>) -> Seq<Seq<char>>
    decreases ds.len(),
{
    if ds.len() == 0 {
        Seq::empty()
    } else if is_header_for(ds.last(), k) {
        header_values_in(ds.drop_last(), k).push(ds.last().args.deep_view()[1])
    } else {
        header_values_in(ds.drop_last(), k)
    }
}

/// Folding tracks `header_values_in`: starting from a model with no entry
/// for `k`, the entry after the fold holds exactly the recorded values, and
/// is absent exactly when nothing was recorded.
pub proof fn lemma_fold_headers(v: VirtualHostView, ds: Seq<Directive>, k: Seq<char>)
    requires
        table_lookup(v.headers, k) is None,
    ensures
        table_lookup(fold_directives(v, ds).headers, k) == if header_values_in(ds, k).len() > 0 {
            Some(header_values_in(ds, k))
        } else {
            None::<Seq<Seq<char>>>
        },
    decreases ds.len(),
{
    lemma_directive_names_distinct();
    if ds.len() > 0 {
        let prefix = ds.drop_last();
        let d = ds.last();
        lemma_fold_headers(v, prefix, k);
        let folded = fold_directives(v, prefix);
        let name = d.name@;
        let args = d.args.deep_view();
        let after = apply_directive(folded, name, args);
        assert(fold_directives(v, ds) == after);
        if (name == "Header"@ || name == "RequestHeader"@) && args.len() >= 2 {
            lemma_table_append_lookup(folded.headers, args[0], args[1], k);
            assert(after.headers == table_append(folded.headers, args[0], args[1]));
            if args[0] == k {
                assert(is_header_for(d, k));
                assert(header_values_in(ds, k) == header_values_in(prefix, k).push(args[1]));
                if header_values_in(prefix, k).len() == 0 {
                    assert(table_lookup(folded.headers, k) is None);
                    assert(table_lookup(after.headers, k) == Some(seq![args[1]]));
                    assert(header_values_in(ds, k) =~= seq![args[1]]);
                } else {
                    assert(table_lookup(folded.headers, k) == Some(header_values_in(prefix, k)));
                    assert(table_lookup(after.headers, k) == Some(
                        header_values_in(prefix, k).push(args[1]),
                    ));
                }
            } else {
                assert(!is_header_for(d, k));
                assert(header_values_in(ds, k) == header_values_in(prefix, k));
                assert(table_lookup(after.headers, k) == table_lookup(folded.headers, k));
            }
        } else {
            assert(after.headers == folded.headers);
            assert(header_values_in(ds, k) == header_values_in(prefix, k));
        }
    }
}

/// For all header directive occurrences with one header name, the built
/// host's entry for that name accumulates every value in encounter order and
/// never loses one: the first occurrence already records its value, and a
/// name never seen has no entry at all.
pub proof fn lemma_headers_accumulate(d: Directive, k: Seq<char>)
    requires
        d.args@.len() > 0,
    ensures
        table_lookup(vhost_of_directive(d).headers, k) == if header_values_in(
            children_of(d),
            k,
        ).len() > 0 {
            Some(header_values_in(children_of(d), k))
        } else {
            None::<Seq<Seq<char>>>
        },
{
    let init = VirtualHostView { host: d.args.deep_view()[0], ..empty_virtual_host() };
    assert(table_lookup(init.headers, k) is None);
    lemma_fold_headers(init, children_of(d), k);
}

/// The metadata bag after the entries of `b` have been written over `a` in
/// order: on a key collision the later entry wins.
pub open spec fn merged_meta(
    a: Seq<(Seq<char>, Seq<char>)>,
    b: Seq<(Seq<char>, Seq<char>)>,
) -> Seq<(Seq<char>, Seq<char>)>
    decreases b.len(),
{
    if b.len() == 0 {
        a
    } else {
        table_set(merged_meta(a, b.drop_last()), b.last().0, b.last().1)
    }
}

/// The run-level configuration after `b` has been folded into `a`: hosts
/// appended in order, metadata merged with the later source winning.
pub open spec fn merged_config(a: ProxyConfigView, b: ProxyConfigView) -> ProxyConfigView {
    ProxyConfigView { virtual_hosts: a.virtual_hosts + b.virtual_hosts, meta: merged_meta(a.meta, b.meta) }
}

/// The run-level configuration a sequence of top-level directives denotes:
/// each directive's configuration folded in, in order.
pub open spec fn config_of_directives(ds: Seq<Directive>) -> ProxyConfigView
    decreases ds.len(),
{
    if ds.len() == 0 {
        empty_proxy_config()
    } else {
        merged_config(config_of_directives(ds.drop_last()), config_of_directive(ds.last()))
    }
}

impl ProxyConfig {
    /// Aggregator: folds another configuration into this one. The other's
    /// hosts are appended after this one's, keeping both encounter orders;
    /// the metadata bags are merged with the later (incoming) value winning
    /// on a key collision.
    #[verifier::loop_isolation(false)]
    pub fn merge(&mut self, other: ProxyConfig)
        ensures
            final(self)@ == merged_config(old(self)@, other@),
    {
        let ghost pre = self@;
        let ghost incoming = other@;
        let mut other = other;
        self.virtual_hosts.append(&mut other.virtual_hosts);
        proof {
            assert(self@.virtual_hosts =~= pre.virtual_hosts + incoming.virtual_hosts);
        }
        let n = other.meta.len();
        let mut i: usize = 0;
        while i < n
            invariant
                n == other.meta.len(),
                i <= n,
                other.meta.deep_view() == incoming.meta,
                self@.virtual_hosts == pre.virtual_hosts + incoming.virtual_hosts,
                self@.meta == merged_meta(pre.meta, incoming.meta.take(i as int)),
            decreases n - i,
        {
            let k = other.meta[i].0.clone();
            let v = other.meta[i].1.clone();
            table_put(&mut self.meta, k, v);
            proof {
                assert(incoming.meta.take(i + 1 as int).drop_last() =~= incoming.meta.take(
                    i as int,
                ));
                assert(incoming.meta.take(i + 1 as int).last() == incoming.meta[i as int]);
            }
            i += 1;
        }
        proof {
            assert(incoming.meta.take(n as int) =~= incoming.meta);
            assert(self@ =~= merged_config(pre, incoming));
        }
    }

    /// Builds the configuration of one source file: every top-level
    /// directive folded in, in order.
    #[verifier::loop_isolation(false)]
    pub fn from_directives(ds: &Vec<Directive>) -> (r: ProxyConfig)
        ensures
            r@ == config_of_directives(ds@),
    {
        let mut pc = ProxyConfig::default();
        let n = ds.len();
        let mut i: usize = 0;
        while i < n
            invariant
                n == ds.len(),
                i <= n,
                pc@ == config_of_directives(ds@.take(i as int)),
            decreases n - i,
        {
            let one = ProxyConfig::from_directive(&ds[i]);
            pc.merge(one);
            proof {
                assert(ds@.take(i + 1 as int).drop_last() =~= ds@.take(i as int));
                assert(ds@.take(i + 1 as int).last() == ds@[i as int]);
            }
            i += 1;
        }
        proof {
            assert(ds@.take(n as int) =~= ds@);
        }
        pc
    }
}

} // verus!

