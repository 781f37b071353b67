//! The scheme table: one place for every string and port that the
//! normalizer, the router and the navigation interceptor agree on.

use vstd::prelude::*;
use vstd::string::StringExecFns;

verus! {

/// The closed set of address families the gateway resolves.
#[derive(Clone, Copy, Debug, PartialEq, Eq, Structural)]
pub enum SchemeTag {
    /// Immutable content named by a self-describing hash.
    ContentHash,
    /// A mutable name that the gateway resolves on its own.
    NameOverlay,
    /// A hidden service that is reachable through the local proxy only.
    GarlicRouted,
}

/// The outbound client a route must be fetched with.
#[derive(Clone, Copy, Debug, PartialEq, Eq, Structural)]
pub enum ClientKind {
    /// The unconfigured client that talks to the network directly.
    Direct,
    /// The client that sends everything through the local proxy daemon.
    Proxied,
}

impl SchemeTag {
    /// The client every route of this family is fetched with.
    pub open spec fn spec_client(self) -> ClientKind {
        match self {
            SchemeTag::ContentHash => ClientKind::Direct,
            SchemeTag::NameOverlay => ClientKind::Direct,
            SchemeTag::GarlicRouted => ClientKind::Proxied,
        }
    }

    /// The client every route of this family is fetched with.
    pub fn client(self) -> (r: ClientKind)
        ensures
            r == self.spec_client(),
    {
        match self {
            SchemeTag::ContentHash => ClientKind::Direct,
            SchemeTag::NameOverlay => ClientKind::Direct,
            SchemeTag::GarlicRouted => ClientKind::Proxied,
        }
    }
}

/// One row of the navigation rewrite table: web traffic to a domain that
/// ends with `domain_suffix` is moved to the scheme of `scheme`.
#[derive(Debug)]
pub struct RewriteRule {
    pub domain_suffix: String,
    pub scheme: SchemeTag,
}

/// The mathematical value of a `RewriteRule`.
pub struct RewriteRuleView {
    pub domain_suffix: Seq<char>,
    pub scheme: SchemeTag,
}

impl View for RewriteRule {
    type V = RewriteRuleView;

    open spec fn view(&self) -> RewriteRuleView {
        RewriteRuleView { domain_suffix: self.domain_suffix@, scheme: self.scheme }
    }
}

/// The mathematical values of the rules of a table, in their order.
pub open spec fn rules_view(rules: Seq<RewriteRule>) -> Seq<RewriteRuleView> {
    Seq::new(rules.len(), |i: int| rules[i]@)
}

/// Scheme names, gateway suffixes, the gateway port and the rewrite rules.
#[derive(Debug)]
pub struct SchemeTable {
    pub content_hash_scheme: String,
    pub content_hash_suffix: String,
    pub name_overlay_scheme: String,
    pub name_overlay_suffix: String,
    pub garlic_routed_scheme: String,
    pub gateway_port: u16,
    /// Evaluated in this order; the first rule that matches wins.
    pub rewrites: Vec<RewriteRule>,
}

/// The mathematical value of a `SchemeTable`.
pub struct SchemeTableView {
    pub content_hash_scheme: Seq<char>,
    pub content_hash_suffix: Seq<char>,
    pub name_overlay_scheme: Seq<char>,
    pub name_overlay_suffix: Seq<char>,
    pub garlic_routed_scheme: Seq<char>,
    pub gateway_port: u16,
    pub rewrites: Seq<RewriteRuleView>,
}

impl SchemeTableView {
    /// The scheme name registered for `tag`.
    pub open spec fn scheme_name(self, tag: SchemeTag) -> Seq<char> {
        match tag {
            SchemeTag::ContentHash => self.content_hash_scheme,
            SchemeTag::NameOverlay => self.name_overlay_scheme,
            SchemeTag::GarlicRouted => self.garlic_routed_scheme,
        }
    }
}

impl View for SchemeTable {
    type V = SchemeTableView;

    open spec fn view(&self) -> SchemeTableView {
        SchemeTableView {
            content_hash_scheme: self.content_hash_scheme@,
            content_hash_suffix: self.content_hash_suffix@,
            name_overlay_scheme: self.name_overlay_scheme@,
            name_overlay_suffix: self.name_overlay_suffix@,
            garlic_routed_scheme: self.garlic_routed_scheme@,
            gateway_port: self.gateway_port,
            rewrites: rules_view(self.rewrites@),
        }
    }
}

/// The table that `SchemeTable::standard` builds.
pub open spec fn spec_standard_table() -> SchemeTableView {
    SchemeTableView {
        content_hash_scheme: "ipfs"@,
        content_hash_suffix: "ipfs"@,
        name_overlay_scheme: "ipns"@,
        name_overlay_suffix: "ipns"@,
        garlic_routed_scheme: "i2p"@,
        gateway_port: 8080,
        rewrites: seq![RewriteRuleView { domain_suffix: ".i2p"@, scheme: SchemeTag::GarlicRouted }],
    }
}

impl SchemeTable {
    /// The compiled-in configuration: the local gateway on port 8080 and
    /// one rewrite rule, for the anonymity network's top-level domain.
    pub fn standard() -> (t: SchemeTable)
        ensures
            t@ == spec_standard_table(),
    {
        let mut rewrites: Vec<RewriteRule> = Vec::new();
        rewrites.push(
            RewriteRule { domain_suffix: String::from_str(".i2p"), scheme: SchemeTag::GarlicRouted },
        );
        let t = SchemeTable {
            content_hash_scheme: String::from_str("ipfs"),
            content_hash_suffix: String::from_str("ipfs"),
            name_overlay_scheme: String::from_str("ipns"),
            name_overlay_suffix: String::from_str("ipns"),
            garlic_routed_scheme: String::from_str("i2p"),
            gateway_port: 8080,
            rewrites,
        };
        proof {
            assert(t@.rewrites =~= spec_standard_table().rewrites);
        }
        t
    }

    /// The scheme name registered for `tag`.
    pub fn scheme_name(&self, tag: SchemeTag) -> (r: &str)
        ensures
            r@ == self@.scheme_name(tag),
    {
        match tag {
            SchemeTag::ContentHash => self.content_hash_scheme.as_str(),
            SchemeTag::NameOverlay => self.name_overlay_scheme.as_str(),
            SchemeTag::GarlicRouted => self.garlic_routed_scheme.as_str(),
        }
    }

    /// What is registered with the engine: each scheme of the table, in
    /// the order of the families, every one of them as a secure origin
    /// that cross-origin requests may reach.
    pub fn registrations(&self) -> (r: Vec<SchemeRegistration>)
        ensures
            r@.len() == 3,
            r@[0]@ == spec_registration(self@, SchemeTag::ContentHash),
            r@[1]@ == spec_registration(self@, SchemeTag::NameOverlay),
            r@[2]@ == spec_registration(self@, SchemeTag::GarlicRouted),
    {
        let mut r: Vec<SchemeRegistration> = Vec::new();
        r.push(self.registration(SchemeTag::ContentHash));
        r.push(self.registration(SchemeTag::NameOverlay));
        r.push(self.registration(SchemeTag::GarlicRouted));
        r
    }

    /// The registration of the scheme of `tag`.
    pub fn registration(&self, tag: SchemeTag) -> (r: SchemeRegistration)
        ensures
            r@ == spec_registration(self@, tag),
    {
        SchemeRegistration {
            tag,
            scheme: String::from_str(self.scheme_name(tag)),
            secure: true,
            cors_enabled: true,
        }
    }
}

/// One scheme as the engine is told of it.
#[derive(Debug)]
pub struct SchemeRegistration {
    pub tag: SchemeTag,
    pub scheme: String,
    pub secure: bool,
    pub cors_enabled: bool,
}

/// The mathematical value of a `SchemeRegistration`.
pub struct SchemeRegistrationView {
    pub tag: SchemeTag,
    pub scheme: Seq<char>,
    pub secure: bool,
    pub cors_enabled: bool,
}

impl View for SchemeRegistration {
    type V = SchemeRegistrationView;

    open spec fn view(&self) -> SchemeRegistrationView {
        SchemeRegistrationView {
            tag: self.tag,
            scheme: self.scheme@,
            secure: self.secure,
            cors_enabled: self.cors_enabled,
        }
    }
}

/// The registration of the scheme of `tag`: secure, and open to
/// cross-origin requests.
pub open spec fn spec_registration(table: SchemeTableView, tag: SchemeTag) -> SchemeRegistrationView {
    SchemeRegistrationView { tag, scheme: table.scheme_name(tag), secure: true, cors_enabled: true }
}

} // verus!
