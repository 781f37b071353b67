//! The gateway router: from a normalized address to the URL to fetch and
//! the client to fetch it with. The router decides; it never fetches.

use vstd::prelude::*;
use vstd::string::StringExecFns;
use crate::address::SchemeAddress;
use crate::address::SchemeAddressView;
use crate::cid::canonical_identifier;
use crate::cid::spec_canonical_identifier;
use crate::failure::Failure;
use crate::failure::FailureKind;
use crate::failure::is_diagnostic;
use crate::scheme::ClientKind;
use crate::scheme::SchemeTable;
use crate::scheme::SchemeTableView;
use crate::scheme::SchemeTag;

verus! {

/// A resolved URL and the client that must fetch it.
#[derive(Debug)]
pub struct OutboundRoute {
    pub url: String,
    pub client: ClientKind,
}

/// The mathematical value of an `OutboundRoute`.
pub struct OutboundRouteView {
    pub url: Seq<char>,
    pub client: ClientKind,
}

impl View for OutboundRoute {
    type V = OutboundRouteView;

    open spec fn view(&self) -> OutboundRouteView {
        OutboundRouteView { url: self.url@, client: self.client }
    }
}

/// The decimal digit of `d`, for `d` below ten.
pub open spec fn spec_digit(d: nat) -> char {
    if d == 0 {
        '0'
    } else if d == 1 {
        '1'
    } else if d == 2 {
        '2'
    } else if d == 3 {
        '3'
    } else if d == 4 {
        '4'
    } else if d == 5 {
        '5'
    } else if d == 6 {
        '6'
    } else if d == 7 {
        '7'
    } else if d == 8 {
        '8'
    } else {
        '9'
    }
}

/// The decimal numeral of `n`, without leading zeros.
pub open spec fn spec_decimal(n: nat) -> Seq<char>
    decreases n,
{
    if n < 10 {
        seq![spec_digit(n)]
    } else {
        spec_decimal(n / 10).push(spec_digit(n % 10))
    }
}

/// The URL of `identifier` at the local gateway:
/// `http://<identifier>.<suffix>.localhost:<port>/<sub_path>`.
pub open spec fn spec_gateway_url(
    identifier: Seq<char>,
    suffix: Seq<char>,
    port: u16,
    sub_path: Seq<char>,
) -> Seq<char> {
    "http://"@ + identifier + "."@ + suffix + ".localhost:"@ + spec_decimal(port as nat) + "/"@
        + sub_path
}

/// The URL of a host that is reached through the proxy:
/// `http://<identifier>/<sub_path>`.
pub open spec fn spec_proxied_url(identifier: Seq<char>, sub_path: Seq<char>) -> Seq<char> {
    "http://"@ + identifier + "/"@ + sub_path
}

/// The route of an address whose identifier needs no validation, or has
/// passed it: `identifier` is what stands in the URL.
pub open spec fn spec_route_of(
    table: SchemeTableView,
    tag: SchemeTag,
    identifier: Seq<char>,
    sub_path: Seq<char>,
) -> OutboundRouteView {
    OutboundRouteView {
        url: match tag {
            SchemeTag::ContentHash => spec_gateway_url(
                identifier,
                table.content_hash_suffix,
                table.gateway_port,
                sub_path,
            ),
            SchemeTag::NameOverlay => spec_gateway_url(
                identifier,
                table.name_overlay_suffix,
                table.gateway_port,
                sub_path,
            ),
            SchemeTag::GarlicRouted => spec_proxied_url(identifier, sub_path),
        },
        client: tag.spec_client(),
    }
}

/// The route of an address, or nothing where it is a content-hash address
/// whose identifier is not valid.
pub open spec fn spec_route(table: SchemeTableView, address: SchemeAddressView) -> Option<
    OutboundRouteView,
> {
    match address.scheme {
        SchemeTag::ContentHash => match spec_canonical_identifier(address.identifier) {
            Some(canonical) => Some(
                spec_route_of(table, address.scheme, canonical, address.sub_path),
            ),
            None => None,
        },
        _ => Some(spec_route_of(table, address.scheme, address.identifier, address.sub_path)),
    }
}

/// Routing is a function of the table and the address: equal inputs have
/// equal routes, and equally no route.
pub proof fn lemma_route_deterministic(
    table1: SchemeTableView,
    address1: SchemeAddressView,
    table2: SchemeTableView,
    address2: SchemeAddressView,
)
    requires
        table1 == table2,
        address1 == address2,
    ensures
        spec_route(table1, address1) == spec_route(table2, address2),
{
}

/// Only a content-hash address can be refused: every other address has a
/// route, the empty identifier included.
pub proof fn lemma_route_total_without_validation(table: SchemeTableView, address: SchemeAddressView)
    requires
        address.scheme != SchemeTag::ContentHash,
    ensures
        spec_route(table, address) is Some,
{
}

/// The client of a route is that of the address's scheme family.
pub proof fn lemma_route_client(table: SchemeTableView, address: SchemeAddressView)
    requires
        spec_route(table, address) is Some,
    ensures
        spec_route(table, address)->0.client == address.scheme.spec_client(),
{
}

/// The one-character text of a digit.
fn digit_text(d: u16) -> (r: &'static str)
    requires
        d < 10,
    ensures
        r@ == seq![spec_digit(d as nat)],
{
    proof {
        reveal_strlit("0");
        reveal_strlit("1");
        reveal_strlit("2");
        reveal_strlit("3");
        reveal_strlit("4");
        reveal_strlit("5");
        reveal_strlit("6");
        reveal_strlit("7");
        reveal_strlit("8");
        reveal_strlit("9");
    }
    let r = if d == 0 {
        "0"
    } else if d == 1 {
        "1"
    } else if d == 2 {
        "2"
    } else if d == 3 {
        "3"
    } else if d == 4 {
        "4"
    } else if d == 5 {
        "5"
    } else if d == 6 {
        "6"
    } else if d == 7 {
        "7"
    } else if d == 8 {
        "8"
    } else {
        "9"
    };
    assert(r@ =~= seq![spec_digit(d as nat)]);
    r
}

/// The decimal numeral of a port.
pub fn decimal(n: u16) -> (r: String)
    ensures
        r@ == spec_decimal(n as nat),
    decreases n,
{
    if n < 10 {
        String::from_str(digit_text(n))
    } else {
        decimal(n / 10).concat(digit_text(n % 10))
    }
}

/// Composes the URL of `identifier` at the local gateway.
pub fn gateway_url(identifier: &str, suffix: &str, port: u16, sub_path: &str) -> (r: String)
    ensures
        r@ == spec_gateway_url(identifier@, suffix@, port, sub_path@),
{
    let port_text = decimal(port);
    String::from_str("http://").concat(identifier).concat(".").concat(suffix).concat(
        ".localhost:",
    ).concat(port_text.as_str()).concat("/").concat(sub_path)
}

/// Composes the URL of a host that is reached through the proxy.
pub fn proxied_url(identifier: &str, sub_path: &str) -> (r: String)
    ensures
        r@ == spec_proxied_url(identifier@, sub_path@),
{
    String::from_str("http://").concat(identifier).concat("/").concat(sub_path)
}

/// The route of `identifier` and `sub_path` under the scheme family `tag`.
/// For a content-hash address `identifier` is the canonical text of the
/// identifier, as `canonical_identifier` gives it.
pub fn route_of(table: &SchemeTable, tag: SchemeTag, identifier: &str, sub_path: &str) -> (r:
    OutboundRoute)
    ensures
        r@ == spec_route_of(table@, tag, identifier@, sub_path@),
{
    let url = match tag {
        SchemeTag::ContentHash => gateway_url(
            identifier,
            table.content_hash_suffix.as_str(),
            table.gateway_port,
            sub_path,
        ),
        SchemeTag::NameOverlay => gateway_url(
            identifier,
            table.name_overlay_suffix.as_str(),
            table.gateway_port,
            sub_path,
        ),
        SchemeTag::GarlicRouted => proxied_url(identifier, sub_path),
    };
    OutboundRoute { url, client: tag.client() }
}

/// Routes an address. The identifier of a content-hash address is
/// validated and brought to its canonical text first; where that fails the
/// address has no route, and the failure is of kind validation. No other
/// address is refused.
pub fn route(table: &SchemeTable, address: &SchemeAddress) -> (r: Result<OutboundRoute, Failure>)
    ensures
        r is Ok <==> spec_route(table@, address@) is Some,
        r matches Ok(route) ==> spec_route(table@, address@) == Some(route@),
        r matches Err(f) ==> f@.kind == FailureKind::Validation && is_diagnostic(f@.detail)
            && address@.scheme == SchemeTag::ContentHash,
{
    match address.scheme {
        SchemeTag::ContentHash => match canonical_identifier(address.identifier.as_str()) {
            Ok(canonical) => Ok(
                route_of(table, address.scheme, canonical.as_str(), address.sub_path.as_str()),
            ),
            Err(f) => Err(f),
        },
        _ => Ok(
            route_of(
                table,
                address.scheme,
                address.identifier.as_str(),
                address.sub_path.as_str(),
            ),
        ),
    }
}

} // verus!
