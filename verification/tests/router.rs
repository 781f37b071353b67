use gateway_resolver::address::normalize;
use gateway_resolver::address::SchemeAddress;
use gateway_resolver::failure::FailureKind;
use gateway_resolver::router::decimal;
use gateway_resolver::router::gateway_url;
use gateway_resolver::router::proxied_url;
use gateway_resolver::router::route;
use gateway_resolver::router::route_of;
use gateway_resolver::scheme::ClientKind;
use gateway_resolver::scheme::RewriteRule;
use gateway_resolver::scheme::SchemeTable;
use gateway_resolver::scheme::SchemeTag;

const FOO_V0: &str = "QmRJzsvyCQyizr73Gmms8ZRtvNxmgqumxc2KUp71dfEmoj";
const FOO_V1_DAG_PB: &str = "bafybeibme22gw2h7y2h7tg2fhqotaqjucnbc24deqo72b6mkl2egezxhvy";

fn address(scheme: SchemeTag, identifier: &str, sub_path: &str) -> SchemeAddress {
    SchemeAddress { scheme, identifier: identifier.to_string(), sub_path: sub_path.to_string() }
}

fn spelled_out_table() -> SchemeTable {
    SchemeTable {
        content_hash_scheme: "content-hash".to_string(),
        content_hash_suffix: "gateway".to_string(),
        name_overlay_scheme: "name-overlay".to_string(),
        name_overlay_suffix: "names".to_string(),
        garlic_routed_scheme: "garlic-routed".to_string(),
        gateway_port: 8080,
        rewrites: vec![RewriteRule {
            domain_suffix: ".i2p".to_string(),
            scheme: SchemeTag::GarlicRouted,
        }],
    }
}

#[test]
fn decimal_of_a_port() {
    assert_eq!(decimal(0), "0");
    assert_eq!(decimal(7), "7");
    assert_eq!(decimal(9), "9");
    assert_eq!(decimal(10), "10");
    assert_eq!(decimal(80), "80");
    assert_eq!(decimal(443), "443");
    assert_eq!(decimal(8080), "8080");
    assert_eq!(decimal(10000), "10000");
    assert_eq!(decimal(65535), "65535");
}

#[test]
fn decimal_agrees_with_the_standard_library() {
    for n in [0u16, 1, 9, 10, 11, 99, 100, 101, 999, 1000, 4444, 9999, 12345, 60000, u16::MAX] {
        assert_eq!(decimal(n), n.to_string());
    }
}

#[test]
fn gateway_url_formula() {
    assert_eq!(
        gateway_url("bafy", "ipfs", 8080, "readme.md"),
        "http://bafy.ipfs.localhost:8080/readme.md"
    );
    assert_eq!(gateway_url("ipfs.tech", "ipns", 8080, ""), "http://ipfs.tech.ipns.localhost:8080/");
    assert_eq!(gateway_url("", "", 0, ""), "http://..localhost:0/");
    assert_eq!(gateway_url("a", "b", 65535, "c/d?e=f"), "http://a.b.localhost:65535/c/d?e=f");
}

#[test]
fn proxied_url_formula() {
    assert_eq!(proxied_url("example.i2p", "page"), "http://example.i2p/page");
    assert_eq!(proxied_url("example.i2p", ""), "http://example.i2p/");
    assert_eq!(proxied_url("", ""), "http:///");
}

#[test]
fn route_of_each_family() {
    let table = SchemeTable::standard();
    let route = route_of(&table, SchemeTag::ContentHash, "bafy", "a/b");
    assert_eq!(route.url, "http://bafy.ipfs.localhost:8080/a/b");
    assert_eq!(route.client, ClientKind::Direct);
    let route = route_of(&table, SchemeTag::NameOverlay, "ipfs.tech", "");
    assert_eq!(route.url, "http://ipfs.tech.ipns.localhost:8080/");
    assert_eq!(route.client, ClientKind::Direct);
    let route = route_of(&table, SchemeTag::GarlicRouted, "example.i2p", "page");
    assert_eq!(route.url, "http://example.i2p/page");
    assert_eq!(route.client, ClientKind::Proxied);
}

#[test]
fn client_of_each_family() {
    assert_eq!(SchemeTag::ContentHash.client(), ClientKind::Direct);
    assert_eq!(SchemeTag::NameOverlay.client(), ClientKind::Direct);
    assert_eq!(SchemeTag::GarlicRouted.client(), ClientKind::Proxied);
}

#[test]
fn route_brings_a_content_hash_to_its_canonical_text() {
    let table = SchemeTable::standard();
    let route = route(&table, &address(SchemeTag::ContentHash, FOO_V0, "readme.md")).unwrap();
    assert_eq!(route.url, format!("http://{FOO_V1_DAG_PB}.ipfs.localhost:8080/readme.md"));
    assert_eq!(route.client, ClientKind::Direct);
}

#[test]
fn route_keeps_a_canonical_content_hash() {
    let table = SchemeTable::standard();
    let route = route(&table, &address(SchemeTag::ContentHash, FOO_V1_DAG_PB, "")).unwrap();
    assert_eq!(route.url, format!("http://{FOO_V1_DAG_PB}.ipfs.localhost:8080/"));
}

#[test]
fn route_refuses_an_invalid_content_hash() {
    let table = SchemeTable::standard();
    for identifier in ["", "x", "ipfs.tech", "QmdfTbBqBPQ7VNxZEYEj14VmRuZBkqFbiwReogJgS1zIII"] {
        let failure = route(&table, &address(SchemeTag::ContentHash, identifier, "x")).unwrap_err();
        assert_eq!(failure.kind, FailureKind::Validation);
        assert!(!failure.detail.is_empty());
    }
}

#[test]
fn route_does_not_validate_an_overlay_name() {
    let table = SchemeTable::standard();
    let route = route(&table, &address(SchemeTag::NameOverlay, "not a cid!", "p")).unwrap();
    assert_eq!(route.url, "http://not a cid!.ipns.localhost:8080/p");
    assert_eq!(route.client, ClientKind::Direct);
}

#[test]
fn route_takes_an_empty_identifier() {
    let table = SchemeTable::standard();
    let route1 = route(&table, &address(SchemeTag::NameOverlay, "", "")).unwrap();
    assert_eq!(route1.url, "http://.ipns.localhost:8080/");
    let route2 = route(&table, &address(SchemeTag::GarlicRouted, "", "")).unwrap();
    assert_eq!(route2.url, "http:///");
    assert_eq!(route2.client, ClientKind::Proxied);
}

#[test]
fn route_of_a_garlic_routed_address() {
    let table = SchemeTable::standard();
    let address = normalize(&table, SchemeTag::GarlicRouted, "i2p://example.i2p/page?x=1");
    let route = route(&table, &address).unwrap();
    assert_eq!(route.url, "http://example.i2p/page?x=1");
    assert_eq!(route.client, ClientKind::Proxied);
}

#[test]
fn route_is_the_same_for_the_same_input() {
    let table = SchemeTable::standard();
    let cases = [
        (SchemeTag::ContentHash, FOO_V0, "readme.md"),
        (SchemeTag::ContentHash, "bad", ""),
        (SchemeTag::NameOverlay, "ipfs.tech", "a"),
        (SchemeTag::GarlicRouted, "example.i2p", "b"),
    ];
    for (tag, identifier, sub_path) in cases {
        let first = route(&table, &address(tag, identifier, sub_path));
        let second = route(&SchemeTable::standard(), &address(tag, identifier, sub_path));
        match (first, second) {
            (Ok(a), Ok(b)) => {
                assert_eq!(a.url, b.url);
                assert_eq!(a.client, b.client);
            }
            (Err(a), Err(b)) => {
                assert_eq!(a.kind, b.kind);
                assert_eq!(a.detail, b.detail);
            }
            _ => panic!("one input, two outcomes"),
        }
    }
}

#[test]
fn route_goes_by_the_table() {
    let table = spelled_out_table();
    let address = normalize(&table, SchemeTag::ContentHash, &format!("content-hash://{FOO_V0}/readme.md"));
    let route = route(&table, &address).unwrap();
    assert_eq!(route.url, format!("http://{FOO_V1_DAG_PB}.gateway.localhost:8080/readme.md"));
    assert_eq!(route.client, ClientKind::Direct);
}

#[test]
fn standard_table() {
    let table = SchemeTable::standard();
    assert_eq!(table.content_hash_scheme, "ipfs");
    assert_eq!(table.content_hash_suffix, "ipfs");
    assert_eq!(table.name_overlay_scheme, "ipns");
    assert_eq!(table.name_overlay_suffix, "ipns");
    assert_eq!(table.garlic_routed_scheme, "i2p");
    assert_eq!(table.gateway_port, 8080);
    assert_eq!(table.rewrites.len(), 1);
    assert_eq!(table.rewrites[0].domain_suffix, ".i2p");
    assert_eq!(table.rewrites[0].scheme, SchemeTag::GarlicRouted);
    assert_eq!(table.scheme_name(SchemeTag::ContentHash), "ipfs");
    assert_eq!(table.scheme_name(SchemeTag::NameOverlay), "ipns");
    assert_eq!(table.scheme_name(SchemeTag::GarlicRouted), "i2p");
}

#[test]
fn registrations_are_secure_and_open_to_cross_origin_requests() {
    let table = SchemeTable::standard();
    let registrations = table.registrations();
    let expected = [
        (SchemeTag::ContentHash, "ipfs"),
        (SchemeTag::NameOverlay, "ipns"),
        (SchemeTag::GarlicRouted, "i2p"),
    ];
    assert_eq!(registrations.len(), expected.len());
    for (registration, (tag, scheme)) in registrations.iter().zip(expected) {
        assert_eq!(registration.tag, tag);
        assert_eq!(registration.scheme, scheme);
        assert!(registration.secure);
        assert!(registration.cors_enabled);
    }
}
