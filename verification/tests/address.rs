use gateway_resolver::address::normalize;
use gateway_resolver::address::split_identifier;
use gateway_resolver::address::strip_prefix;
use gateway_resolver::address::strip_scheme;
use gateway_resolver::scheme::SchemeTable;
use gateway_resolver::scheme::SchemeTag;
use gateway_resolver::text::first_index_of;
use gateway_resolver::text::has_prefix;
use gateway_resolver::text::has_suffix;

#[test]
fn strip_loses_exactly_the_prefix() {
    let prefixes = ["ipfs://", "ipns://", "i2p://", "content-hash://", ""];
    let rests = ["", "abc", "abc/def", "/", "ipfs://again", "Qm/é/ü?x=1#y"];
    for prefix in prefixes {
        for rest in rests {
            let raw = format!("{prefix}{rest}");
            assert_eq!(strip_prefix(&raw, prefix), rest);
        }
    }
}

#[test]
fn strip_scheme_takes_the_separator_too() {
    assert_eq!(strip_scheme("ipfs://bafy/readme.md", "ipfs"), "bafy/readme.md");
    assert_eq!(strip_scheme("ipns://ipfs.tech", "ipns"), "ipfs.tech");
    assert_eq!(strip_scheme("content-hash://x", "content-hash"), "x");
}

#[test]
fn strip_scheme_tolerates_a_stripped_address() {
    assert_eq!(strip_scheme("bafy/readme.md", "ipfs"), "bafy/readme.md");
    assert_eq!(strip_scheme("", "ipfs"), "");
}

#[test]
fn strip_scheme_wants_the_exact_prefix() {
    assert_eq!(strip_scheme("ipfs:/bafy", "ipfs"), "ipfs:/bafy");
    assert_eq!(strip_scheme("IPFS://bafy", "ipfs"), "IPFS://bafy");
    assert_eq!(strip_scheme("ipns://bafy", "ipfs"), "ipns://bafy");
    assert_eq!(strip_scheme(" ipfs://bafy", "ipfs"), " ipfs://bafy");
    assert_eq!(strip_scheme("ipfs:/", "ipfs"), "ipfs:/");
}

#[test]
fn strip_scheme_strips_once() {
    assert_eq!(strip_scheme("ipfs://ipfs://x", "ipfs"), "ipfs://x");
}

#[test]
fn split_at_the_first_slash() {
    let (identifier, sub_path) = split_identifier("bafy/docs/readme.md");
    assert_eq!(identifier, "bafy");
    assert_eq!(sub_path, "docs/readme.md");
}

#[test]
fn split_without_a_slash_has_an_empty_sub_path() {
    let (identifier, sub_path) = split_identifier("ipfs.tech");
    assert_eq!(identifier, "ipfs.tech");
    assert_eq!(sub_path, "");
}

#[test]
fn split_edge_cases() {
    assert_eq!(split_identifier(""), (String::new(), String::new()));
    assert_eq!(split_identifier("/"), (String::new(), String::new()));
    assert_eq!(split_identifier("/a"), (String::new(), "a".to_string()));
    assert_eq!(split_identifier("a/"), ("a".to_string(), String::new()));
    assert_eq!(split_identifier("a//b"), ("a".to_string(), "/b".to_string()));
}

#[test]
fn split_passes_the_sub_path_through_verbatim() {
    let (identifier, sub_path) = split_identifier("name/a%20b/../c?q=%2F#frag");
    assert_eq!(identifier, "name");
    assert_eq!(sub_path, "a%20b/../c?q=%2F#frag");
}

#[test]
fn split_counts_characters_not_bytes() {
    let (identifier, sub_path) = split_identifier("bücher.example/straße/ü");
    assert_eq!(identifier, "bücher.example");
    assert_eq!(sub_path, "straße/ü");
}

#[test]
fn normalize_takes_an_address_apart() {
    let table = SchemeTable::standard();
    let address = normalize(&table, SchemeTag::ContentHash, "ipfs://bafy/readme.md");
    assert_eq!(address.scheme, SchemeTag::ContentHash);
    assert_eq!(address.identifier, "bafy");
    assert_eq!(address.sub_path, "readme.md");

    let address = normalize(&table, SchemeTag::NameOverlay, "ipns://ipfs.tech");
    assert_eq!(address.scheme, SchemeTag::NameOverlay);
    assert_eq!(address.identifier, "ipfs.tech");
    assert_eq!(address.sub_path, "");

    let address = normalize(&table, SchemeTag::GarlicRouted, "i2p://example.i2p/page");
    assert_eq!(address.scheme, SchemeTag::GarlicRouted);
    assert_eq!(address.identifier, "example.i2p");
    assert_eq!(address.sub_path, "page");
}

#[test]
fn normalize_goes_by_the_scheme_of_the_tag() {
    let table = SchemeTable::standard();
    let address = normalize(&table, SchemeTag::NameOverlay, "ipfs://bafy/x");
    assert_eq!(address.identifier, "ipfs:");
    assert_eq!(address.sub_path, "/bafy/x");
}

#[test]
fn normalized_identifier_holds_no_slash() {
    let table = SchemeTable::standard();
    for raw in ["ipfs://a/b/c", "a/b", "/", "", "ipfs:///x", "ipfs://"] {
        let address = normalize(&table, SchemeTag::ContentHash, raw);
        assert!(!address.identifier.contains('/'));
    }
}

#[test]
fn text_helpers() {
    assert_eq!(first_index_of("a/b/c", '/'), Some(1));
    assert_eq!(first_index_of("abc", '/'), None);
    assert_eq!(first_index_of("üü/", '/'), Some(2));
    assert_eq!(first_index_of("", '/'), None);
    assert!(has_prefix("http://x", "http://"));
    assert!(!has_prefix("http:/", "http://"));
    assert!(has_prefix("x", ""));
    assert!(has_prefix("", ""));
    assert!(!has_prefix("", "a"));
    assert!(has_suffix("example.i2p", ".i2p"));
    assert!(!has_suffix("example.i2p.org", ".i2p"));
    assert!(has_suffix(".i2p", ".i2p"));
    assert!(!has_suffix("i2p", ".i2p"));
    assert!(has_suffix("x", ""));
    assert!(has_suffix("münchen.üü", ".üü"));
}
