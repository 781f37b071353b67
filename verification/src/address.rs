//! The address normalizer: from a raw request string to an identifier and
//! a sub-path. Pure string surgery; nothing is validated or decoded here.

use vstd::prelude::*;
use vstd::string::StringExecFns;
use vstd::string::StrSliceExecFns;
use crate::scheme::SchemeTable;
use crate::scheme::SchemeTag;
use crate::text::first_index_of;
use crate::text::has_prefix;
use crate::text::is_first_index_of;
use crate::text::lemma_first_index_is_unique;

verus! {

/// A request address taken apart.
#[derive(Debug)]
pub struct SchemeAddress {
    pub scheme: SchemeTag,
    pub identifier: String,
    pub sub_path: String,
}

/// The mathematical value of a `SchemeAddress`.
pub struct SchemeAddressView {
    pub scheme: SchemeTag,
    pub identifier: Seq<char>,
    pub sub_path: Seq<char>,
}

impl View for SchemeAddress {
    type V = SchemeAddressView;

    open spec fn view(&self) -> SchemeAddressView {
        SchemeAddressView {
            scheme: self.scheme,
            identifier: self.identifier@,
            sub_path: self.sub_path@,
        }
    }
}

/// The literal prefix of a scheme: its name and the separator.
pub open spec fn spec_scheme_prefix(scheme: Seq<char>) -> Seq<char> {
    scheme + "://"@
}

/// `raw` without `prefix` where it begins with it, `raw` itself where not.
pub open spec fn spec_strip_prefix(raw: Seq<char>, prefix: Seq<char>) -> Seq<char> {
    if prefix.is_prefix_of(raw) {
        raw.skip(prefix.len() as int)
    } else {
        raw
    }
}

/// What stands before the first `/`, and what stands after it.
pub open spec fn spec_split(rest: Seq<char>) -> (Seq<char>, Seq<char>) {
    match rest.index_of_first('/') {
        Some(i) => (rest.take(i), rest.skip(i + 1)),
        None => (rest, Seq::empty()),
    }
}

/// The address that `raw` stands for under the scheme named `scheme`.
pub open spec fn spec_normalize(tag: SchemeTag, scheme: Seq<char>, raw: Seq<char>)
    -> SchemeAddressView {
    let parts = spec_split(spec_strip_prefix(raw, spec_scheme_prefix(scheme)));
    SchemeAddressView { scheme: tag, identifier: parts.0, sub_path: parts.1 }
}

impl SchemeAddressView {
    /// The one decomposition an address has: no `/` in the identifier.
    pub open spec fn wf(self) -> bool {
        !self.identifier.contains('/')
    }
}

/// Stripping a prefix from a string that begins with it leaves exactly the
/// rest: nothing of the rest is lost and nothing of the prefix stays.
pub proof fn lemma_strip_loses_exactly_the_prefix(prefix: Seq<char>, rest: Seq<char>)
    ensures
        spec_strip_prefix(prefix + rest, prefix) == rest,
{
    let raw = prefix + rest;
    assert(raw.subrange(0, prefix.len() as int) =~= prefix);
    assert(raw.skip(prefix.len() as int) =~= rest);
}

/// The same for the prefix of a scheme: `scheme://rest` is stripped to `rest`.
pub proof fn lemma_strip_scheme_loses_exactly_the_prefix(scheme: Seq<char>, rest: Seq<char>)
    ensures
        spec_strip_prefix(spec_scheme_prefix(scheme) + rest, spec_scheme_prefix(scheme)) == rest,
{
    lemma_strip_loses_exactly_the_prefix(spec_scheme_prefix(scheme), rest);
}

/// A string that does not begin with the prefix is passed through.
pub proof fn lemma_strip_keeps_unprefixed(raw: Seq<char>, prefix: Seq<char>)
    requires
        !prefix.is_prefix_of(raw),
    ensures
        spec_strip_prefix(raw, prefix) == raw,
{
}

/// The two parts hold every character of the input but the first `/`, in
/// order, and the identifier holds no `/`.
pub proof fn lemma_split_decomposes(rest: Seq<char>)
    ensures
        !spec_split(rest).0.contains('/'),
        rest.contains('/') ==> rest == spec_split(rest).0 + seq!['/'] + spec_split(rest).1,
        !rest.contains('/') ==> spec_split(rest).0 == rest && spec_split(rest).1.len() == 0,
{
    rest.index_of_first_ensures('/');
    match rest.index_of_first('/') {
        Some(i) => {
            let head = rest.take(i);
            assert forall|j: int| 0 <= j < head.len() implies head[j] != '/' by {
                assert(head[j] == rest[j]);
            }
            assert(rest =~= head + seq!['/'] + rest.skip(i + 1));
        },
        None => {},
    }
}

/// An identifier without `/`, a `/` and a sub-path are split into that
/// identifier and that sub-path again.
pub proof fn lemma_split_joined(identifier: Seq<char>, sub_path: Seq<char>)
    requires
        !identifier.contains('/'),
    ensures
        spec_split(identifier + seq!['/'] + sub_path) == (identifier, sub_path),
{
    let rest = identifier + seq!['/'] + sub_path;
    let i = identifier.len() as int;
    assert(rest[i] == '/');
    assert forall|j: int| 0 <= j < i implies rest[j] != '/' by {
        assert(rest[j] == identifier[j]);
    }
    assert(is_first_index_of(rest, '/', i));
    lemma_first_index_is_unique(rest, '/');
    assert(rest.take(i) =~= identifier);
    assert(rest.skip(i + 1) =~= sub_path);
}

/// The address `scheme://identifier/sub_path` is normalized to that
/// identifier and that sub-path, whatever the sub-path holds.
pub proof fn lemma_normalize_joined(
    tag: SchemeTag,
    scheme: Seq<char>,
    identifier: Seq<char>,
    sub_path: Seq<char>,
)
    requires
        !identifier.contains('/'),
    ensures
        spec_normalize(
            tag,
            scheme,
            spec_scheme_prefix(scheme) + (identifier + seq!['/'] + sub_path),
        ) == (SchemeAddressView { scheme: tag, identifier, sub_path }),
{
    lemma_strip_scheme_loses_exactly_the_prefix(scheme, identifier + seq!['/'] + sub_path);
    lemma_split_joined(identifier, sub_path);
}

/// Every normalized address is well formed.
pub proof fn lemma_normalize_wf(tag: SchemeTag, scheme: Seq<char>, raw: Seq<char>)
    ensures
        spec_normalize(tag, scheme, raw).wf(),
{
    lemma_split_decomposes(spec_strip_prefix(raw, spec_scheme_prefix(scheme)));
}

/// Strips `prefix` from `raw` if `raw` begins with it.
pub fn strip_prefix<'a>(raw: &'a str, prefix: &str) -> (r: &'a str)
    ensures
        r@ == spec_strip_prefix(raw@, prefix@),
{
    if has_prefix(raw, prefix) {
        let n = raw.unicode_len();
        let m = prefix.unicode_len();
        raw.substring_char(m, n)
    } else {
        raw
    }
}

/// Strips the prefix of the scheme named `scheme` from `raw`; an address
/// that comes without it is taken as already stripped.
pub fn strip_scheme<'a>(raw: &'a str, scheme: &str) -> (r: &'a str)
    ensures
        r@ == spec_strip_prefix(raw@, spec_scheme_prefix(scheme@)),
{
    let prefix = String::from_str(scheme).concat("://");
    strip_prefix(raw, prefix.as_str())
}

/// Splits at the first `/`; without one the sub-path is empty.
pub fn split_identifier(rest: &str) -> (r: (String, String))
    ensures
        (r.0@, r.1@) == spec_split(rest@),
        !r.0@.contains('/'),
{
    proof {
        lemma_split_decomposes(rest@);
    }
    match first_index_of(rest, '/') {
        Some(i) => {
            let n = rest.unicode_len();
            let identifier = String::from_str(rest.substring_char(0, i));
            let sub_path = String::from_str(rest.substring_char(i + 1, n));
            (identifier, sub_path)
        },
        None => (String::from_str(rest), String::new()),
    }
}

/// Normalizes one raw request string of the scheme family `tag`.
pub fn normalize(table: &SchemeTable, tag: SchemeTag, raw: &str) -> (r: SchemeAddress)
    ensures
        r@ == spec_normalize(tag, table@.scheme_name(tag), raw@),
        r@.wf(),
{
    let rest = strip_scheme(raw, table.scheme_name(tag));
    let parts = split_identifier(rest);
    SchemeAddress { scheme: tag, identifier: parts.0, sub_path: parts.1 }
}

} // verus!
