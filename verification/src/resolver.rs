//! The resolver: what happens to one scheme request, from the raw address
//! to the action that the embedding window carries out.
//!
//! The window performs what is decided here. It sends the request of a
//! `Fetch` action off the rendering thread, brings the result back to it,
//! and hands token and result to `CompletionBridge::complete`; it makes
//! the call of a `Complete` action at once.

use vstd::prelude::*;
use crate::address::lemma_normalize_joined;
use crate::address::normalize;
use crate::address::SchemeAddressView;
use crate::address::spec_normalize;
use crate::address::spec_scheme_prefix;
use crate::bridge::Completion;
use crate::bridge::CompletionBridge;
use crate::bridge::CompletionView;
use crate::bridge::PendingRequest;
use crate::failure::Failure;
use crate::failure::FailureKind;
use crate::failure::FailureView;
use crate::failure::is_diagnostic;
use crate::failure::lemma_diagnostic_not_empty;
use crate::failure::spec_diagnostic;
use crate::router::OutboundRoute;
use crate::router::OutboundRouteView;
use crate::router::route;
use crate::router::spec_route;
use crate::scheme::SchemeTable;
use crate::scheme::SchemeTableView;
use crate::scheme::SchemeTag;

verus! {

/// What the window does about a scheme request.
pub enum RequestAction<H> {
    /// Fetch `route` with its client, then complete `token` with the result.
    Fetch { token: PendingRequest, route: OutboundRoute },
    /// Make `call` on `handle` now; nothing is fetched.
    Complete { handle: H, call: Completion },
}

/// The route of the raw address `raw` of the scheme family `tag`: the
/// address is normalized, then routed.
pub open spec fn spec_plan(table: SchemeTableView, tag: SchemeTag, raw: Seq<char>) -> Option<
    OutboundRouteView,
> {
    spec_route(table, spec_normalize(tag, table.scheme_name(tag), raw))
}

/// A plan is a function of the table, the family and the raw address.
pub proof fn lemma_plan_deterministic(
    table1: SchemeTableView,
    tag1: SchemeTag,
    raw1: Seq<char>,
    table2: SchemeTableView,
    tag2: SchemeTag,
    raw2: Seq<char>,
)
    requires
        table1 == table2,
        tag1 == tag2,
        raw1 == raw2,
    ensures
        spec_plan(table1, tag1, raw1) == spec_plan(table2, tag2, raw2),
{
}

/// The plan of `scheme://identifier/sub_path` is the route of that
/// identifier and that sub-path.
pub proof fn lemma_plan_joined(
    table: SchemeTableView,
    tag: SchemeTag,
    identifier: Seq<char>,
    sub_path: Seq<char>,
)
    requires
        !identifier.contains('/'),
    ensures
        spec_plan(
            table,
            tag,
            spec_scheme_prefix(table.scheme_name(tag)) + (identifier + seq!['/'] + sub_path),
        ) == spec_route(table, SchemeAddressView { scheme: tag, identifier, sub_path }),
{
    lemma_normalize_joined(tag, table.scheme_name(tag), identifier, sub_path);
}

/// Only a content-hash address can be without a plan.
pub proof fn lemma_plan_total_without_validation(
    table: SchemeTableView,
    tag: SchemeTag,
    raw: Seq<char>,
)
    requires
        tag != SchemeTag::ContentHash,
    ensures
        spec_plan(table, tag, raw) is Some,
{
}

/// The failure of a request that the bridge has no number left for.
pub open spec fn spec_exhausted() -> FailureView {
    FailureView {
        kind: FailureKind::Marshaling,
        detail: spec_diagnostic(
            "the completion bridge takes no more requests"@,
            "LedgerExhausted"@,
        ),
    }
}

/// Normalizes and routes one raw request address. A content-hash address
/// whose identifier is not valid has no route: the failure is of kind
/// validation.
pub fn plan_request(table: &SchemeTable, tag: SchemeTag, raw: &str) -> (r: Result<
    OutboundRoute,
    Failure,
>)
    ensures
        r is Ok <==> spec_plan(table@, tag, raw@) is Some,
        r matches Ok(route) ==> spec_plan(table@, tag, raw@) == Some(route@),
        r matches Err(f) ==> f@.kind == FailureKind::Validation && is_diagnostic(f@.detail) && tag
            == SchemeTag::ContentHash,
{
    let address = normalize(table, tag, raw);
    route(table, &address)
}

/// Decides what is done about the scheme request `raw` of the family
/// `tag`, whose handle at the renderer is `handle`.
///
/// An address with a route enters the bridge and is to be fetched. An
/// address without one is completed at once with the validation failure,
/// and never enters the bridge: nothing is fetched for it. Where the
/// bridge takes no more requests, the request is completed at once with a
/// marshaling failure.
pub fn begin_request<H>(
    bridge: &mut CompletionBridge<H>,
    table: &SchemeTable,
    tag: SchemeTag,
    raw: &str,
    handle: H,
) -> (r: RequestAction<H>)
    requires
        old(bridge).wf(),
    ensures
        final(bridge).wf(),
        final(bridge).first_number() == old(bridge).first_number(),
        final(bridge).completed() == old(bridge).completed(),
        r is Fetch <==> spec_plan(table@, tag, raw@) is Some && old(bridge).next_number() < u64::MAX,
        r matches RequestAction::Fetch { token, route } ==> {
            &&& spec_plan(table@, tag, raw@) == Some(route@)
            &&& token.spec_id() == old(bridge).next_number()
            &&& final(bridge).next_number() == old(bridge).next_number() + 1
            &&& final(bridge).pending_ids() == old(bridge).pending_ids().push(token.spec_id())
            &&& final(bridge).pending_handles() == old(bridge).pending_handles().push(handle)
        },
        r matches RequestAction::Complete { handle: h, call } ==> {
            &&& h == handle
            &&& call@ matches CompletionView::FinishError { failure }
            &&& spec_plan(table@, tag, raw@) is None ==> failure.kind == FailureKind::Validation
            &&& spec_plan(table@, tag, raw@) is Some ==> failure == spec_exhausted()
            &&& is_diagnostic(failure.detail)
            &&& failure.detail.len() > 0
            &&& final(bridge).next_number() == old(bridge).next_number()
            &&& final(bridge).pending_ids() == old(bridge).pending_ids()
            &&& final(bridge).pending_handles() == old(bridge).pending_handles()
        },
{
    match plan_request(table, tag, raw) {
        Ok(route) => match bridge.enter(handle) {
            Ok(token) => RequestAction::Fetch { token, route },
            Err(handle) => {
                let failure = Failure::describe(
                    FailureKind::Marshaling,
                    "the completion bridge takes no more requests",
                    "LedgerExhausted",
                );
                RequestAction::Complete { handle, call: Completion::FinishError { failure } }
            },
        },
        Err(failure) => {
            proof {
                lemma_diagnostic_not_empty(failure@.detail);
            }
            RequestAction::Complete { handle, call: Completion::FinishError { failure } }
        },
    }
}

} // verus!
