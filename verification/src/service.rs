//! The icon service: classify the path, resolve indirection when needed,
//! fetch the icon, and fall back to the original path when the resolved
//! target yields nothing.  The two outside effects — resolving a shortcut
//! and fetching a path's icon — are performed by the caller, which feeds
//! their outcomes back as events; every decision between them is made,
//! and verified, here.  A finished service always yields a string: a
//! data URI, or the empty string for "no icon available".

use crate::classify::is_indirection_path;
use crate::encode::png_prefix;
use vstd::prelude::*;

verus! {

/// Where an icon request stands between two outside calls.
pub enum ServiceState {
    /// An indirection path: its target is being resolved.  `original`
    /// remembers the requested path for the fallback attempt.
    AwaitTarget { original: String },
    /// The resolved target's icon is being fetched; if that yields
    /// nothing, the original path is tried next.
    AwaitTargetIcon { original: String },
    /// The final fetch: its outcome decides the result directly.
    AwaitDirectIcon,
    /// The request is finished; `result` goes back to the caller.
    Done { result: String },
}

/// The outcome of the outside call the state was waiting for.
pub enum ServiceEvent {
    /// What the shortcut resolution produced.
    TargetResolved { target: Option<String> },
    /// What the icon fetch produced: the icon's base64 payload, or
    /// nothing.
    IconFetched { payload: Option<String> },
}

/// The outside call the caller must make next.
pub enum ServiceAction {
    /// Resolve this shortcut path to its target.
    ResolveTarget { path: String },
    /// Fetch the icon of this path as a base64 payload.
    FetchIcon { path: String },
    /// The request is finished: hand the `Done` result to the caller.
    Finish,
}

/// Which event a state is waiting for.
pub open spec fn service_event_matches(s: ServiceState, e: ServiceEvent) -> bool {
    match s {
        ServiceState::AwaitTarget { .. } => e is TargetResolved,
        ServiceState::AwaitTargetIcon { .. } => e is IconFetched,
        ServiceState::AwaitDirectIcon => e is IconFetched,
        ServiceState::Done { .. } => false,
    }
}

/// Starts a request: an indirection path goes through resolution first;
/// any other path is fetched directly.
pub fn service_start(path: &str) -> (r: (ServiceState, ServiceAction))
    ensures
        is_indirection_path(path@) ==> (r.0 matches ServiceState::AwaitTarget { original }
            && original@ == path@) && (r.1 matches ServiceAction::ResolveTarget { path: p } && p@
            == path@),
        !is_indirection_path(path@) ==> r.0 is AwaitDirectIcon && (
        r.1 matches ServiceAction::FetchIcon { path: p } && p@ == path@),
{
    match crate::classify::classify(path) {
        crate::classify::PathKind::Indirect => (
            ServiceState::AwaitTarget { original: String::from_str(path) },
            ServiceAction::ResolveTarget { path: String::from_str(path) },
        ),
        crate::classify::PathKind::Direct => (
            ServiceState::AwaitDirectIcon,
            ServiceAction::FetchIcon { path: String::from_str(path) },
        ),
    }
}

/// Advances a request by the outcome of the outside call it was waiting
/// for.  The fallback policy is exact: the resolved target is tried
/// first, and the original path is tried if — and only if — resolution
/// yielded no target or the target's fetch yielded nothing; a fetched
/// payload always finishes the request as the MIME prefix plus the
/// payload, and a final failed fetch finishes it as the empty string.
pub fn service_step(s: ServiceState, e: ServiceEvent) -> (r: (ServiceState, ServiceAction))
    requires
        service_event_matches(s, e),
    ensures
        (s matches ServiceState::AwaitTarget { original } ==> (match e {
            ServiceEvent::TargetResolved { target: Some(t) } => (
            r.0 matches ServiceState::AwaitTargetIcon { original: o } && o@ == original@) && (
            r.1 matches ServiceAction::FetchIcon { path: p } && p@ == t@),
            ServiceEvent::TargetResolved { target: None } => r.0 is AwaitDirectIcon && (
            r.1 matches ServiceAction::FetchIcon { path: p } && p@ == original@),
            _ => false,
        })),
        (s matches ServiceState::AwaitTargetIcon { original } ==> (match e {
            ServiceEvent::IconFetched { payload: Some(b64) } => (
            r.0 matches ServiceState::Done { result } && result@ == png_prefix() + b64@)
                && r.1 is Finish,
            ServiceEvent::IconFetched { payload: None } => r.0 is AwaitDirectIcon && (
            r.1 matches ServiceAction::FetchIcon { path: p } && p@ == original@),
            _ => false,
        })),
        (s is AwaitDirectIcon ==> (match e {
            ServiceEvent::IconFetched { payload: Some(b64) } => (
            r.0 matches ServiceState::Done { result } && result@ == png_prefix() + b64@)
                && r.1 is Finish,
            ServiceEvent::IconFetched { payload: None } => (
            r.0 matches ServiceState::Done { result } && result@ == Seq::<char>::empty())
                && r.1 is Finish,
            _ => false,
        })),
{
    match (s, e) {
        (ServiceState::AwaitTarget { original }, ServiceEvent::TargetResolved { target }) => {
            match target {
                Some(t) => (
                    ServiceState::AwaitTargetIcon { original },
                    ServiceAction::FetchIcon { path: t },
                ),
                None => (
                    ServiceState::AwaitDirectIcon,
                    ServiceAction::FetchIcon { path: original },
                ),
            }
        },
        (ServiceState::AwaitTargetIcon { original }, ServiceEvent::IconFetched { payload }) => {
            match payload {
                Some(b64) => (
                    ServiceState::Done { result: crate::encode::png_data_uri(b64.as_str()) },
                    ServiceAction::Finish,
                ),
                None => (
                    ServiceState::AwaitDirectIcon,
                    ServiceAction::FetchIcon { path: original },
                ),
            }
        },
        (ServiceState::AwaitDirectIcon, ServiceEvent::IconFetched { payload }) => {
            match payload {
                Some(b64) => (
                    ServiceState::Done { result: crate::encode::png_data_uri(b64.as_str()) },
                    ServiceAction::Finish,
                ),
                None => (ServiceState::Done { result: String::new() }, ServiceAction::Finish),
            }
        },
        (s, _) => {
            proof {
                assert(false);
            }
            (s, ServiceAction::Finish)
        },
    }
}

/// What a whole request yields, as a function of the path and of the
/// outside outcomes alone: `target` is what resolution would produce for
/// the path, `target_icon` what the fetch would produce for that target,
/// and `direct_icon` what the fetch would produce for the path itself.
pub open spec fn spec_service_result(
    path: Seq<char>,
    target: Option<Seq<char>>,
    target_icon: Option<Seq<char>>,
    direct_icon: Option<Seq<char>>,
) -> Seq<char> {
    if is_indirection_path(path) {
        match target {
            Some(t) => match target_icon {
                Some(b64) => png_prefix() + b64,
                None => match direct_icon {
                    Some(b64) => png_prefix() + b64,
                    None => Seq::<char>::empty(),
                },
            },
            None => match direct_icon {
                Some(b64) => png_prefix() + b64,
                None => Seq::<char>::empty(),
            },
        }
    } else {
        match direct_icon {
            Some(b64) => png_prefix() + b64,
            None => Seq::<char>::empty(),
        }
    }
}

/// The pipeline is a pure function of the path and the outside outcomes:
/// two runs over the same path in an unchanged environment — the same
/// resolution and fetch outcomes — finish with identical results.
pub proof fn lemma_service_deterministic(
    path: Seq<char>,
    target: Option<Seq<char>>,
    target_icon: Option<Seq<char>>,
    direct_icon: Option<Seq<char>>,
    target2: Option<Seq<char>>,
    target_icon2: Option<Seq<char>>,
    direct_icon2: Option<Seq<char>>,
)
    requires
        target == target2,
        target_icon == target_icon2,
        direct_icon == direct_icon2,
    ensures
        spec_service_result(path, target, target_icon, direct_icon) == spec_service_result(
            path,
            target2,
            target_icon2,
            direct_icon2,
        ),
{
}

fn clone_opt(o: &Option<String>) -> (r: Option<String>)
    ensures
        r == *o,
{
    match o {
        Some(s) => Some(s.clone()),
        None => None,
    }
}

/// Runs a whole request against the outcomes the environment would
/// produce: what resolution yields for the path, what the fetch yields
/// for that target, and what the fetch yields for the path itself.  The
/// machine provably attains the closed-form result, for every input.
pub fn run_pipeline(
    path: &str,
    target: Option<String>,
    target_icon: Option<String>,
    direct_icon: Option<String>,
) -> (r: String)
    ensures
        r@ == spec_service_result(
            path@,
            target.deep_view(),
            target_icon.deep_view(),
            direct_icon.deep_view(),
        ),
{
    let (state0, action0) = service_start(path);
    match action0 {
        ServiceAction::ResolveTarget { .. } => {
            let (state1, _) = service_step(state0, ServiceEvent::TargetResolved { target });
            let fetching_target = match &state1 {
                ServiceState::AwaitTargetIcon { .. } => true,
                _ => false,
            };
            let payload = if fetching_target {
                clone_opt(&target_icon)
            } else {
                clone_opt(&direct_icon)
            };
            let (state2, _) = service_step(state1, ServiceEvent::IconFetched { payload });
            match state2 {
                ServiceState::Done { result } => result,
                fallback_state => {
                    let (state3, _) = service_step(
                        fallback_state,
                        ServiceEvent::IconFetched { payload: direct_icon },
                    );
                    match state3 {
                        ServiceState::Done { result } => result,
                        _ => {
                            proof {
                                assert(false);
                            }
                            String::new()
                        },
                    }
                },
            }
        },
        ServiceAction::FetchIcon { .. } => {
            let (state1, _) = service_step(
                state0,
                ServiceEvent::IconFetched { payload: direct_icon },
            );
            match state1 {
                ServiceState::Done { result } => result,
                _ => {
                    proof {
                        assert(false);
                    }
                    String::new()
                },
            }
        },
        ServiceAction::Finish => {
            proof {
                assert(false);
            }
            String::new()
        },
    }
}

/// A finished request never surfaces an error: whatever the outside
/// outcomes were, the result is a string — empty for "no icon", and
/// otherwise a data URI beginning with the fixed MIME prefix.
pub proof fn lemma_service_result_shape(
    path: Seq<char>,
    target: Option<Seq<char>>,
    target_icon: Option<Seq<char>>,
    direct_icon: Option<Seq<char>>,
)
    ensures
        ({
            let r = spec_service_result(path, target, target_icon, direct_icon);
            r.len() == 0 || r.take(png_prefix().len() as int) == png_prefix()
        }),
{
    let r = spec_service_result(path, target, target_icon, direct_icon);
    if r.len() != 0 {
        assert(r.take(png_prefix().len() as int) =~= png_prefix());
    }
}

/// A friendly greeting for a caller who introduces themselves.
pub fn greet(name: &str) -> (r: String)
    ensures
        r@ == "Hello, "@ + name@ + "! You've been greeted from Rust!"@,
{
    let mut s = String::from_str("Hello, ");
    s.append(name);
    s.append("! You've been greeted from Rust!");
    s
}

} // verus!
