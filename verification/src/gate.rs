use vstd::prelude::*;
use vstd::future::FutureAdditionalSpecFns;
use core::future::Future;

verus! {

/// Where the calling thread stands with respect to an externally-owned
/// reactor: outside any instance, inside a single-threaded instance, or
/// inside a multi-threaded instance.
#[derive(Clone, Copy, Debug, PartialEq, Eq, Structural)]
pub enum ReactorContext {
    Outside,
    SingleThreaded,
    MultiThreaded,
}

/// What the delegation gate does for a given calling context: drive the
/// computation on a fresh temporary reactor, refuse loudly because nesting
/// would deadlock, or nest an isolated temporary reactor after handing off
/// the current thread's reactor duties.
#[derive(Clone, Copy, Debug, PartialEq, Eq, Structural)]
pub enum DelegationDecision {
    FreshReactor,
    FatalNesting,
    NestedIsolated,
}

/// How delegation fails.
///
/// `UnsafeNesting` is the fatal usage error: delegation was invoked from
/// inside a single-threaded reactor instance, where blocking would deadlock;
/// an unverified caller is expected to abort on it rather than continue.
/// `ReactorInit` is the recoverable resource error: the temporary reactor
/// could not be built, and the description of the failure is passed on.
#[derive(Debug)]
pub enum GateError {
    UnsafeNesting,
    ReactorInit(String),
}

/// The delegation gate's decision table: outside any reactor a fresh
/// temporary one is safe; inside a single-threaded instance no thread is
/// free to make progress, so nesting is refused; inside a multi-threaded
/// instance the current thread's duties can be handed off and an isolated
/// nested reactor is safe.
pub open spec fn spec_decide_delegation(ctx: ReactorContext) -> DelegationDecision {
    match ctx {
        ReactorContext::Outside => DelegationDecision::FreshReactor,
        ReactorContext::SingleThreaded => DelegationDecision::FatalNesting,
        ReactorContext::MultiThreaded => DelegationDecision::NestedIsolated,
    }
}

/// Decide, from the calling context, which delegation path is safe.
pub fn decide_delegation(ctx: ReactorContext) -> (d: DelegationDecision)
    ensures
        d == spec_decide_delegation(ctx),
{
    match ctx {
        ReactorContext::Outside => DelegationDecision::FreshReactor,
        ReactorContext::SingleThreaded => DelegationDecision::FatalNesting,
        ReactorContext::MultiThreaded => DelegationDecision::NestedIsolated,
    }
}

#[verifier::external_type_specification]
#[verifier::external_body]
pub struct ExHandle(tokio::runtime::Handle);

/// Relies on tokio::runtime::Handle::try_current: it returns a handle
/// exactly when a reactor instance is already driving the current thread.
/// The answer depends on ambient thread state, so nothing relates it to the
/// arguments.
#[verifier::external_body]
fn try_current_handle() -> (h: Option<tokio::runtime::Handle>) {
    tokio::runtime::Handle::try_current().ok()
}

/// Relies on tokio::runtime::Handle::runtime_flavor: true exactly when the
/// reactor instance behind `handle` is the single-threaded flavor, the one
/// that cannot yield its only thread to a nested blocking call.
#[verifier::external_body]
fn is_single_threaded(handle: &tokio::runtime::Handle) -> (b: bool) {
    handle.runtime_flavor() == tokio::runtime::RuntimeFlavor::CurrentThread
}

/// Determine whether the current thread is already being driven by an
/// external reactor instance, and of which flavor. The answer is ambient,
/// read-only state: this takes no ownership of any reactor.
pub fn detect_reactor_context() -> (ctx: ReactorContext) {
    match try_current_handle() {
        Option::None => ReactorContext::Outside,
        Option::Some(handle) => if is_single_threaded(&handle) {
            ReactorContext::SingleThreaded
        } else {
            ReactorContext::MultiThreaded
        },
    }
}

/// Relies on tokio::runtime::Builder::new_current_thread, enable_all and
/// build, and on Runtime::block_on: a fresh temporary single-threaded
/// reactor is built, drives `fut` on the calling thread to completion and is
/// torn down; the awaited value is returned. `Err` carries the description
/// of a failed reactor build, the one way this entry point fails.
#[verifier::external_body]
fn drive_on_fresh_reactor<F: Future>(fut: F) -> (r: Result<F::Output, String>)
    ensures
        r matches Ok(v) ==> v == fut@,
{
    match tokio::runtime::Builder::new_current_thread().enable_all().build() {
        Ok(reactor) => Ok(reactor.block_on(fut)),
        Err(e) => Err(e.to_string()),
    }
}

/// Relies on tokio::task::block_in_place, and on the same reactor
/// construction as `drive_on_fresh_reactor`: the current thread's reactor
/// duties are handed off to another worker, an isolated temporary
/// single-threaded reactor drives `fut` to completion on this thread, and
/// the duties are taken back. block_in_place panics when the calling thread
/// is driven by a single-threaded reactor instance, so only
/// the multi-threaded case is routed here.
#[verifier::external_body]
fn drive_on_nested_reactor<F: Future>(fut: F) -> (r: Result<F::Output, String>)
    ensures
        r matches Ok(v) ==> v == fut@,
{
    tokio::task::block_in_place(|| {
        match tokio::runtime::Builder::new_current_thread().enable_all().build() {
            Ok(reactor) => Ok(reactor.block_on(fut)),
            Err(e) => Err(e.to_string()),
        }
    })
}

/// Run a reactor-bound computation to completion under an explicit calling
/// context: the decision table for `ctx` picks the fresh, fatal or nested
/// path. The fatal path is reported as `UnsafeNesting`, never silently
/// continued; a reactor that cannot be built is reported as `ReactorInit`.
pub fn run_with_context<F: Future>(ctx: ReactorContext, fut: F) -> (r: Result<
    F::Output,
    GateError,
>)
    ensures
        r matches Ok(v) ==> v == fut@,
        (r matches Err(e) && e is UnsafeNesting) <==> ctx is SingleThreaded,
{
    match decide_delegation(ctx) {
        DelegationDecision::FreshReactor => match drive_on_fresh_reactor(fut) {
            Ok(v) => Ok(v),
            Err(description) => Err(GateError::ReactorInit(description)),
        },
        DelegationDecision::FatalNesting => Err(GateError::UnsafeNesting),
        DelegationDecision::NestedIsolated => match drive_on_nested_reactor(fut) {
            Ok(v) => Ok(v),
            Err(description) => Err(GateError::ReactorInit(description)),
        },
    }
}

/// Run a computation that structurally requires an externally-owned reactor:
/// detect the calling context, then take the path the decision table picks. A value
/// that comes back `Ok` is the one the computation produced.
pub fn run_via_external_reactor<F: Future>(fut: F) -> (r: Result<F::Output, GateError>)
    ensures
        r matches Ok(v) ==> v == fut@,
{
    let ctx = detect_reactor_context();
    run_with_context(ctx, fut)
}

} // verus!
