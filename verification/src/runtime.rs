//! The per-thread runtime context: entering a runtime installs it as the
//! current one only when none is installed, and the guard that entering
//! returns removes it again only if it was the one that installed it.

use vstd::prelude::*;
use std::marker::PhantomData;

verus! {

#[verifier::external_type_specification]
#[verifier::external_body]
pub struct ExIoError(std::io::Error);

/// Text of an I/O error: `std::io::Error`'s `Display`, which for an
/// operating-system error asks the system for its description. That text
/// depends on the machine, so nothing is stated of it.
#[verifier::external_body]
fn io_error_text(e: &std::io::Error) -> String {
    e.to_string()
}

/// Something that runs futures to completion in the background.
pub trait Spawn {
    fn spawn<F: std::future::Future<Output = ()> + Send + 'static>(&self, future: F);
}

/// Something that runs blocking work in the background.
pub trait SpawnBlocking {
    fn spawn_blocking<F: FnOnce() + Send + 'static>(&self, f: F);
}

/// The runtime that the encoders run their work on.
pub trait Runtime: Spawn + SpawnBlocking + Send {}

/// Errors of runtime creation.
#[derive(Debug)]
pub enum RuntimeError {
    ExecutorCreation(std::io::Error),
}

/// The fixed start of a runtime creation error's text.
pub open spec fn executor_creation_prefix() -> Seq<char> {
    "Failed to create tokio runtime: "@
}

/// The text of a runtime creation error whose I/O error reads `io_text`.
pub open spec fn creation_text(io_text: Seq<char>) -> Seq<char> {
    executor_creation_prefix() + io_text
}

/// The text of a runtime creation error: the fixed prefix, then the text of
/// the I/O error.
pub fn creation_message(io_text: &str) -> (res: String)
    ensures
        res@ == creation_text(io_text@),
{
    let mut s = String::from_str("Failed to create tokio runtime: ");
    s.append(io_text);
    s
}

impl RuntimeError {
    /// The text this error displays: the fixed prefix, then the I/O error's
    /// own text, which the system gives.
    pub fn message(&self) -> (res: String)
        ensures
            exists|io_text: Seq<char>| res@ == #[trigger] creation_text(io_text),
    {
        match self {
            RuntimeError::ExecutorCreation(e) => {
                let t = io_error_text(e);
                creation_message(t.as_str())
            },
        }
    }
}

impl From<std::io::Error> for RuntimeError {
    fn from(e: std::io::Error) -> (res: Self) {
        RuntimeError::ExecutorCreation(e)
    }
}

impl vstd::std_specs::convert::FromSpecImpl<std::io::Error> for RuntimeError {
    open spec fn obeys_from_spec() -> bool {
        true
    }

    open spec fn from_spec(e: std::io::Error) -> RuntimeError {
        RuntimeError::ExecutorCreation(e)
    }
}

/// Proof that a runtime was entered; `acquired` tells whether entering
/// installed the runtime, in which case leaving removes it.
pub struct RuntimeGuard<'a> {
    acquired: bool,
    _lifetime: PhantomData<&'a ()>,
}

/// The current runtime after entering `runtime` where `current` was current.
pub open spec fn entered<R>(current: Option<R>, runtime: R) -> Option<R> {
    match current {
        Some(r) => Some(r),
        None => Some(runtime),
    }
}

impl<'a> RuntimeGuard<'a> {
    /// Whether this guard installed its runtime as the current one.
    pub closed spec fn spec_acquired(&self) -> bool {
        self.acquired
    }

    /// Whether this guard installed its runtime as the current one.
    pub fn acquired(&self) -> (res: bool)
        ensures
            res == self.spec_acquired(),
    {
        self.acquired
    }

    /// Enters `runtime`: it becomes current unless a runtime already is, and
    /// the guard remembers which of the two happened.
    pub fn enter<R>(current: &mut Option<R>, runtime: R) -> (guard: RuntimeGuard<'a>)
        ensures
            *final(current) == entered(*old(current), runtime),
            guard.spec_acquired() == (*old(current) is None),
    {
        if current.is_some() {
            RuntimeGuard { acquired: false, _lifetime: PhantomData }
        } else {
            *current = Some(runtime);
            RuntimeGuard { acquired: true, _lifetime: PhantomData }
        }
    }

    /// Leaves the runtime: the current runtime is removed when this guard
    /// installed it, and left as it is otherwise.
    pub fn release<R>(self, current: &mut Option<R>)
        ensures
            self.spec_acquired() ==> *final(current) is None,
            !self.spec_acquired() ==> *final(current) == *old(current),
    {
        if self.acquired {
            *current = None;
        }
    }
}

/// Entering a runtime and leaving it again restores the context as it was,
/// whether or not another runtime was current; and entering never replaces
/// a runtime that is already current.
pub proof fn lemma_enter_then_release_restores<R>(current: Option<R>, runtime: R)
    ensures
        current is Some ==> entered(current, runtime) == current,
        current is None ==> entered(current, runtime) == Some(runtime),
        ({
            let acquired = current is None;
            let after = entered(current, runtime);
            let restored = if acquired { None } else { after };
            restored == current
        }),
{
}

} // verus!
