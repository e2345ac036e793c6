//! The launching sequence: start the runtime, attach the thread, bind the
//! native method, and invoke the entry method.

use jni::{JNIEnv, NativeMethod};
use vstd::prelude::*;

use crate::failure::Failure;
use crate::interface::{
    callback_class,
    callback_method,
    callback_signature,
    classpath_option,
    entry_class,
    entry_method,
    entry_signature,
    has_interior_nul,
    lemma_option_keeps_interior_nul,
    runtime_version,
};
use crate::jvm::{
    alloc_object,
    attach_current_thread,
    build_init_args,
    call_static_method,
    create_runtime,
    find_class,
    interface_of,
    register_native_method,
};

verus! {

/// The two states of a bridge.
#[derive(Clone, Copy, Debug, PartialEq, Eq, Structural)]
pub enum State {
    /// Nothing has been attempted.
    Uninitialized,
    /// The launching sequence was entered.
    Running,
}

/// A bridge into the embedded runtime. It is started once; there is no way
/// back from `Running`.
#[derive(Debug)]
pub struct Bridge {
    state: State,
}

impl Bridge {
    /// The state of the bridge.
    pub closed spec fn status(self) -> State {
        self.state
    }

    /// A bridge on which nothing has been attempted.
    pub fn new() -> (bridge: Bridge)
        ensures
            bridge.status() == State::Uninitialized,
    {
        Bridge { state: State::Uninitialized }
    }

    /// The state of the bridge.
    pub fn state(&self) -> (state: State)
        ensures
            state == self.status(),
    {
        self.state
    }

    /// Starts the runtime with the library at `library_path` on its class
    /// path, attaches the calling thread, and runs the invoking sequence in
    /// it: `hook` carries the function that the runtime is to call as the
    /// native method, and `first` and `second` go to the entry method. The
    /// thread is detached again before this returns.
    ///
    /// Whatever happens, the bridge is `Running` afterwards, so that the
    /// native method is bound at most once through one bridge. A failure is
    /// one of the launching sequence. A path with a NUL character anywhere
    /// but at its end is refused before the runtime is touched.
    pub fn start(
        &mut self,
        library_path: &str,
        first: i32,
        second: i32,
        hook: NativeMethod,
    ) -> (outcome: Result<(), Failure>)
        requires
            old(self).status() == State::Uninitialized,
        ensures
            final(self).status() == State::Running,
            outcome is Err ==> !outcome->Err_0.in_callback(),
            has_interior_nul(library_path@) ==> outcome == Err::<(), Failure>(Failure::InitArgs),
    {
        self.state = State::Running;
        let option = classpath_option(library_path);
        proof {
            lemma_option_keeps_interior_nul(library_path@);
        }
        let args = match build_init_args(runtime_version(), option.as_str()) {
            Ok(args) => args,
            Err(_) => {
                return Err(Failure::InitArgs);
            },
        };
        let vm = match create_runtime(args) {
            Ok(vm) => vm,
            Err(_) => {
                return Err(Failure::CreateRuntime);
            },
        };
        let mut guard = match attach_current_thread(&vm) {
            Ok(guard) => guard,
            Err(_) => {
                return Err(Failure::AttachThread);
            },
        };
        let env = interface_of(&mut guard);
        invoke(env, first, second, hook)
    }

    /// Runs the invoking sequence in a thread that is attached to a runtime
    /// already: `env` is that thread's interface.
    ///
    /// Whatever happens, the bridge is `Running` afterwards. A failure is
    /// one of the five steps of the invoking sequence.
    pub fn start_attached(
        &mut self,
        env: &mut JNIEnv<'_>,
        first: i32,
        second: i32,
        hook: NativeMethod,
    ) -> (outcome: Result<(), Failure>)
        requires
            old(self).status() == State::Uninitialized,
        ensures
            final(self).status() == State::Running,
            outcome is Err ==> outcome->Err_0.in_invocation(),
    {
        self.state = State::Running;
        invoke(env, first, second, hook)
    }
}

/// The invoking sequence: finds the callback class, binds the function that
/// `hook` carries to its native method, allocates an instance without
/// running a constructor, finds the entry class, and calls its static method
/// with `first`, `second` and the instance.
///
/// Each step is fatal: the first that fails ends the sequence, and the
/// failure names it. The runtime decides which steps succeed.
fn invoke(env: &mut JNIEnv<'_>, first: i32, second: i32, hook: NativeMethod) -> (outcome: Result<
    (),
    Failure,
>)
    ensures
        outcome is Err ==> outcome->Err_0.in_invocation(),
{
    let callback = match find_class(env, callback_class()) {
        Ok(class) => class,
        Err(_) => {
            return Err(Failure::FindCallbackClass);
        },
    };
    match register_native_method(env, &callback, callback_method(), callback_signature(), hook) {
        Ok(()) => {},
        Err(_) => {
            return Err(Failure::RegisterCallback);
        },
    }
    let receiver = match alloc_object(env, &callback) {
        Ok(object) => object,
        Err(_) => {
            return Err(Failure::AllocateCallback);
        },
    };
    let entry = match find_class(env, entry_class()) {
        Ok(class) => class,
        Err(_) => {
            return Err(Failure::FindEntryClass);
        },
    };
    match call_static_method(
        env,
        &entry,
        entry_method(),
        entry_signature(),
        first,
        second,
        &receiver,
    ) {
        Ok(_) => Ok(()),
        Err(_) => Err(Failure::InvokeEntry),
    }
}

} // verus!
