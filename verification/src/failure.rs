//! The ways a run can end early, and the diagnostic that names each of them.
//!
//! Every fallible step of the bridge is fatal: the first one that fails ends
//! the run, and the caller is told which step it was.

use vstd::prelude::*;

verus! {

/// The step at which a run was given up.
///
/// The first eight belong to starting the runtime and invoking the entry
/// method; the last three belong to the native callback.
#[derive(Clone, Copy, Debug, PartialEq, Eq, Structural)]
pub enum Failure {
    /// The runtime's start-up arguments could not be built.
    InitArgs,
    /// The embedded runtime could not be created.
    CreateRuntime,
    /// The calling thread could not be attached to the runtime.
    AttachThread,
    /// The callback class was not found.
    FindCallbackClass,
    /// The native method could not be bound to the callback class.
    RegisterCallback,
    /// No instance of the callback class could be allocated.
    AllocateCallback,
    /// The entry class was not found.
    FindEntryClass,
    /// The static entry method could not be found or threw.
    InvokeEntry,
    /// The result's message accessor could not be called or threw.
    CallAccessor,
    /// The message accessor returned no string.
    NullMessage,
    /// The managed string could not be turned into a native one.
    ConvertMessage,
}

impl Failure {
    /// The text of the diagnostic, as a sequence of characters.
    pub open spec fn diagnostic_text(self) -> Seq<char> {
        match self {
            Failure::InitArgs => "Failed to create JVM args"@,
            Failure::CreateRuntime => "Failed to create JVM"@,
            Failure::AttachThread => "Failed to attach current thread"@,
            Failure::FindCallbackClass => "Failed to find NativeCallback class"@,
            Failure::RegisterCallback => "Failed to register native methods"@,
            Failure::AllocateCallback => "Failed to allocate NativeCallback object"@,
            Failure::FindEntryClass => "Failed to find Calculator class"@,
            Failure::InvokeEntry => "Failed to call add"@,
            Failure::CallAccessor => "Failed to call getMessage"@,
            Failure::NullMessage => "getMessage returned null"@,
            Failure::ConvertMessage => "Couldn't get Java string"@,
        }
    }

    /// Whether the step belongs to the native callback rather than to the
    /// sequence that starts the runtime and invokes the entry method.
    pub open spec fn in_callback(self) -> bool {
        self == Failure::CallAccessor || self == Failure::NullMessage
            || self == Failure::ConvertMessage
    }

    /// Whether the step belongs to the invoking sequence, which runs in an
    /// attached thread: from finding the callback class to calling the entry
    /// method.
    pub open spec fn in_invocation(self) -> bool {
        self == Failure::FindCallbackClass || self == Failure::RegisterCallback || self
            == Failure::AllocateCallback || self == Failure::FindEntryClass || self
            == Failure::InvokeEntry
    }

    /// The human-readable diagnostic with which the process is given up.
    pub fn diagnostic(&self) -> (text: &'static str)
        ensures
            text@ == self.diagnostic_text(),
    {
        match self {
            Failure::InitArgs => "Failed to create JVM args",
            Failure::CreateRuntime => "Failed to create JVM",
            Failure::AttachThread => "Failed to attach current thread",
            Failure::FindCallbackClass => "Failed to find NativeCallback class",
            Failure::RegisterCallback => "Failed to register native methods",
            Failure::AllocateCallback => "Failed to allocate NativeCallback object",
            Failure::FindEntryClass => "Failed to find Calculator class",
            Failure::InvokeEntry => "Failed to call add",
            Failure::CallAccessor => "Failed to call getMessage",
            Failure::NullMessage => "getMessage returned null",
            Failure::ConvertMessage => "Couldn't get Java string",
        }
    }

    /// Tells callback failures from those of the launching sequence.
    pub fn during_callback(&self) -> (yes: bool)
        ensures
            yes == self.in_callback(),
    {
        match self {
            Failure::CallAccessor | Failure::NullMessage | Failure::ConvertMessage => true,
            _ => false,
        }
    }
}

/// A diagnostic identifies the step that failed: two failures with the same
/// diagnostic are the same failure.
pub proof fn lemma_diagnostic_identifies_failure(a: Failure, b: Failure)
    ensures
        a.diagnostic_text() == b.diagnostic_text() <==> a == b,
{
    reveal_strlit("Failed to create JVM args");
    reveal_strlit("Failed to create JVM");
    reveal_strlit("Failed to attach current thread");
    reveal_strlit("Failed to find NativeCallback class");
    reveal_strlit("Failed to register native methods");
    reveal_strlit("Failed to allocate NativeCallback object");
    reveal_strlit("Failed to find Calculator class");
    reveal_strlit("Failed to call add");
    reveal_strlit("Failed to call getMessage");
    reveal_strlit("getMessage returned null");
    reveal_strlit("Couldn't get Java string");
    if a.diagnostic_text() == b.diagnostic_text() {
        let s = a.diagnostic_text();
        let t = b.diagnostic_text();
        assert(s.len() == t.len());
        assert(s[0] == t[0]);
        assert(s[10] == t[10]);
        assert(s[11] == t[11]);
    }
}

} // verus!
