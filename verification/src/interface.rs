//! The fixed identifiers of the embedding boundary.
//!
//! The managed side is reached through names and type signatures only: the
//! class that carries the native method, the method bound to it, the class
//! and static method that start the computation, and the accessor through
//! which the result gives up its message.

use vstd::prelude::*;
use vstd::string::StringExecFns;

verus! {

/// A version of the embedding interface that a runtime can be asked for.
#[derive(Clone, Copy, Debug, PartialEq, Eq, Structural)]
pub enum RuntimeVersion {
    /// Version 1.1.
    V1,
    /// Version 1.2.
    V2,
    /// Version 1.4.
    V4,
    /// Version 1.6.
    V6,
    /// Version 1.8.
    V8,
}

/// The version that the bridge asks for.
pub fn runtime_version() -> (version: RuntimeVersion)
    ensures
        version == RuntimeVersion::V8,
{
    RuntimeVersion::V8
}

/// Where the companion library is expected, relative to the working directory.
pub fn library_path() -> (path: &'static str)
    ensures
        path@ == "java/lib/build/libs/lib.jar"@,
{
    "java/lib/build/libs/lib.jar"
}

/// The two integers handed to the entry method.
pub fn operands() -> (pair: (i32, i32))
    ensures
        pair == (3i32, 5i32),
{
    (3, 5)
}

/// Fully qualified name of the class that carries the native method.
pub fn callback_class() -> (name: &'static str)
    ensures
        name@ == "me/ivanyu/java_library/NativeCallback"@,
{
    "me/ivanyu/java_library/NativeCallback"
}

/// Name of the native method.
pub fn callback_method() -> (name: &'static str)
    ensures
        name@ == "onResult"@,
{
    "onResult"
}

/// Type signature of the native method: one argument of the result type,
/// nothing returned.
pub fn callback_signature() -> (signature: &'static str)
    ensures
        signature@ == "(Lme/ivanyu/java_library/Result;)V"@,
{
    "(Lme/ivanyu/java_library/Result;)V"
}

/// Fully qualified name of the class that owns the entry method.
pub fn entry_class() -> (name: &'static str)
    ensures
        name@ == "me/ivanyu/java_library/Calculator"@,
{
    "me/ivanyu/java_library/Calculator"
}

/// Name of the static entry method.
pub fn entry_method() -> (name: &'static str)
    ensures
        name@ == "add"@,
{
    "add"
}

/// Whether an opening parenthesis stands only where a signature begins.
///
/// A type signature opens its argument list with a parenthesis; one that
/// opened another list further on would describe a method as an argument.
pub open spec fn is_flat_signature(signature: Seq<char>) -> bool {
    forall|i: int| 0 < i < signature.len() ==> signature[i] != '('
}

/// Type signature of the entry method: two integers and an argument of the
/// callback interface, nothing returned. It names no method among its
/// arguments.
pub fn entry_signature() -> (signature: &'static str)
    ensures
        signature@ == "(IILme/ivanyu/java_library/ResultCallback;)V"@,
        is_flat_signature(signature@),
{
    proof {
        reveal_strlit("(IILme/ivanyu/java_library/ResultCallback;)V");
    }
    "(IILme/ivanyu/java_library/ResultCallback;)V"
}

/// Name of the result's message accessor.
pub fn accessor_method() -> (name: &'static str)
    ensures
        name@ == "getMessage"@,
{
    "getMessage"
}

/// Type signature of the message accessor: no argument, a string returned.
pub fn accessor_signature() -> (signature: &'static str)
    ensures
        signature@ == "()Ljava/lang/String;"@,
{
    "()Ljava/lang/String;"
}

/// The start-up option that puts `path` on the runtime's class path.
pub open spec fn classpath_option_text(path: Seq<char>) -> Seq<char> {
    "-Djava.class.path="@ + path
}

/// Builds the start-up option that puts the companion library on the
/// runtime's class path.
pub fn classpath_option(path: &str) -> (option: String)
    ensures
        option@ == classpath_option_text(path@),
{
    let mut option = String::from_str("-Djava.class.path=");
    option.append(path);
    option
}

/// Whether a NUL character stands anywhere but at the very end.
pub open spec fn has_interior_nul(text: Seq<char>) -> bool {
    exists|i: int| 0 <= i < text.len() - 1 && text[i] == '\0'
}

/// The class path option has a NUL character inside exactly when the path
/// has one.
pub proof fn lemma_option_keeps_interior_nul(path: Seq<char>)
    ensures
        has_interior_nul(classpath_option_text(path)) <==> has_interior_nul(path),
{
    reveal_strlit("-Djava.class.path=");
    let prefix = "-Djava.class.path="@;
    let option = classpath_option_text(path);
    assert(prefix.len() == 18);
    assert(option.len() == 18 + path.len());
    if has_interior_nul(path) {
        let i = choose|i: int| 0 <= i < path.len() - 1 && path[i] == '\0';
        assert(option[i + 18] == path[i]);
        assert(0 <= i + 18 < option.len() - 1 && option[i + 18] == '\0');
    }
    if has_interior_nul(option) {
        let j = choose|j: int| 0 <= j < option.len() - 1 && option[j] == '\0';
        if j < 18 {
            assert(option[j] == prefix[j]);
        } else {
            assert(option[j] == path[j - 18]);
            assert(0 <= j - 18 < path.len() - 1 && path[j - 18] == '\0');
        }
    }
}

} // verus!
