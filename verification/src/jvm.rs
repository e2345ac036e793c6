//! The calls into the embedded runtime.
//!
//! Nothing in this module is proved. Each function makes one call of the
//! `jni` crate and states no more of it than that crate documents; what a
//! call gives back depends on the runtime and on the classes it has loaded,
//! so most of them promise nothing about their result. The types are those
//! of the `jni` crate, carried through the verified code as opaque values.

use jni::errors::{Error, StartJvmError};
use jni::objects::{JClass, JObject, JString, JValue, JValueGen, JValueOwned};
use jni::{AttachGuard, InitArgs, InitArgsBuilder, JNIEnv, JNIVersion, JavaVM, JvmError, NativeMethod};
use vstd::prelude::*;

use crate::interface::{has_interior_nul, is_flat_signature, RuntimeVersion};

verus! {

/// `jni::JNIEnv`: the interface of the runtime, valid in one thread.
#[verifier::external_type_specification]
#[verifier::external_body]
pub struct ExJNIEnv<'local>(JNIEnv<'local>);

/// `jni::JavaVM`: a created runtime.
#[verifier::external_type_specification]
#[verifier::external_body]
pub struct ExJavaVM(JavaVM);

/// `jni::AttachGuard`: the attachment of a thread, released when dropped.
#[verifier::external_type_specification]
#[verifier::external_body]
pub struct ExAttachGuard<'local>(AttachGuard<'local>);

/// `jni::InitArgs`: start-up arguments of a runtime.
#[verifier::external_type_specification]
#[verifier::external_body]
pub struct ExInitArgs<'a>(InitArgs<'a>);

/// `jni::NativeMethod`: a method name, a signature and a function pointer.
#[verifier::external_type_specification]
#[verifier::external_body]
pub struct ExNativeMethod(NativeMethod);

/// `jni::sys::_jobject`: what a raw object reference points to. `JObject`
/// names it in its `Deref` impl.
#[verifier::external_type_specification]
#[verifier::external_body]
pub struct ExRawObject(jni::sys::_jobject);

/// `jni::objects::JObject`: a local reference to a managed object, or null.
#[verifier::external_type_specification]
#[verifier::external_body]
pub struct ExJObject<'local>(JObject<'local>);

/// `jni::objects::JClass`: a local reference to a class.
#[verifier::external_type_specification]
#[verifier::external_body]
pub struct ExJClass<'local>(JClass<'local>);

/// `jni::objects::JValueGen`: a value passed to or returned by a method.
#[verifier::external_type_specification]
#[verifier::external_body]
#[verifier::reject_recursive_types(O)]
pub struct ExJValueGen<O>(JValueGen<O>);

/// `jni::errors::Error`: why a call into the runtime failed.
#[verifier::external_type_specification]
#[verifier::external_body]
pub struct ExError(Error);

/// `jni::JvmError`: why start-up arguments could not be built.
#[verifier::external_type_specification]
#[verifier::external_body]
pub struct ExJvmError(JvmError);

/// `jni::errors::StartJvmError`: why a runtime could not be started.
#[verifier::external_type_specification]
#[verifier::external_body]
pub struct ExStartJvmError(StartJvmError);

/// `InitArgsBuilder::new`, `version`, `option` and `build`: start-up
/// arguments with one option.
///
/// The crate documents that an option must not hold a NUL character except
/// at its end, and that `build` returns the error that `option` met. No more
/// is claimed: on some platforms other options are refused as well.
#[verifier::external_body]
pub(crate) fn build_init_args<'a>(version: RuntimeVersion, option: &'a str) -> (built: Result<
    InitArgs<'a>,
    JvmError,
>)
    ensures
        built is Ok ==> !has_interior_nul(option@),
{
    let version = match version {
        RuntimeVersion::V1 => JNIVersion::V1,
        RuntimeVersion::V2 => JNIVersion::V2,
        RuntimeVersion::V4 => JNIVersion::V4,
        RuntimeVersion::V6 => JNIVersion::V6,
        RuntimeVersion::V8 => JNIVersion::V8,
    };
    InitArgsBuilder::new().version(version).option(option).build()
}

/// `JavaVM::new`: locates the runtime's shared library, loads it and starts
/// a runtime. Whether that succeeds depends on the machine.
#[verifier::external_body]
pub(crate) fn create_runtime(args: InitArgs<'_>) -> (created: Result<JavaVM, StartJvmError>) {
    JavaVM::new(args)
}

/// `JavaVM::attach_current_thread`: attaches the calling thread until the
/// guard is dropped.
#[verifier::external_body]
pub(crate) fn attach_current_thread<'vm>(vm: &'vm JavaVM) -> (attached: Result<
    AttachGuard<'vm>,
    Error,
>) {
    vm.attach_current_thread()
}

/// `AttachGuard`'s `deref_mut`: the interface of the attached thread.
#[verifier::external_body]
pub(crate) fn interface_of<'a, 'vm>(guard: &'a mut AttachGuard<'vm>) -> (env: &'a mut JNIEnv<
    'vm,
>) {
    std::ops::DerefMut::deref_mut(guard)
}

/// `JNIEnv::find_class`: looks a class up by its fully qualified name.
#[verifier::external_body]
pub(crate) fn find_class<'local>(env: &mut JNIEnv<'local>, name: &str) -> (found: Result<
    JClass<'local>,
    Error,
>) {
    env.find_class(name)
}

/// `JNIEnv::register_native_methods`, with one method: binds the function
/// pointer that `hook` carries to the method `name` with type signature
/// `signature` of `class`. The name and signature that `hook` came with are
/// not used.
#[verifier::external_body]
pub(crate) fn register_native_method<'local>(
    env: &mut JNIEnv<'local>,
    class: &JClass<'local>,
    name: &str,
    signature: &str,
    hook: NativeMethod,
) -> (bound: Result<(), Error>) {
    let method = NativeMethod { name: name.into(), sig: signature.into(), fn_ptr: hook.fn_ptr };
    env.register_native_methods(class, &[method])
}

/// `JNIEnv::alloc_object`: allocates an instance of `class` without running
/// a constructor.
#[verifier::external_body]
pub(crate) fn alloc_object<'local>(env: &mut JNIEnv<'local>, class: &JClass<'local>) -> (made:
    Result<JObject<'local>, Error>) {
    env.alloc_object(class)
}

/// `JNIEnv::call_static_method`, with two integers and an object as
/// arguments.
///
/// The crate matches the arguments against the parsed signature and gives
/// up the process where the signature names a method among its arguments;
/// a flat signature cannot.
#[verifier::external_body]
pub(crate) fn call_static_method<'local>(
    env: &mut JNIEnv<'local>,
    class: &JClass<'local>,
    name: &str,
    signature: &str,
    first: i32,
    second: i32,
    third: &JObject<'local>,
) -> (returned: Result<JValueOwned<'local>, Error>)
    requires
        is_flat_signature(signature@),
{
    let arguments = [JValue::Int(first), JValue::Int(second), JValue::Object(third)];
    env.call_static_method(class, name, signature, &arguments)
}

/// `JNIEnv::call_method`, without arguments: calls the method `name` with
/// type signature `signature` on `object`.
#[verifier::external_body]
pub(crate) fn call_method<'local>(
    env: &mut JNIEnv<'local>,
    object: &JObject<'_>,
    name: &str,
    signature: &str,
) -> (returned: Result<JValueOwned<'local>, Error>) {
    env.call_method(object, name, signature, &[])
}

/// `JValueGen::l`: the object that a returned value holds, or an error
/// where it holds none.
#[verifier::external_body]
pub(crate) fn into_object<'local>(value: JValueOwned<'local>) -> (object: Result<
    JObject<'local>,
    Error,
>) {
    value.l()
}

/// `JObject::as_raw`: whether the reference is the null reference.
#[verifier::external_body]
pub(crate) fn is_null(object: &JObject<'_>) -> (null: bool) {
    object.as_raw().is_null()
}

/// `JNIEnv::get_string`, on the object taken as a string, and the
/// conversion of what it returns into a `String`.
#[verifier::external_body]
pub(crate) fn get_string<'local>(env: &mut JNIEnv<'local>, object: JObject<'local>) -> (text:
    Result<String, Error>) {
    let string = JString::from(object);
    let text = env.get_string(&string)?;
    Ok(text.into())
}

} // verus!
