use callback_bridge::bridge::{Bridge, State};
use jni::objects::JObject;
use jni::{InitArgsBuilder, JNIEnv, JNIVersion, JavaVM, NativeMethod};

// A stand-in for the companion library. Each class was compiled for
// release 8 without debug information and is loaded from its bytes.
//
//     package me.ivanyu.java_library;
//     public interface ResultCallback {
//         void onResult(Result result);
//     }
const RESULT_CALLBACK: [u8; 145] = [
    0xca, 0xfe, 0xba, 0xbe, 0x00, 0x00, 0x00, 0x34, 0x00, 0x07, 0x07, 0x00, 0x02, 0x01, 0x00, 0x25,
    0x6d, 0x65, 0x2f, 0x69, 0x76, 0x61, 0x6e, 0x79, 0x75, 0x2f, 0x6a, 0x61, 0x76, 0x61, 0x5f, 0x6c,
    0x69, 0x62, 0x72, 0x61, 0x72, 0x79, 0x2f, 0x52, 0x65, 0x73, 0x75, 0x6c, 0x74, 0x43, 0x61, 0x6c,
    0x6c, 0x62, 0x61, 0x63, 0x6b, 0x07, 0x00, 0x04, 0x01, 0x00, 0x10, 0x6a, 0x61, 0x76, 0x61, 0x2f,
    0x6c, 0x61, 0x6e, 0x67, 0x2f, 0x4f, 0x62, 0x6a, 0x65, 0x63, 0x74, 0x01, 0x00, 0x08, 0x6f, 0x6e,
    0x52, 0x65, 0x73, 0x75, 0x6c, 0x74, 0x01, 0x00, 0x22, 0x28, 0x4c, 0x6d, 0x65, 0x2f, 0x69, 0x76,
    0x61, 0x6e, 0x79, 0x75, 0x2f, 0x6a, 0x61, 0x76, 0x61, 0x5f, 0x6c, 0x69, 0x62, 0x72, 0x61, 0x72,
    0x79, 0x2f, 0x52, 0x65, 0x73, 0x75, 0x6c, 0x74, 0x3b, 0x29, 0x56, 0x06, 0x01, 0x00, 0x01, 0x00,
    0x03, 0x00, 0x00, 0x00, 0x00, 0x00, 0x01, 0x04, 0x01, 0x00, 0x05, 0x00, 0x06, 0x00, 0x00, 0x00,
    0x00,
];

//     package me.ivanyu.java_library;
//     public class NativeCallback implements ResultCallback {
//         public native void onResult(Result result);
//     }
const NATIVE_CALLBACK: [u8; 253] = [
    0xca, 0xfe, 0xba, 0xbe, 0x00, 0x00, 0x00, 0x34, 0x00, 0x0e, 0x0a, 0x00, 0x02, 0x00, 0x03, 0x07,
    0x00, 0x04, 0x0c, 0x00, 0x05, 0x00, 0x06, 0x01, 0x00, 0x10, 0x6a, 0x61, 0x76, 0x61, 0x2f, 0x6c,
    0x61, 0x6e, 0x67, 0x2f, 0x4f, 0x62, 0x6a, 0x65, 0x63, 0x74, 0x01, 0x00, 0x06, 0x3c, 0x69, 0x6e,
    0x69, 0x74, 0x3e, 0x01, 0x00, 0x03, 0x28, 0x29, 0x56, 0x07, 0x00, 0x08, 0x01, 0x00, 0x25, 0x6d,
    0x65, 0x2f, 0x69, 0x76, 0x61, 0x6e, 0x79, 0x75, 0x2f, 0x6a, 0x61, 0x76, 0x61, 0x5f, 0x6c, 0x69,
    0x62, 0x72, 0x61, 0x72, 0x79, 0x2f, 0x4e, 0x61, 0x74, 0x69, 0x76, 0x65, 0x43, 0x61, 0x6c, 0x6c,
    0x62, 0x61, 0x63, 0x6b, 0x07, 0x00, 0x0a, 0x01, 0x00, 0x25, 0x6d, 0x65, 0x2f, 0x69, 0x76, 0x61,
    0x6e, 0x79, 0x75, 0x2f, 0x6a, 0x61, 0x76, 0x61, 0x5f, 0x6c, 0x69, 0x62, 0x72, 0x61, 0x72, 0x79,
    0x2f, 0x52, 0x65, 0x73, 0x75, 0x6c, 0x74, 0x43, 0x61, 0x6c, 0x6c, 0x62, 0x61, 0x63, 0x6b, 0x01,
    0x00, 0x04, 0x43, 0x6f, 0x64, 0x65, 0x01, 0x00, 0x08, 0x6f, 0x6e, 0x52, 0x65, 0x73, 0x75, 0x6c,
    0x74, 0x01, 0x00, 0x22, 0x28, 0x4c, 0x6d, 0x65, 0x2f, 0x69, 0x76, 0x61, 0x6e, 0x79, 0x75, 0x2f,
    0x6a, 0x61, 0x76, 0x61, 0x5f, 0x6c, 0x69, 0x62, 0x72, 0x61, 0x72, 0x79, 0x2f, 0x52, 0x65, 0x73,
    0x75, 0x6c, 0x74, 0x3b, 0x29, 0x56, 0x00, 0x21, 0x00, 0x07, 0x00, 0x02, 0x00, 0x01, 0x00, 0x09,
    0x00, 0x00, 0x00, 0x02, 0x00, 0x01, 0x00, 0x05, 0x00, 0x06, 0x00, 0x01, 0x00, 0x0b, 0x00, 0x00,
    0x00, 0x11, 0x00, 0x01, 0x00, 0x01, 0x00, 0x00, 0x00, 0x05, 0x2a, 0xb7, 0x00, 0x01, 0xb1, 0x00,
    0x00, 0x00, 0x00, 0x01, 0x01, 0x00, 0x0c, 0x00, 0x0d, 0x00, 0x00, 0x00, 0x00,
];

//     package me.ivanyu.java_library;
//     public class Calculator {
//         public static void add(int a, int b, ResultCallback callback) {
//         }
//     }
const CALCULATOR: [u8; 228] = [
    0xca, 0xfe, 0xba, 0xbe, 0x00, 0x00, 0x00, 0x34, 0x00, 0x0c, 0x0a, 0x00, 0x02, 0x00, 0x03, 0x07,
    0x00, 0x04, 0x0c, 0x00, 0x05, 0x00, 0x06, 0x01, 0x00, 0x10, 0x6a, 0x61, 0x76, 0x61, 0x2f, 0x6c,
    0x61, 0x6e, 0x67, 0x2f, 0x4f, 0x62, 0x6a, 0x65, 0x63, 0x74, 0x01, 0x00, 0x06, 0x3c, 0x69, 0x6e,
    0x69, 0x74, 0x3e, 0x01, 0x00, 0x03, 0x28, 0x29, 0x56, 0x07, 0x00, 0x08, 0x01, 0x00, 0x21, 0x6d,
    0x65, 0x2f, 0x69, 0x76, 0x61, 0x6e, 0x79, 0x75, 0x2f, 0x6a, 0x61, 0x76, 0x61, 0x5f, 0x6c, 0x69,
    0x62, 0x72, 0x61, 0x72, 0x79, 0x2f, 0x43, 0x61, 0x6c, 0x63, 0x75, 0x6c, 0x61, 0x74, 0x6f, 0x72,
    0x01, 0x00, 0x04, 0x43, 0x6f, 0x64, 0x65, 0x01, 0x00, 0x03, 0x61, 0x64, 0x64, 0x01, 0x00, 0x2c,
    0x28, 0x49, 0x49, 0x4c, 0x6d, 0x65, 0x2f, 0x69, 0x76, 0x61, 0x6e, 0x79, 0x75, 0x2f, 0x6a, 0x61,
    0x76, 0x61, 0x5f, 0x6c, 0x69, 0x62, 0x72, 0x61, 0x72, 0x79, 0x2f, 0x52, 0x65, 0x73, 0x75, 0x6c,
    0x74, 0x43, 0x61, 0x6c, 0x6c, 0x62, 0x61, 0x63, 0x6b, 0x3b, 0x29, 0x56, 0x00, 0x21, 0x00, 0x07,
    0x00, 0x02, 0x00, 0x00, 0x00, 0x00, 0x00, 0x02, 0x00, 0x01, 0x00, 0x05, 0x00, 0x06, 0x00, 0x01,
    0x00, 0x09, 0x00, 0x00, 0x00, 0x11, 0x00, 0x01, 0x00, 0x01, 0x00, 0x00, 0x00, 0x05, 0x2a, 0xb7,
    0x00, 0x01, 0xb1, 0x00, 0x00, 0x00, 0x00, 0x00, 0x09, 0x00, 0x0a, 0x00, 0x0b, 0x00, 0x01, 0x00,
    0x09, 0x00, 0x00, 0x00, 0x0d, 0x00, 0x00, 0x00, 0x03, 0x00, 0x00, 0x00, 0x01, 0xb1, 0x00, 0x00,
    0x00, 0x00, 0x00, 0x00,
];

fn load(env: &mut JNIEnv) {
    let loader = JObject::null();
    env.define_class("me/ivanyu/java_library/ResultCallback", &loader, &RESULT_CALLBACK)
        .unwrap();
    env.define_class("me/ivanyu/java_library/NativeCallback", &loader, &NATIVE_CALLBACK)
        .unwrap();
    env.define_class("me/ivanyu/java_library/Calculator", &loader, &CALCULATOR)
        .unwrap();
}

fn unbound() -> NativeMethod {
    NativeMethod {
        name: "".into(),
        sig: "".into(),
        fn_ptr: std::ptr::null_mut(),
    }
}

#[test]
fn library_that_never_calls_back_delivers_nothing() {
    let args = InitArgsBuilder::new()
        .version(JNIVersion::V8)
        .build()
        .unwrap();
    let vm = JavaVM::new(args).unwrap();
    let mut env = vm.attach_current_thread().unwrap();
    load(&mut env);

    let mut bridge = Bridge::new();
    assert_eq!(bridge.start_attached(&mut env, 3, 5, unbound()), Ok(()));
    assert_eq!(bridge.state(), State::Running);
    assert!(!env.exception_check().unwrap());
}
