use callback_bridge::bridge::{Bridge, State};
use callback_bridge::failure::Failure;
use jni::NativeMethod;

#[test]
fn path_with_interior_nul_is_refused() {
    let hook = NativeMethod {
        name: "".into(),
        sig: "".into(),
        fn_ptr: std::ptr::null_mut(),
    };
    let mut bridge = Bridge::new();
    let outcome = bridge.start("libs\0lib.jar", 3, 5, hook);
    assert_eq!(outcome, Err(Failure::InitArgs));
    assert_eq!(bridge.state(), State::Running);
}
