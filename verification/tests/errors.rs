//! Status codes and the errors they stand for.

use virtualdj_plugin_sdk::error::status_to_result;
use virtualdj_plugin_sdk::ffi;
use virtualdj_plugin_sdk::PluginError;

#[test]
fn each_status_has_its_error() {
    assert_eq!(PluginError::from(ffi::S_OK), PluginError::Success);
    assert_eq!(PluginError::from(ffi::E_NOTIMPL), PluginError::NotImplemented);
    assert_eq!(PluginError::from(ffi::E_FAIL), PluginError::Fail);
}

#[test]
fn unknown_statuses_are_failures() {
    assert_eq!(PluginError::from(ffi::S_FALSE), PluginError::Fail);
    assert_eq!(PluginError::from(-1), PluginError::Fail);
    assert_eq!(PluginError::from(42), PluginError::Fail);
    assert_eq!(PluginError::from(i32::MIN), PluginError::Fail);
    assert_eq!(PluginError::from(i32::MAX), PluginError::Fail);
}

#[test]
fn no_status_stands_for_a_null_pointer() {
    for hr in [ffi::S_OK, ffi::S_FALSE, ffi::E_NOTIMPL, ffi::E_FAIL, -1, 7] {
        assert_ne!(PluginError::from(hr), PluginError::NullPointer);
    }
}

#[test]
fn messages_name_the_error() {
    assert_eq!(PluginError::Success.message(), "Success");
    assert_eq!(PluginError::Fail.message(), "General failure");
    assert_eq!(PluginError::NotImplemented.message(), "Not implemented");
    assert_eq!(PluginError::NullPointer.message(), "Null pointer");
}

#[test]
fn a_successful_status_keeps_the_value() {
    assert_eq!(status_to_result(ffi::S_OK, 42), Ok(42));
    assert_eq!(status_to_result(ffi::S_OK, "title"), Ok("title"));
    assert_eq!(status_to_result(ffi::S_OK, ()), Ok(()));
}

#[test]
fn a_failed_status_drops_the_value() {
    assert_eq!(status_to_result(ffi::E_FAIL, 42), Err(PluginError::Fail));
    assert_eq!(status_to_result(ffi::E_NOTIMPL, 42), Err(PluginError::NotImplemented));
    assert_eq!(status_to_result(ffi::S_FALSE, 42), Err(PluginError::Fail));
    assert_eq!(status_to_result(-7, 42), Err(PluginError::Fail));
}

#[test]
fn a_failed_status_never_reports_success() {
    for hr in [ffi::S_FALSE, ffi::E_NOTIMPL, ffi::E_FAIL, -1, 1000, i32::MIN, i32::MAX] {
        let r = status_to_result(hr, ());
        assert!(r.is_err());
        assert_ne!(r, Err(PluginError::Success));
    }
}

#[test]
fn errors_compare_and_copy() {
    let e = PluginError::NotImplemented;
    let f = e;
    assert_eq!(e, f);
    assert_ne!(e, PluginError::Fail);
    assert_eq!(format!("{:?}", e), "NotImplemented");
}
