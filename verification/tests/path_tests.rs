use iup::path::{exe_path, im_dll, iup_dll, OsFamily};
use iup::xerror::XError;

#[test]
fn exe_path_unix() {
    let d = exe_path("/opt/app/bin/myapp", OsFamily::Unix).unwrap();
    assert_eq!(d, "/opt/app/bin/iup/linux");
}

#[test]
fn exe_path_windows() {
    let d = exe_path("C:\\Programs\\app.exe", OsFamily::Windows).unwrap();
    assert_eq!(d, "C:\\Programs\\iup/windows");
}

#[test]
fn exe_path_windows_forward_slashes() {
    let d = exe_path("C:/Programs/app.exe", OsFamily::Windows).unwrap();
    assert_eq!(d, "C:/Programs\\iup/windows");
}

#[test]
fn exe_path_root_level() {
    let d = exe_path("/myapp", OsFamily::Unix).unwrap();
    assert_eq!(d, "/iup/linux");
}

#[test]
fn exe_path_without_separator_fails() {
    match exe_path("myapp", OsFamily::Unix) {
        Err(XError::IoFailure(_)) => {}
        other => panic!("expected IoFailure, got {:?}", other),
    }
}

#[test]
fn iup_dll_unix() {
    let p = iup_dll("/opt/app/bin/myapp", OsFamily::Unix).unwrap();
    assert_eq!(p, "/opt/app/bin/iup/linux/libiup.so");
}

#[test]
fn iup_dll_windows() {
    let p = iup_dll("C:\\Programs\\app.exe", OsFamily::Windows).unwrap();
    assert_eq!(p, "C:\\Programs\\iup/windows\\iup.dll");
}

#[test]
fn im_dll_unix() {
    let p = im_dll("/opt/app/bin/myapp", OsFamily::Unix).unwrap();
    assert_eq!(p, "/opt/app/bin/iup/linux/libiupim.so");
}

#[test]
fn im_dll_windows() {
    let p = im_dll("C:\\Programs\\app.exe", OsFamily::Windows).unwrap();
    assert_eq!(p, "C:\\Programs\\iup/windows\\iupim.dll");
}

#[test]
fn im_dll_without_separator_fails() {
    assert!(im_dll("app.exe", OsFamily::Windows).is_err());
}
