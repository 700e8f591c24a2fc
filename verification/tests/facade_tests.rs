use iup::binder::{bind, NativeLibrary};
use iup::iup::{global_from_native, status_ok, text_from_native, version_from_native, Im, Iup};
use iup::prelude::{Ihandle, Icallback, NOERROR};
use iup::stub::StubLibrary;
use iup::xerror::XError;

const NAMES: [&str; 27] = [
    "IupOpen",
    "IupSetGlobal",
    "IupAppend",
    "IupButton",
    "IupClose",
    "IupDialog",
    "IupGetAttribute",
    "IupGetDialog",
    "IupGetGlobal",
    "IupGetInt",
    "IupHbox",
    "IupLabel",
    "IupMainLoop",
    "IupMessage",
    "IupSetAttribute",
    "IupSetAttributeHandle",
    "IupSetCallback",
    "IupSetFocus",
    "IupSetHandle",
    "IupSetInt",
    "IupShow",
    "IupShowXY",
    "IupTimer",
    "IupVbox",
    "IupVersion",
    "IupVersionShow",
    "IupLoadImage",
];

fn addr_of(name: &str) -> usize {
    NAMES.iter().position(|n| *n == name).unwrap() + 1
}

fn full_stub() -> StubLibrary {
    let entries: Vec<(String, usize)> =
        NAMES.iter().enumerate().map(|(i, n)| (n.to_string(), i + 1)).collect();
    StubLibrary::new(entries)
}

fn stub_without(missing: &str) -> StubLibrary {
    let entries: Vec<(String, usize)> = NAMES
        .iter()
        .enumerate()
        .filter(|(_, n)| **n != missing)
        .map(|(i, n)| (n.to_string(), i + 1))
        .collect();
    StubLibrary::new(entries)
}

#[test]
fn the_required_symbol_list_is_fixed_and_ordered() {
    let names = iup::binder::required_symbols();
    assert_eq!(names.len(), 26);
    for (i, n) in names.iter().enumerate() {
        assert_eq!(n, NAMES[i]);
    }
}

#[test]
fn button_with_unrepresentable_text_is_the_null_handle() {
    let mut iup = Iup::new(full_stub()).unwrap();
    assert_eq!(iup.button("o\0k", "ACTION").addr, 0);
    assert_eq!(iup.button("ok", "ACT\0ION").addr, 0);
    assert_eq!(iup.api.calls_of(addr_of("IupButton")), 0);
}

#[test]
fn resolution_of_every_declared_name_succeeds() {
    let stub = full_stub();
    for name in NAMES.iter() {
        assert_eq!(stub.resolve(name), Some(addr_of(name)));
    }
    assert!(bind(&stub).is_ok());
}

#[test]
fn resolution_of_an_absent_name_fails() {
    let stub = full_stub();
    assert_eq!(stub.resolve("IupHide"), None);
}

#[test]
fn each_single_missing_symbol_fails_binding_with_its_name() {
    for missing in NAMES.iter().take(26) {
        let stub = stub_without(missing);
        match bind(&stub) {
            Err(XError::SymbolNotFound(n)) => assert_eq!(&n, missing),
            Err(other) => panic!("expected SymbolNotFound({}), got {:?}", missing, other),
            Ok(_) => panic!("expected SymbolNotFound({}), got a table", missing),
        }
    }
}

#[test]
fn construction_succeeds_on_a_full_stub() {
    let iup = Iup::new(full_stub()).unwrap();
    assert!(!iup.closed);
}

#[test]
fn construction_makes_exactly_one_initialization_call() {
    let iup = Iup::new(full_stub()).unwrap();
    assert_eq!(iup.api.calls_of(addr_of("IupOpen")), 1);
}

#[test]
fn construction_calls_open_first_then_sets_the_encoding_mode() {
    let iup = Iup::new(full_stub()).unwrap();
    assert_eq!(iup.api.log, vec![addr_of("IupOpen"), addr_of("IupSetGlobal")]);
}

#[test]
fn construction_sets_the_text_encoding_mode() {
    let iup = Iup::new(full_stub()).unwrap();
    assert_eq!(iup.api.calls_of(addr_of("IupSetGlobal")), 1);
}

#[test]
fn construction_fails_naming_the_missing_symbol() {
    match Iup::new(stub_without("IupSetCallback")) {
        Err(XError::SymbolNotFound(n)) => assert_eq!(n, "IupSetCallback"),
        Err(other) => panic!("expected SymbolNotFound(IupSetCallback), got {:?}", other),
        Ok(_) => panic!("expected SymbolNotFound(IupSetCallback), got a facade"),
    }
}

#[test]
fn construction_fails_on_a_failure_sentinel_from_initialization() {
    let mut stub = full_stub();
    stub.open_result = 1;
    match Iup::new(stub) {
        Err(XError::InitializationFailed(_)) => {}
        Err(other) => panic!("expected InitializationFailed, got {:?}", other),
        Ok(_) => panic!("expected InitializationFailed, got a facade"),
    }
}

#[test]
fn version_reports_the_exact_native_string() {
    let mut stub = full_stub();
    stub.text_result = Some(b"3.29".to_vec());
    let mut iup = Iup::new(stub).unwrap();
    assert_eq!(iup.version(), "3.29");
    assert_eq!(iup.api.calls_of(addr_of("IupVersion")), 1);
}

#[test]
fn version_falls_back_on_a_null_result() {
    let mut iup = Iup::new(full_stub()).unwrap();
    assert_eq!(iup.version(), "0.0");
}

#[test]
fn version_falls_back_on_undecodable_bytes() {
    let mut stub = full_stub();
    stub.text_result = Some(vec![0xff, 0x30]);
    let mut iup = Iup::new(stub).unwrap();
    assert_eq!(iup.version(), "0.0");
}

#[test]
fn show_translates_the_success_sentinel() {
    let mut iup = Iup::new(full_stub()).unwrap();
    let h = Ihandle { addr: 12 };
    assert!(iup.show(h));
    assert!(iup.show_xy(h, 10, 20));
}

#[test]
fn show_translates_every_other_code_to_failure() {
    let mut stub = full_stub();
    stub.int_result = 1;
    let mut iup = Iup::new(stub).unwrap();
    let h = Ihandle { addr: 12 };
    assert!(!iup.show(h));
    assert!(!iup.show_xy(h, 10, 20));
    let mut stub2 = full_stub();
    stub2.int_result = -1;
    let mut iup2 = Iup::new(stub2).unwrap();
    assert!(!iup2.show(h));
}

#[test]
fn sentinel_translation_is_exact() {
    assert!(status_ok(NOERROR));
    assert!(!status_ok(1));
    assert!(!status_ok(-1));
    assert!(!status_ok(i32::MAX));
    assert!(!status_ok(i32::MIN));
}

#[test]
fn get_attribute_decodes_the_native_value() {
    let mut stub = full_stub();
    stub.text_result = Some(b"ARIAL".to_vec());
    let mut iup = Iup::new(stub).unwrap();
    let h = Ihandle { addr: 5 };
    assert_eq!(iup.get_attribute(h, "FONT"), Some("ARIAL".to_string()));
}

#[test]
fn get_attribute_maps_a_null_result_to_none() {
    let mut iup = Iup::new(full_stub()).unwrap();
    let h = Ihandle { addr: 5 };
    assert_eq!(iup.get_attribute(h, "FONT"), None);
}

#[test]
fn get_attribute_maps_undecodable_bytes_to_none() {
    let mut stub = full_stub();
    stub.text_result = Some(vec![0xc3]);
    let mut iup = Iup::new(stub).unwrap();
    assert_eq!(iup.get_attribute(Ihandle { addr: 5 }, "FONT"), None);
}

#[test]
fn get_attribute_rejects_an_unrepresentable_name_without_calling() {
    let mut iup = Iup::new(full_stub()).unwrap();
    let before = iup.api.calls_of(addr_of("IupGetAttribute"));
    assert_eq!(iup.get_attribute(Ihandle { addr: 5 }, "FO\0NT"), None);
    assert_eq!(iup.api.calls_of(addr_of("IupGetAttribute")), before);
}

#[test]
fn get_global_decodes_or_defaults_to_empty() {
    let mut stub = full_stub();
    stub.text_result = Some(b"Linux".to_vec());
    let mut iup = Iup::new(stub).unwrap();
    assert_eq!(iup.get_global("SYSTEM"), "Linux");
    let mut iup2 = Iup::new(full_stub()).unwrap();
    assert_eq!(iup2.get_global("SYSTEM"), "");
}

#[test]
fn get_int_hands_the_native_value_through() {
    let mut stub = full_stub();
    stub.int_result = 42;
    let mut iup = Iup::new(stub).unwrap();
    assert_eq!(iup.get_int(Ihandle { addr: 5 }, "VALUE"), 42);
}

#[test]
fn handles_pass_through_unchanged() {
    let mut stub = full_stub();
    stub.handle_result = Ihandle { addr: 77 };
    let mut iup = Iup::new(stub).unwrap();
    let h = Ihandle { addr: 5 };
    assert_eq!(iup.dialog(h).addr, 77);
    assert_eq!(iup.append(h, h).addr, 77);
    assert_eq!(iup.label("hi").addr, 77);
    assert_eq!(iup.button("ok", "ACTION").addr, 77);
    assert_eq!(iup.hbox().addr, 77);
    assert_eq!(iup.vbox().addr, 77);
    assert_eq!(iup.timer().addr, 77);
    assert_eq!(iup.set_focus(h).addr, 77);
    assert_eq!(iup.set_handle("main", h).addr, 77);
    assert_eq!(iup.get_ih(h, "HANDLE").addr, 77);
    assert_eq!(iup.get_dialog_child(h, "child").addr, 77);
}

#[test]
fn null_ihandle_is_the_zero_address() {
    let iup = Iup::new(full_stub()).unwrap();
    assert_eq!(iup.null_ihandle().addr, 0);
    assert!(iup.null_ihandle().is_null());
}

#[test]
fn set_callback_hands_back_the_previous_one() {
    let mut stub = full_stub();
    stub.callback_result = Icallback { addr: 99 };
    let mut iup = Iup::new(stub).unwrap();
    let h = Ihandle { addr: 5 };
    let prev = iup.set_callback(h, "ACTION", Icallback { addr: 123 });
    assert_eq!(prev.addr, 99);
}

#[test]
fn setters_call_the_native_library_once() {
    let mut iup = Iup::new(full_stub()).unwrap();
    let h = Ihandle { addr: 5 };
    iup.set_attribute(h, "TITLE", "Hi");
    assert_eq!(iup.api.calls_of(addr_of("IupSetAttribute")), 1);
    iup.set_int(h, "VALUE", 7);
    assert_eq!(iup.api.calls_of(addr_of("IupSetInt")), 1);
    iup.set_global("LANGUAGE", "ENGLISH");
    // Once here, once for the text-encoding mode during construction.
    assert_eq!(iup.api.calls_of(addr_of("IupSetGlobal")), 2);
    iup.set_attribute_handle(h, "ICON", Ihandle { addr: 8 });
    assert_eq!(iup.api.calls_of(addr_of("IupSetAttributeHandle")), 1);
    iup.set_ih(h, "IMAGE", Ihandle { addr: 8 });
    assert_eq!(iup.api.calls_of(addr_of("IupSetAttribute")), 2);
    iup.message("title", "text");
    assert_eq!(iup.api.calls_of(addr_of("IupMessage")), 1);
    iup.main_loop();
    assert_eq!(iup.api.calls_of(addr_of("IupMainLoop")), 1);
    iup.version_show();
    assert_eq!(iup.api.calls_of(addr_of("IupVersionShow")), 1);
}

#[test]
fn setters_skip_the_call_on_unrepresentable_text() {
    let mut iup = Iup::new(full_stub()).unwrap();
    let h = Ihandle { addr: 5 };
    iup.set_attribute(h, "TIT\0LE", "Hi");
    iup.set_attribute(h, "TITLE", "H\0i");
    assert_eq!(iup.api.calls_of(addr_of("IupSetAttribute")), 0);
}

#[test]
fn shutdown_runs_once_and_the_second_call_is_a_no_op() {
    let mut iup = Iup::new(full_stub()).unwrap();
    assert!(iup.close());
    assert!(!iup.close());
    assert!(!iup.close());
    assert_eq!(iup.api.calls_of(addr_of("IupClose")), 1);
}

#[test]
fn im_binds_its_one_symbol() {
    let mut im = Im::new(full_stub()).unwrap();
    assert_eq!(im.load_image_sym, addr_of("IupLoadImage"));
    let h = im.load_image("photo.png");
    assert_eq!(h.addr, 0);
    assert_eq!(im.api.calls_of(addr_of("IupLoadImage")), 1);
}

#[test]
fn im_without_its_symbol_fails_naming_it() {
    match Im::new(stub_without("IupLoadImage")) {
        Err(XError::SymbolNotFound(n)) => assert_eq!(n, "IupLoadImage"),
        Err(other) => panic!("expected SymbolNotFound(IupLoadImage), got {:?}", other),
        Ok(_) => panic!("expected SymbolNotFound(IupLoadImage), got a facade"),
    }
}

#[test]
fn im_skips_the_call_on_an_unrepresentable_name() {
    let mut im = Im::new(full_stub()).unwrap();
    let h = im.load_image("pho\0to.png");
    assert_eq!(h.addr, 0);
    assert_eq!(im.api.calls_of(addr_of("IupLoadImage")), 0);
}

#[test]
fn native_text_translation_is_exact() {
    assert_eq!(text_from_native(None), None);
    assert_eq!(text_from_native(Some(b"abc".to_vec())), Some("abc".to_string()));
    assert_eq!(text_from_native(Some(vec![0xff])), None);
    assert_eq!(version_from_native(None), "0.0");
    assert_eq!(version_from_native(Some(b"3.30".to_vec())), "3.30");
    assert_eq!(global_from_native(None), "");
    assert_eq!(global_from_native(Some(b"GTK".to_vec())), "GTK");
}
