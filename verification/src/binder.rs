//! The symbol binder: the fixed, hand-declared table of exported names this
//! layer needs, the capability interface of a loaded native library, and the
//! eager resolution of every name into a [`SymbolTable`].
//!
//! All required symbols are resolved before anything else touches the
//! library, so a missing export surfaces as a single
//! [`XError::SymbolNotFound`] startup failure naming the symbol, and never
//! as a deferred runtime crash. The caller of each resolved symbol must keep
//! the shape it declares (the `call_*` method it uses) in step with the
//! native library's published header; a mismatch is not detectable at
//! resolution time.

use crate::prelude::{Icallback, Ihandle};
use crate::text::CText;
use crate::xerror::{XError, XResult};
use vstd::prelude::*;
use vstd::string::StringExecFns;

verus! {

/// The exported names of the core native library that this layer binds, in
/// resolution order.
pub open spec fn required_names() -> Seq<Seq<char>> {
    seq![
        "IupOpen"@,
        "IupSetGlobal"@,
        "IupAppend"@,
        "IupButton"@,
        "IupClose"@,
        "IupDialog"@,
        "IupGetAttribute"@,
        "IupGetDialog"@,
        "IupGetGlobal"@,
        "IupGetInt"@,
        "IupHbox"@,
        "IupLabel"@,
        "IupMainLoop"@,
        "IupMessage"@,
        "IupSetAttribute"@,
        "IupSetAttributeHandle"@,
        "IupSetCallback"@,
        "IupSetFocus"@,
        "IupSetHandle"@,
        "IupSetInt"@,
        "IupShow"@,
        "IupShowXY"@,
        "IupTimer"@,
        "IupVbox"@,
        "IupVersion"@,
        "IupVersionShow"@,
    ]
}

/// The one exported name this layer binds from the auxiliary image-handling
/// library.
pub open spec fn im_required_name() -> Seq<char> {
    "IupLoadImage"@
}

/// True when a library exports every required name of the core table.
pub open spec fn all_required_present(exports: Map<Seq<char>, usize>) -> bool {
    forall|i: int|
        0 <= i < required_names().len() ==> exports.contains_key(#[trigger] required_names()[i])
}

/// The required names of the core library, as strings, in resolution order.
pub fn required_symbols() -> (r: Vec<String>)
    ensures
        r@.len() == required_names().len(),
        forall|i: int| 0 <= i < r@.len() ==> (#[trigger] r@[i])@ == required_names()[i],
{
    let mut r: Vec<String> = Vec::new();
    r.push(String::from_str("IupOpen"));
    r.push(String::from_str("IupSetGlobal"));
    r.push(String::from_str("IupAppend"));
    r.push(String::from_str("IupButton"));
    r.push(String::from_str("IupClose"));
    r.push(String::from_str("IupDialog"));
    r.push(String::from_str("IupGetAttribute"));
    r.push(String::from_str("IupGetDialog"));
    r.push(String::from_str("IupGetGlobal"));
    r.push(String::from_str("IupGetInt"));
    r.push(String::from_str("IupHbox"));
    r.push(String::from_str("IupLabel"));
    r.push(String::from_str("IupMainLoop"));
    r.push(String::from_str("IupMessage"));
    r.push(String::from_str("IupSetAttribute"));
    r.push(String::from_str("IupSetAttributeHandle"));
    r.push(String::from_str("IupSetCallback"));
    r.push(String::from_str("IupSetFocus"));
    r.push(String::from_str("IupSetHandle"));
    r.push(String::from_str("IupSetInt"));
    r.push(String::from_str("IupShow"));
    r.push(String::from_str("IupShowXY"));
    r.push(String::from_str("IupTimer"));
    r.push(String::from_str("IupVbox"));
    r.push(String::from_str("IupVersion"));
    r.push(String::from_str("IupVersionShow"));
    r
}

/// One native invocation, as the ghost call log of a [`NativeLibrary`]
/// records it: which symbol was invoked, with which arguments (texts as the
/// exact bytes handed over, terminator included), and what came back. One
/// variant per call shape, named after its `call_*` method.
pub enum NativeCall {
    /// `call_open`: the initialization entry point, two null arguments.
    Open { sym: usize, code: i32 },
    /// `call_v_i`.
    Vi { sym: usize, code: i32 },
    /// `call_v_v`.
    Vv { sym: usize },
    /// `call_v_h`.
    Vh { sym: usize, out: Ihandle },
    /// `call_v_c`.
    Vc { sym: usize, out: Option<Seq<u8>> },
    /// `call_c_h`.
    Ch { sym: usize, a: Seq<u8>, out: Ihandle },
    /// `call_c_c`.
    Cc { sym: usize, a: Seq<u8>, out: Option<Seq<u8>> },
    /// `call_cc_h`.
    CcH { sym: usize, a: Seq<u8>, b: Seq<u8>, out: Ihandle },
    /// `call_cc_v`.
    CcV { sym: usize, a: Seq<u8>, b: Seq<u8> },
    /// `call_ch_h`.
    ChH { sym: usize, a: Seq<u8>, h: Ihandle, out: Ihandle },
    /// `call_h_h`.
    Hh { sym: usize, h: Ihandle, out: Ihandle },
    /// `call_h_i`.
    Hi { sym: usize, h: Ihandle, code: i32 },
    /// `call_list_h`.
    ListH { sym: usize, first: Ihandle, out: Ihandle },
    /// `call_hh_h`.
    HhH { sym: usize, parent: Ihandle, child: Ihandle, out: Ihandle },
    /// `call_hc_c`.
    HcC { sym: usize, h: Ihandle, a: Seq<u8>, out: Option<Seq<u8>> },
    /// `call_hc_h`.
    HcH { sym: usize, h: Ihandle, a: Seq<u8>, out: Ihandle },
    /// `call_hc_i`.
    HcI { sym: usize, h: Ihandle, a: Seq<u8>, code: i32 },
    /// `call_hcc_v`.
    HccV { sym: usize, h: Ihandle, a: Seq<u8>, b: Seq<u8> },
    /// `call_hch_v`.
    HchV { sym: usize, h: Ihandle, a: Seq<u8>, named: Ihandle },
    /// `call_hci_v`.
    HciV { sym: usize, h: Ihandle, a: Seq<u8>, v: i32 },
    /// `call_hck_k`.
    HckK { sym: usize, h: Ihandle, a: Seq<u8>, cb: Icallback, out: Icallback },
    /// `call_hii_i`.
    HiiI { sym: usize, h: Ihandle, x: i32, y: i32, code: i32 },
}

/// The capability interface of one loaded native library: resolving an
/// exported name to a symbol address, and invoking a resolved symbol under
/// each argument shape this layer uses. A production implementation binds to
/// the operating system's loader; an in-memory stub serves the same
/// interface for testing without a native library present.
///
/// Nothing is promised of the values a native call returns; the caller
/// states what holds of every outcome. Each call promises two things: the
/// export table is unchanged, and exactly one record of that call - symbol,
/// arguments, result - is appended to the ghost call log, so a caller's
/// contract can say which native functions it invokes, how often, and with
/// what.
pub trait NativeLibrary {
    /// The library's export table: each exported name and its address. An
    /// implementation overrides this with its own model; one written outside
    /// the verified world inherits the default and promises nothing.
    open spec fn exports(&self) -> Map<Seq<char>, usize> {
        Map::empty()
    }

    /// The ghost log of every native invocation made through this library,
    /// in call order. An implementation overrides this with its own model;
    /// one written outside the verified world inherits the default and
    /// promises nothing.
    open spec fn calls(&self) -> Seq<NativeCall> {
        Seq::empty()
    }

    /// Looks up a symbol by exact name: its address when the name is
    /// exported, nothing otherwise.
    fn resolve(&self, name: &str) -> (r: Option<usize>)
        ensures
            r matches Some(a) ==> self.exports().contains_key(name@) && a
                == self.exports().index(name@),
            r is None ==> !self.exports().contains_key(name@),
    ;

    /// Calls the initialization entry point (two null pointer arguments,
    /// returns a status code).
    fn call_open(&mut self, sym: usize) -> (code: i32)
        ensures
            final(self).exports() == old(self).exports(),
            final(self).calls() == old(self).calls().push((NativeCall::Open { sym, code })),
    ;

    /// Calls a symbol of shape `fn() -> int`.
    fn call_v_i(&mut self, sym: usize) -> (code: i32)
        ensures
            final(self).exports() == old(self).exports(),
            final(self).calls() == old(self).calls().push((NativeCall::Vi { sym, code })),
    ;

    /// Calls a symbol of shape `fn()`.
    fn call_v_v(&mut self, sym: usize)
        ensures
            final(self).exports() == old(self).exports(),
            final(self).calls() == old(self).calls().push((NativeCall::Vv { sym })),
    ;

    /// Calls a symbol of shape `fn() -> handle`.
    fn call_v_h(&mut self, sym: usize) -> (h: Ihandle)
        ensures
            final(self).exports() == old(self).exports(),
            final(self).calls() == old(self).calls().push((NativeCall::Vh { sym, out: h })),
    ;

    /// Calls a symbol of shape `fn() -> c-string`; the result is the bytes
    /// of the returned string up to its terminator, or nothing for a null
    /// result.
    fn call_v_c(&mut self, sym: usize) -> (r: Option<Vec<u8>>)
        ensures
            final(self).exports() == old(self).exports(),
            final(self).calls() == old(self).calls().push(
                (NativeCall::Vc { sym, out: r.deep_view() }),
            ),
    ;

    /// Calls a symbol of shape `fn(c-string) -> handle`.
    fn call_c_h(&mut self, sym: usize, a: &CText) -> (h: Ihandle)
        requires
            a.wf(),
        ensures
            final(self).exports() == old(self).exports(),
            final(self).calls() == old(self).calls().push(
                (NativeCall::Ch { sym, a: a.bytes@, out: h }),
            ),
    ;

    /// Calls a symbol of shape `fn(c-string) -> c-string`.
    fn call_c_c(&mut self, sym: usize, a: &CText) -> (r: Option<Vec<u8>>)
        requires
            a.wf(),
        ensures
            final(self).exports() == old(self).exports(),
            final(self).calls() == old(self).calls().push(
                (NativeCall::Cc { sym, a: a.bytes@, out: r.deep_view() }),
            ),
    ;

    /// Calls a symbol of shape `fn(c-string, c-string) -> handle`.
    fn call_cc_h(&mut self, sym: usize, a: &CText, b: &CText) -> (h: Ihandle)
        requires
            a.wf(),
            b.wf(),
        ensures
            final(self).exports() == old(self).exports(),
            final(self).calls() == old(self).calls().push(
                (NativeCall::CcH { sym, a: a.bytes@, b: b.bytes@, out: h }),
            ),
    ;

    /// Calls a symbol of shape `fn(c-string, c-string)`.
    fn call_cc_v(&mut self, sym: usize, a: &CText, b: &CText)
        requires
            a.wf(),
            b.wf(),
        ensures
            final(self).exports() == old(self).exports(),
            final(self).calls() == old(self).calls().push(
                (NativeCall::CcV { sym, a: a.bytes@, b: b.bytes@ }),
            ),
    ;

    /// Calls a symbol of shape `fn(c-string, handle) -> handle`.
    fn call_ch_h(&mut self, sym: usize, a: &CText, h: Ihandle) -> (r: Ihandle)
        requires
            a.wf(),
        ensures
            final(self).exports() == old(self).exports(),
            final(self).calls() == old(self).calls().push(
                (NativeCall::ChH { sym, a: a.bytes@, h, out: r }),
            ),
    ;

    /// Calls a symbol of shape `fn(handle) -> handle`.
    fn call_h_h(&mut self, sym: usize, h: Ihandle) -> (r: Ihandle)
        ensures
            final(self).exports() == old(self).exports(),
            final(self).calls() == old(self).calls().push((NativeCall::Hh { sym, h, out: r })),
    ;

    /// Calls a symbol of shape `fn(handle) -> int`.
    fn call_h_i(&mut self, sym: usize, h: Ihandle) -> (code: i32)
        ensures
            final(self).exports() == old(self).exports(),
            final(self).calls() == old(self).calls().push((NativeCall::Hi { sym, h, code })),
    ;

    /// Calls a variadic child-list constructor (`fn(handle, ...) -> handle`)
    /// with the single given handle as its whole argument list.
    fn call_list_h(&mut self, sym: usize, first: Ihandle) -> (r: Ihandle)
        ensures
            final(self).exports() == old(self).exports(),
            final(self).calls() == old(self).calls().push(
                (NativeCall::ListH { sym, first, out: r }),
            ),
    ;

    /// Calls a symbol of shape `fn(handle, handle) -> handle`.
    fn call_hh_h(&mut self, sym: usize, a: Ihandle, b: Ihandle) -> (r: Ihandle)
        ensures
            final(self).exports() == old(self).exports(),
            final(self).calls() == old(self).calls().push(
                (NativeCall::HhH { sym, parent: a, child: b, out: r }),
            ),
    ;

    /// Calls a symbol of shape `fn(handle, c-string) -> c-string`.
    fn call_hc_c(&mut self, sym: usize, h: Ihandle, a: &CText) -> (r: Option<Vec<u8>>)
        requires
            a.wf(),
        ensures
            final(self).exports() == old(self).exports(),
            final(self).calls() == old(self).calls().push(
                (NativeCall::HcC { sym, h, a: a.bytes@, out: r.deep_view() }),
            ),
    ;

    /// Calls a symbol of shape `fn(handle, c-string) -> handle`.
    fn call_hc_h(&mut self, sym: usize, h: Ihandle, a: &CText) -> (r: Ihandle)
        requires
            a.wf(),
        ensures
            final(self).exports() == old(self).exports(),
            final(self).calls() == old(self).calls().push(
                (NativeCall::HcH { sym, h, a: a.bytes@, out: r }),
            ),
    ;

    /// Calls a symbol of shape `fn(handle, c-string) -> int`.
    fn call_hc_i(&mut self, sym: usize, h: Ihandle, a: &CText) -> (r: i32)
        requires
            a.wf(),
        ensures
            final(self).exports() == old(self).exports(),
            final(self).calls() == old(self).calls().push(
                (NativeCall::HcI { sym, h, a: a.bytes@, code: r }),
            ),
    ;

    /// Calls a symbol of shape `fn(handle, c-string, c-string)`.
    fn call_hcc_v(&mut self, sym: usize, h: Ihandle, a: &CText, b: &CText)
        requires
            a.wf(),
            b.wf(),
        ensures
            final(self).exports() == old(self).exports(),
            final(self).calls() == old(self).calls().push(
                (NativeCall::HccV { sym, h, a: a.bytes@, b: b.bytes@ }),
            ),
    ;

    /// Calls a symbol of shape `fn(handle, c-string, handle)`.
    fn call_hch_v(&mut self, sym: usize, h: Ihandle, a: &CText, b: Ihandle)
        requires
            a.wf(),
        ensures
            final(self).exports() == old(self).exports(),
            final(self).calls() == old(self).calls().push(
                (NativeCall::HchV { sym, h, a: a.bytes@, named: b }),
            ),
    ;

    /// Calls a symbol of shape `fn(handle, c-string, int)`.
    fn call_hci_v(&mut self, sym: usize, h: Ihandle, a: &CText, v: i32)
        requires
            a.wf(),
        ensures
            final(self).exports() == old(self).exports(),
            final(self).calls() == old(self).calls().push(
                (NativeCall::HciV { sym, h, a: a.bytes@, v }),
            ),
    ;

    /// Calls a symbol of shape `fn(handle, c-string, callback) -> callback`.
    fn call_hck_k(&mut self, sym: usize, h: Ihandle, a: &CText, cb: Icallback) -> (r: Icallback)
        requires
            a.wf(),
        ensures
            final(self).exports() == old(self).exports(),
            final(self).calls() == old(self).calls().push(
                (NativeCall::HckK { sym, h, a: a.bytes@, cb, out: r }),
            ),
    ;

    /// Calls a symbol of shape `fn(handle, int, int) -> int`.
    fn call_hii_i(&mut self, sym: usize, h: Ihandle, x: i32, y: i32) -> (code: i32)
        ensures
            final(self).exports() == old(self).exports(),
            final(self).calls() == old(self).calls().push(
                (NativeCall::HiiI { sym, h, x, y, code }),
            ),
    ;
}

/// The resolved addresses of every required symbol of the core library: an
/// immutable binding created once during initialization. An instance exists
/// only if every name resolved successfully.
#[derive(Debug)]
pub struct SymbolTable {
    pub open: usize,
    pub set_global: usize,
    pub append: usize,
    pub button: usize,
    pub close: usize,
    pub dialog: usize,
    pub get_attribute: usize,
    pub get_dialog: usize,
    pub get_global: usize,
    pub get_int: usize,
    pub hbox: usize,
    pub label: usize,
    pub main_loop: usize,
    pub message: usize,
    pub set_attribute: usize,
    pub set_attribute_handle: usize,
    pub set_callback: usize,
    pub set_focus: usize,
    pub set_handle: usize,
    pub set_int: usize,
    pub show: usize,
    pub show_xy: usize,
    pub timer: usize,
    pub vbox: usize,
    pub version: usize,
    pub version_show: usize,
}

impl SymbolTable {
    /// Every field holds the address the export table gives its name.
    pub open spec fn resolved_from(&self, exports: Map<Seq<char>, usize>) -> bool {
        &&& self.open == exports["IupOpen"@]
        &&& self.set_global == exports["IupSetGlobal"@]
        &&& self.append == exports["IupAppend"@]
        &&& self.button == exports["IupButton"@]
        &&& self.close == exports["IupClose"@]
        &&& self.dialog == exports["IupDialog"@]
        &&& self.get_attribute == exports["IupGetAttribute"@]
        &&& self.get_dialog == exports["IupGetDialog"@]
        &&& self.get_global == exports["IupGetGlobal"@]
        &&& self.get_int == exports["IupGetInt"@]
        &&& self.hbox == exports["IupHbox"@]
        &&& self.label == exports["IupLabel"@]
        &&& self.main_loop == exports["IupMainLoop"@]
        &&& self.message == exports["IupMessage"@]
        &&& self.set_attribute == exports["IupSetAttribute"@]
        &&& self.set_attribute_handle == exports["IupSetAttributeHandle"@]
        &&& self.set_callback == exports["IupSetCallback"@]
        &&& self.set_focus == exports["IupSetFocus"@]
        &&& self.set_handle == exports["IupSetHandle"@]
        &&& self.set_int == exports["IupSetInt"@]
        &&& self.show == exports["IupShow"@]
        &&& self.show_xy == exports["IupShowXY"@]
        &&& self.timer == exports["IupTimer"@]
        &&& self.vbox == exports["IupVbox"@]
        &&& self.version == exports["IupVersion"@]
        &&& self.version_show == exports["IupVersionShow"@]
    }
}

/// Resolves every required name of the core library, eagerly and in order.
/// Succeeds exactly when the library exports them all; otherwise fails with
/// [`XError::SymbolNotFound`] naming a required symbol the library lacks,
/// and no table exists.
pub fn bind<L: NativeLibrary>(lib: &L) -> (r: XResult<SymbolTable>)
    ensures
        r is Ok <==> all_required_present(lib.exports()),
        r matches Ok(t) ==> t.resolved_from(lib.exports()),
        r matches Err(e) ==> (e matches XError::SymbolNotFound(n)
            && required_names().contains(n@) && !lib.exports().contains_key(n@)),
{
    let names = required_symbols();
    let mut addrs: Vec<usize> = Vec::new();
    let mut i: usize = 0;
    while i < names.len()
        invariant
            names@.len() == required_names().len(),
            forall|j: int| 0 <= j < names@.len() ==> (#[trigger] names@[j])@ == required_names()[j],
            0 <= i <= names@.len(),
            addrs@.len() == i,
            forall|j: int|
                0 <= j < i ==> lib.exports().contains_key(#[trigger] required_names()[j])
                    && addrs@[j] == lib.exports()[required_names()[j]],
        decreases names@.len() - i,
    {
        match lib.resolve(names[i].as_str()) {
            Some(a) => {
                addrs.push(a);
            },
            None => {
                proof {
                    assert(required_names().contains(required_names()[i as int]));
                }
                return Err(XError::SymbolNotFound(names[i].clone()));
            },
        }
        i += 1;
    }
    let t = SymbolTable {
        open: addrs[0],
        set_global: addrs[1],
        append: addrs[2],
        button: addrs[3],
        close: addrs[4],
        dialog: addrs[5],
        get_attribute: addrs[6],
        get_dialog: addrs[7],
        get_global: addrs[8],
        get_int: addrs[9],
        hbox: addrs[10],
        label: addrs[11],
        main_loop: addrs[12],
        message: addrs[13],
        set_attribute: addrs[14],
        set_attribute_handle: addrs[15],
        set_callback: addrs[16],
        set_focus: addrs[17],
        set_handle: addrs[18],
        set_int: addrs[19],
        show: addrs[20],
        show_xy: addrs[21],
        timer: addrs[22],
        vbox: addrs[23],
        version: addrs[24],
        version_show: addrs[25],
    };
    Ok(t)
}

/// Resolves the auxiliary image-handling library's one required symbol.
/// Succeeds exactly when the library exports it; otherwise fails with
/// [`XError::SymbolNotFound`] naming it.
pub fn bind_im<L: NativeLibrary>(lib: &L) -> (r: XResult<usize>)
    ensures
        r is Ok <==> lib.exports().contains_key(im_required_name()),
        r matches Ok(a) ==> a == lib.exports()[im_required_name()],
        r matches Err(e) ==> (e matches XError::SymbolNotFound(n) && n@ == im_required_name()),
{
    match lib.resolve("IupLoadImage") {
        Some(a) => Ok(a),
        None => Err(XError::SymbolNotFound(String::from_str("IupLoadImage"))),
    }
}

} // verus!
