//! The facade: one typed handle over the bound native functions. It marshals
//! text to and from the native string representation, translates sentinel
//! integer return codes, passes opaque native handles through unchanged, and
//! owns the one-time "open" and at-most-once "close" lifecycle calls.
//!
//! Construction resolves every required symbol first, then calls the native
//! initialization entry point, checks its sentinel, and sets the mandatory
//! text-encoding mode - so a missing export surfaces before the native
//! library is ever entered, and no partially constructed facade exists.
//!
//! Text that cannot be converted on an individual call after successful
//! initialization is recoverable: the caller receives nothing (or an empty
//! value, or the null handle) rather than a crash.

use crate::binder::{all_required_present, bind, bind_im, im_required_name, required_names,
    NativeCall, NativeLibrary, SymbolTable};
use crate::prelude::{Icallback, Ihandle, NOERROR};
use crate::text::{c_from_str, c_to_string, native_bytes, CText};
use crate::xerror::{xerror, XError, XResult};
use vstd::prelude::*;
use vstd::string::StringExecFns;
use vstd::utf8::{decode_utf8, valid_utf8};

verus! {

/// Translates a native status code: true exactly for the one success
/// sentinel ([`NOERROR`]); every other value is failure.
pub fn status_ok(code: i32) -> (r: bool)
    ensures
        r == (code == NOERROR),
{
    code == NOERROR
}

/// Translates the bytes a string-returning native call handed back: the
/// decoded text, or nothing when the call returned null or bytes that are
/// not valid UTF-8.
pub fn text_from_native(raw: Option<Vec<u8>>) -> (r: Option<String>)
    ensures
        r is Some <==> (raw matches Some(b) && valid_utf8(b@)),
        r matches Some(t) ==> (raw matches Some(b) && t@ == decode_utf8(b@)),
{
    match raw {
        Some(b) => match c_to_string(b) {
            Ok(t) => Some(t),
            Err(_) => None,
        },
        None => None,
    }
}

/// Translates the bytes a native version query handed back: the decoded
/// text, or the fixed fallback "0.0" when the call returned null or bytes
/// that are not valid UTF-8.
pub fn version_from_native(raw: Option<Vec<u8>>) -> (r: String)
    ensures
        raw is None ==> r@ == "0.0"@,
        raw matches Some(b) ==> (if valid_utf8(b@) {
            r@ == decode_utf8(b@)
        } else {
            r@ == "0.0"@
        }),
{
    match text_from_native(raw) {
        Some(t) => t,
        None => String::from_str("0.0"),
    }
}

/// Translates the bytes a native global-attribute query handed back: the
/// decoded text, or the empty text when the call returned null or bytes that
/// are not valid UTF-8.
pub fn global_from_native(raw: Option<Vec<u8>>) -> (r: String)
    ensures
        raw is None ==> r@ == Seq::<char>::empty(),
        raw matches Some(b) ==> (if valid_utf8(b@) {
            r@ == decode_utf8(b@)
        } else {
            r@ == Seq::<char>::empty()
        }),
{
    match text_from_native(raw) {
        Some(t) => t,
        None => String::new(),
    }
}

/// How the facade reports the text a native call handed back: the decoded
/// text exactly when the reply is present and valid UTF-8, nothing
/// otherwise.
pub open spec fn decodes_reply(raw: Option<Seq<u8>>, text: Option<Seq<char>>) -> bool {
    match raw {
        Some(b) => if valid_utf8(b) {
            text == Some(decode_utf8(b))
        } else {
            text is None
        },
        None => text is None,
    }
}

/// As [`decodes_reply`], but an absent or undecodable reply becomes the
/// given fallback text instead of nothing.
pub open spec fn decodes_with_default(
    raw: Option<Seq<u8>>,
    text: Seq<char>,
    fallback: Seq<char>,
) -> bool {
    match raw {
        Some(b) => if valid_utf8(b) {
            text == decode_utf8(b)
        } else {
            text == fallback
        },
        None => text == fallback,
    }
}

/// The fixed strings of the mandatory text-encoding configuration hold no
/// NUL character, so encoding them always succeeds.
proof fn lemma_encoding_mode_literals()
    ensures
        !"UTF8MODE"@.contains('\0'),
        !"YES"@.contains('\0'),
{
    reveal_strlit("UTF8MODE");
    reveal_strlit("YES");
    assert(forall|i: int| 0 <= i < "UTF8MODE"@.len() ==> "UTF8MODE"@[i] != '\0') by {
        assert("UTF8MODE"@[0] == 'U');
        assert("UTF8MODE"@[1] == 'T');
        assert("UTF8MODE"@[2] == 'F');
        assert("UTF8MODE"@[3] == '8');
        assert("UTF8MODE"@[4] == 'M');
        assert("UTF8MODE"@[5] == 'O');
        assert("UTF8MODE"@[6] == 'D');
        assert("UTF8MODE"@[7] == 'E');
    }
    assert(forall|i: int| 0 <= i < "YES"@.len() ==> "YES"@[i] != '\0') by {
        assert("YES"@[0] == 'Y');
        assert("YES"@[1] == 'E');
        assert("YES"@[2] == 'S');
    }
}

/// Encodes a text that is expected to hold no NUL character (an attribute
/// name, a fixed mode string); hands back the empty native string for a text
/// that cannot be represented, so the result is always well-formed.
fn ctext_or_empty(s: &str) -> (r: CText)
    ensures
        r.wf(),
        !s@.contains('\0') ==> r.payload() == vstd::utf8::encode_utf8(s@),
        !s@.contains('\0') ==> r.bytes@ == native_bytes(s@),
{
    match c_from_str(s) {
        Ok(c) => c,
        Err(_) => CText { bytes: vec![0u8] },
    }
}

/// The process-wide facade over the core native library: the bound symbol
/// table, the library capability it was bound from, and whether the one
/// teardown call has been made.
pub struct Iup<A: NativeLibrary> {
    /// The library the facade calls through.
    pub api: A,
    /// The addresses of every bound symbol.
    pub syms: SymbolTable,
    /// True once [`Iup::close`] has performed the native teardown.
    pub closed: bool,
}

impl<A: NativeLibrary> Iup<A> {
    /// True once the facade has been shut down; no other method may be
    /// called then.
    pub open spec fn is_closed(&self) -> bool {
        self.closed
    }

    /// What no facade call ever changes: the bound symbol table, the
    /// library's export table, and (for all but [`Iup::close`]) whether the
    /// facade is closed.
    pub open spec fn same_binding(pre: Self, post: Self) -> bool {
        &&& post.syms == pre.syms
        &&& post.closed == pre.closed
        &&& post.api.exports() == pre.api.exports()
    }

    /// The facade method made exactly the one given native call: the ghost
    /// call log grows by exactly that record.
    pub open spec fn calls_one(pre: Self, post: Self, call: NativeCall) -> bool {
        post.api.calls() == pre.api.calls().push(call)
    }

    /// The facade method made no native call: the ghost call log is as it
    /// was.
    pub open spec fn calls_none(pre: Self, post: Self) -> bool {
        post.api.calls() == pre.api.calls()
    }

    /// The facade method made exactly one native call; its record is the
    /// log's last entry.
    pub open spec fn one_call_appended(pre: Self, post: Self) -> bool {
        &&& post.api.calls().len() == pre.api.calls().len() + 1
        &&& post.api.calls().drop_last() == pre.api.calls()
    }

    /// Builds the facade: resolves every required symbol eagerly, then calls
    /// the native initialization entry point and checks its success
    /// sentinel, then sets the mandatory text-encoding mode. A missing
    /// symbol fails with [`XError::SymbolNotFound`] naming it, before any
    /// native call; a failure sentinel from initialization fails with
    /// [`XError::InitializationFailed`]. No partially constructed facade
    /// exists either way.
    pub fn new(api: A) -> (r: XResult<Iup<A>>)
        ensures
            !all_required_present(api.exports()) ==> (r matches Err(e)
                && e matches XError::SymbolNotFound(n) && required_names().contains(n@)
                && !api.exports().contains_key(n@)),
            r matches Ok(iup) ==> all_required_present(api.exports())
                && iup.syms.resolved_from(api.exports()) && !iup.is_closed()
                && iup.api.exports() == api.exports(),
            r matches Err(e) ==> (e matches XError::SymbolNotFound(_)
                || e matches XError::InitializationFailed(_)),
            r matches Err(e) ==> (e matches XError::SymbolNotFound(n)
                ==> required_names().contains(n@) && !api.exports().contains_key(n@)),
            (r matches Err(e) && e matches XError::InitializationFailed(_))
                ==> all_required_present(api.exports()),
            r matches Ok(iup) ==> iup.api.calls() == api.calls().push(
                (NativeCall::Open { sym: api.exports().index("IupOpen"@), code: NOERROR }),
            ).push(
                (NativeCall::CcV {
                    sym: api.exports().index("IupSetGlobal"@),
                    a: native_bytes("UTF8MODE"@),
                    b: native_bytes("YES"@),
                }),
            ),
    {
        let mut api = api;
        let syms = match bind(&api) {
            Ok(t) => t,
            Err(e) => {
                return Err(e);
            },
        };
        let code = api.call_open(syms.open);
        if code != NOERROR {
            return xerror("the native initialization entry point reported failure");
        }
        proof {
            lemma_encoding_mode_literals();
        }
        let mode = ctext_or_empty("UTF8MODE");
        let yes = ctext_or_empty("YES");
        api.call_cc_v(syms.set_global, &mode, &yes);
        Ok(Iup { api, syms, closed: false })
    }

    /// Appends a child to a container widget; hands back what the native
    /// call returned (the container, or the null handle on failure).
    pub fn append(&mut self, ih: Ihandle, child: Ihandle) -> (r: Ihandle)
        requires
            !old(self).is_closed(),
        ensures
            Self::same_binding(*old(self), *final(self)),
            Self::calls_one(
                *old(self),
                *final(self),
                (NativeCall::HhH { sym: old(self).syms.append, parent: ih, child, out: r }),
            ),
    {
        let sym = self.syms.append;
        self.api.call_hh_h(sym, ih, child)
    }

    /// Creates a button with the given title and action name; the null
    /// handle when either text cannot be represented natively.
    pub fn button(&mut self, title: &str, action: &str) -> (r: Ihandle)
        requires
            !old(self).is_closed(),
        ensures
            Self::same_binding(*old(self), *final(self)),
            (title@.contains('\0') || action@.contains('\0')) ==> (r.addr == 0
                && Self::calls_none(*old(self), *final(self))),
            (!title@.contains('\0') && !action@.contains('\0')) ==> Self::calls_one(
                *old(self),
                *final(self),
                (NativeCall::CcH {
                    sym: old(self).syms.button,
                    a: native_bytes(title@),
                    b: native_bytes(action@),
                    out: r,
                }),
            ),
    {
        let t = match c_from_str(title) {
            Ok(c) => c,
            Err(_) => {
                return Ihandle { addr: 0 };
            },
        };
        let a = match c_from_str(action) {
            Ok(c) => c,
            Err(_) => {
                return Ihandle { addr: 0 };
            },
        };
        let sym = self.syms.button;
        self.api.call_cc_h(sym, &t, &a)
    }

    /// Performs the one native teardown call, the first time only: true when
    /// this call performed it, false when the facade was already closed and
    /// nothing was done. After the first call every other method is off
    /// limits.
    pub fn close(&mut self) -> (performed: bool)
        ensures
            performed == !old(self).is_closed(),
            final(self).is_closed(),
            final(self).syms == old(self).syms,
            final(self).api.exports() == old(self).api.exports(),
            performed ==> Self::calls_one(
                *old(self),
                *final(self),
                (NativeCall::Vv { sym: old(self).syms.close }),
            ),
            !performed ==> Self::calls_none(*old(self), *final(self)),
    {
        if self.closed {
            false
        } else {
            let sym = self.syms.close;
            self.api.call_v_v(sym);
            self.closed = true;
            true
        }
    }

    /// Creates a dialog holding the given child widget.
    pub fn dialog(&mut self, child: Ihandle) -> (r: Ihandle)
        requires
            !old(self).is_closed(),
        ensures
            Self::same_binding(*old(self), *final(self)),
            Self::calls_one(
                *old(self),
                *final(self),
                (NativeCall::Hh { sym: old(self).syms.dialog, h: child, out: r }),
            ),
    {
        let sym = self.syms.dialog;
        self.api.call_h_h(sym, child)
    }

    /// Reads a widget attribute as text: the decoded value, or nothing when
    /// the name cannot be represented natively, the native call returned
    /// null, or the returned bytes are not valid UTF-8.
    pub fn get_attribute(&mut self, ih: Ihandle, name: &str) -> (r: Option<String>)
        requires
            !old(self).is_closed(),
        ensures
            Self::same_binding(*old(self), *final(self)),
            name@.contains('\0') ==> (r is None && Self::calls_none(*old(self), *final(self))),
            !name@.contains('\0') ==> (Self::one_call_appended(*old(self), *final(self)) && (final(self).api.calls().last() matches NativeCall::HcC { sym, h, a, out } && sym == old(self).syms.get_attribute && h == ih && a == native_bytes(name@) && decodes_reply(
                out,
                r.deep_view(),
            ))),
    {
        let n = match c_from_str(name) {
            Ok(c) => c,
            Err(_) => {
                return None;
            },
        };
        let sym = self.syms.get_attribute;
        let raw = self.api.call_hc_c(sym, ih, &n);
        let ghost rawg = raw;
        let r = text_from_native(raw);
        proof {
            assert(self.api.calls().drop_last() =~= old(self).api.calls());
            match rawg {
                Some(b) => {
                    assert(rawg.deep_view() == Some(b@));
                },
                None => {},
            }
        }
        r
    }

    /// Finds the dialog child of the given name below a widget; the null
    /// handle when the name cannot be represented natively.
    pub fn get_dialog_child(&mut self, ih: Ihandle, name: &str) -> (r: Ihandle)
        requires
            !old(self).is_closed(),
        ensures
            Self::same_binding(*old(self), *final(self)),
            name@.contains('\0') ==> (r.addr == 0 && Self::calls_none(*old(self), *final(self))),
            !name@.contains('\0') ==> Self::calls_one(
                *old(self),
                *final(self),
                (NativeCall::HcH {
                    sym: old(self).syms.get_dialog,
                    h: ih,
                    a: native_bytes(name@),
                    out: r,
                }),
            ),
    {
        let n = match c_from_str(name) {
            Ok(c) => c,
            Err(_) => {
                return Ihandle { addr: 0 };
            },
        };
        let sym = self.syms.get_dialog;
        self.api.call_hc_h(sym, ih, &n)
    }

    /// Reads a global attribute as text: the decoded value, or the empty
    /// text when the name cannot be represented natively, the native call
    /// returned null, or the returned bytes are not valid UTF-8.
    pub fn get_global(&mut self, name: &str) -> (r: String)
        requires
            !old(self).is_closed(),
        ensures
            Self::same_binding(*old(self), *final(self)),
            name@.contains('\0') ==> (r@ == Seq::<char>::empty() && Self::calls_none(
                *old(self),
                *final(self),
            )),
            !name@.contains('\0') ==> (Self::one_call_appended(*old(self), *final(self)) && (final(self).api.calls().last() matches NativeCall::Cc { sym, a, out } && sym == old(self).syms.get_global && a == native_bytes(name@) && decodes_with_default(
                out,
                r@,
                Seq::<char>::empty(),
            ))),
    {
        let n = match c_from_str(name) {
            Ok(c) => c,
            Err(_) => {
                return String::new();
            },
        };
        let sym = self.syms.get_global;
        let raw = self.api.call_c_c(sym, &n);
        let ghost rawg = raw;
        let r = global_from_native(raw);
        proof {
            assert(self.api.calls().drop_last() =~= old(self).api.calls());
            match rawg {
                Some(b) => {
                    assert(rawg.deep_view() == Some(b@));
                },
                None => {},
            }
        }
        r
    }

    /// Reads a widget attribute as a handle; the null handle when the name
    /// cannot be represented natively.
    pub fn get_ih(&mut self, ih: Ihandle, name: &str) -> (r: Ihandle)
        requires
            !old(self).is_closed(),
        ensures
            Self::same_binding(*old(self), *final(self)),
            name@.contains('\0') ==> (r.addr == 0 && Self::calls_none(*old(self), *final(self))),
            !name@.contains('\0') ==> Self::calls_one(
                *old(self),
                *final(self),
                (NativeCall::HcH {
                    sym: old(self).syms.get_attribute,
                    h: ih,
                    a: native_bytes(name@),
                    out: r,
                }),
            ),
    {
        let n = match c_from_str(name) {
            Ok(c) => c,
            Err(_) => {
                return Ihandle { addr: 0 };
            },
        };
        let sym = self.syms.get_attribute;
        self.api.call_hc_h(sym, ih, &n)
    }

    /// Reads a widget attribute as an integer; 0 when the name cannot be
    /// represented natively.
    pub fn get_int(&mut self, ih: Ihandle, name: &str) -> (r: i32)
        requires
            !old(self).is_closed(),
        ensures
            Self::same_binding(*old(self), *final(self)),
            name@.contains('\0') ==> (r == 0 && Self::calls_none(*old(self), *final(self))),
            !name@.contains('\0') ==> Self::calls_one(
                *old(self),
                *final(self),
                (NativeCall::HcI {
                    sym: old(self).syms.get_int,
                    h: ih,
                    a: native_bytes(name@),
                    code: r,
                }),
            ),
    {
        let n = match c_from_str(name) {
            Ok(c) => c,
            Err(_) => {
                return 0;
            },
        };
        let sym = self.syms.get_int;
        self.api.call_hc_i(sym, ih, &n)
    }

    /// Creates an empty horizontal box.
    pub fn hbox(&mut self) -> (r: Ihandle)
        requires
            !old(self).is_closed(),
        ensures
            Self::same_binding(*old(self), *final(self)),
            Self::calls_one(
                *old(self),
                *final(self),
                (NativeCall::ListH {
                    sym: old(self).syms.hbox,
                    first: (Ihandle { addr: 0 }),
                    out: r,
                }),
            ),
    {
        let sym = self.syms.hbox;
        let null = self.null_ihandle();
        self.api.call_list_h(sym, null)
    }

    /// Creates a label with the given title; the null handle when the title
    /// cannot be represented natively.
    pub fn label(&mut self, title: &str) -> (r: Ihandle)
        requires
            !old(self).is_closed(),
        ensures
            Self::same_binding(*old(self), *final(self)),
            title@.contains('\0') ==> (r.addr == 0 && Self::calls_none(*old(self), *final(self))),
            !title@.contains('\0') ==> Self::calls_one(
                *old(self),
                *final(self),
                (NativeCall::Ch { sym: old(self).syms.label, a: native_bytes(title@), out: r }),
            ),
    {
        let t = match c_from_str(title) {
            Ok(c) => c,
            Err(_) => {
                return Ihandle { addr: 0 };
            },
        };
        let sym = self.syms.label;
        self.api.call_c_h(sym, &t)
    }

    /// Runs the native event loop, blocking the calling thread until the
    /// native library signals completion. To be called once per session.
    pub fn main_loop(&mut self)
        requires
            !old(self).is_closed(),
        ensures
            Self::same_binding(*old(self), *final(self)),
            Self::one_call_appended(*old(self), *final(self)),
            (final(self).api.calls().last() matches NativeCall::Vi { sym, code } && sym == old(self).syms.main_loop),
    {
        let sym = self.syms.main_loop;
        let _ = self.api.call_v_i(sym);
        proof {
            assert(self.api.calls().drop_last() =~= old(self).api.calls());
        }
    }

    /// Shows a message dialog with the given title and text; does nothing
    /// when either cannot be represented natively.
    pub fn message(&mut self, title: &str, message: &str)
        requires
            !old(self).is_closed(),
        ensures
            Self::same_binding(*old(self), *final(self)),
            (title@.contains('\0') || message@.contains('\0')) ==> Self::calls_none(
                *old(self),
                *final(self),
            ),
            (!title@.contains('\0') && !message@.contains('\0')) ==> Self::calls_one(
                *old(self),
                *final(self),
                (NativeCall::CcV {
                    sym: old(self).syms.message,
                    a: native_bytes(title@),
                    b: native_bytes(message@),
                }),
            ),
    {
        let t = match c_from_str(title) {
            Ok(c) => c,
            Err(_) => {
                return;
            },
        };
        let m = match c_from_str(message) {
            Ok(c) => c,
            Err(_) => {
                return;
            },
        };
        let sym = self.syms.message;
        self.api.call_cc_v(sym, &t, &m);
    }

    /// The "no handle" value.
    pub fn null_ihandle(&self) -> (r: Ihandle)
        ensures
            r.addr == 0,
    {
        Ihandle { addr: 0 }
    }

    /// Writes a widget attribute as text; does nothing when either text
    /// cannot be represented natively.
    pub fn set_attribute(&mut self, ih: Ihandle, name: &str, value: &str)
        requires
            !old(self).is_closed(),
        ensures
            Self::same_binding(*old(self), *final(self)),
            (name@.contains('\0') || value@.contains('\0')) ==> Self::calls_none(
                *old(self),
                *final(self),
            ),
            (!name@.contains('\0') && !value@.contains('\0')) ==> Self::calls_one(
                *old(self),
                *final(self),
                (NativeCall::HccV {
                    sym: old(self).syms.set_attribute,
                    h: ih,
                    a: native_bytes(name@),
                    b: native_bytes(value@),
                }),
            ),
    {
        let n = match c_from_str(name) {
            Ok(c) => c,
            Err(_) => {
                return;
            },
        };
        let v = match c_from_str(value) {
            Ok(c) => c,
            Err(_) => {
                return;
            },
        };
        let sym = self.syms.set_attribute;
        self.api.call_hcc_v(sym, ih, &n, &v);
    }

    /// Associates a named handle attribute with a widget; does nothing when
    /// the name cannot be represented natively.
    pub fn set_attribute_handle(&mut self, ih: Ihandle, name: &str, ih_named: Ihandle)
        requires
            !old(self).is_closed(),
        ensures
            Self::same_binding(*old(self), *final(self)),
            name@.contains('\0') ==> Self::calls_none(*old(self), *final(self)),
            !name@.contains('\0') ==> Self::calls_one(
                *old(self),
                *final(self),
                (NativeCall::HchV {
                    sym: old(self).syms.set_attribute_handle,
                    h: ih,
                    a: native_bytes(name@),
                    named: ih_named,
                }),
            ),
    {
        let n = match c_from_str(name) {
            Ok(c) => c,
            Err(_) => {
                return;
            },
        };
        let sym = self.syms.set_attribute_handle;
        self.api.call_hch_v(sym, ih, &n, ih_named);
    }

    /// Registers a callback under the given event name and hands back the
    /// previously registered one; the null callback when the name cannot be
    /// represented natively (nothing is registered then).
    pub fn set_callback(&mut self, ih: Ihandle, name: &str, func: Icallback) -> (r: Icallback)
        requires
            !old(self).is_closed(),
        ensures
            Self::same_binding(*old(self), *final(self)),
            name@.contains('\0') ==> (r.addr == 0 && Self::calls_none(*old(self), *final(self))),
            !name@.contains('\0') ==> Self::calls_one(
                *old(self),
                *final(self),
                (NativeCall::HckK {
                    sym: old(self).syms.set_callback,
                    h: ih,
                    a: native_bytes(name@),
                    cb: func,
                    out: r,
                }),
            ),
    {
        let n = match c_from_str(name) {
            Ok(c) => c,
            Err(_) => {
                return Icallback { addr: 0 };
            },
        };
        let sym = self.syms.set_callback;
        self.api.call_hck_k(sym, ih, &n, func)
    }

    /// Gives a widget the keyboard focus; hands back what the native call
    /// returned.
    pub fn set_focus(&mut self, ih: Ihandle) -> (r: Ihandle)
        requires
            !old(self).is_closed(),
        ensures
            Self::same_binding(*old(self), *final(self)),
            Self::calls_one(
                *old(self),
                *final(self),
                (NativeCall::Hh { sym: old(self).syms.set_focus, h: ih, out: r }),
            ),
    {
        let sym = self.syms.set_focus;
        self.api.call_h_h(sym, ih)
    }

    /// Writes a global attribute as text; does nothing when either text
    /// cannot be represented natively.
    pub fn set_global(&mut self, name: &str, value: &str)
        requires
            !old(self).is_closed(),
        ensures
            Self::same_binding(*old(self), *final(self)),
            (name@.contains('\0') || value@.contains('\0')) ==> Self::calls_none(
                *old(self),
                *final(self),
            ),
            (!name@.contains('\0') && !value@.contains('\0')) ==> Self::calls_one(
                *old(self),
                *final(self),
                (NativeCall::CcV {
                    sym: old(self).syms.set_global,
                    a: native_bytes(name@),
                    b: native_bytes(value@),
                }),
            ),
    {
        let n = match c_from_str(name) {
            Ok(c) => c,
            Err(_) => {
                return;
            },
        };
        let v = match c_from_str(value) {
            Ok(c) => c,
            Err(_) => {
                return;
            },
        };
        let sym = self.syms.set_global;
        self.api.call_cc_v(sym, &n, &v);
    }

    /// Registers a handle under a global name; the null handle when the name
    /// cannot be represented natively (nothing is registered then).
    pub fn set_handle(&mut self, name: &str, ih: Ihandle) -> (r: Ihandle)
        requires
            !old(self).is_closed(),
        ensures
            Self::same_binding(*old(self), *final(self)),
            name@.contains('\0') ==> (r.addr == 0 && Self::calls_none(*old(self), *final(self))),
            !name@.contains('\0') ==> Self::calls_one(
                *old(self),
                *final(self),
                (NativeCall::ChH {
                    sym: old(self).syms.set_handle,
                    a: native_bytes(name@),
                    h: ih,
                    out: r,
                }),
            ),
    {
        let n = match c_from_str(name) {
            Ok(c) => c,
            Err(_) => {
                return Ihandle { addr: 0 };
            },
        };
        let sym = self.syms.set_handle;
        self.api.call_ch_h(sym, &n, ih)
    }

    /// Writes a widget attribute whose value is another handle; does nothing
    /// when the name cannot be represented natively.
    pub fn set_ih(&mut self, ih: Ihandle, name: &str, ihx: Ihandle)
        requires
            !old(self).is_closed(),
        ensures
            Self::same_binding(*old(self), *final(self)),
            name@.contains('\0') ==> Self::calls_none(*old(self), *final(self)),
            !name@.contains('\0') ==> Self::calls_one(
                *old(self),
                *final(self),
                (NativeCall::HchV {
                    sym: old(self).syms.set_attribute,
                    h: ih,
                    a: native_bytes(name@),
                    named: ihx,
                }),
            ),
    {
        let n = match c_from_str(name) {
            Ok(c) => c,
            Err(_) => {
                return;
            },
        };
        let sym = self.syms.set_attribute;
        self.api.call_hch_v(sym, ih, &n, ihx);
    }

    /// Writes a widget attribute as an integer; does nothing when the name
    /// cannot be represented natively.
    pub fn set_int(&mut self, ih: Ihandle, name: &str, value: i32)
        requires
            !old(self).is_closed(),
        ensures
            Self::same_binding(*old(self), *final(self)),
            name@.contains('\0') ==> Self::calls_none(*old(self), *final(self)),
            !name@.contains('\0') ==> Self::calls_one(
                *old(self),
                *final(self),
                (NativeCall::HciV {
                    sym: old(self).syms.set_int,
                    h: ih,
                    a: native_bytes(name@),
                    v: value,
                }),
            ),
    {
        let n = match c_from_str(name) {
            Ok(c) => c,
            Err(_) => {
                return;
            },
        };
        let sym = self.syms.set_int;
        self.api.call_hci_v(sym, ih, &n, value);
    }

    /// Shows a widget: true exactly when the native call returned the
    /// success sentinel.
    pub fn show(&mut self, ih: Ihandle) -> (r: bool)
        requires
            !old(self).is_closed(),
        ensures
            Self::same_binding(*old(self), *final(self)),
            Self::one_call_appended(*old(self), *final(self)),
            (final(self).api.calls().last() matches NativeCall::Hi { sym, h, code } && sym == old(self).syms.show && h == ih && r == (code == NOERROR)),
    {
        let sym = self.syms.show;
        let code = self.api.call_h_i(sym, ih);
        proof {
            assert(self.api.calls().drop_last() =~= old(self).api.calls());
        }
        status_ok(code)
    }

    /// Shows a widget at the given position: true exactly when the native
    /// call returned the success sentinel.
    pub fn show_xy(&mut self, ih: Ihandle, x: i32, y: i32) -> (r: bool)
        requires
            !old(self).is_closed(),
        ensures
            Self::same_binding(*old(self), *final(self)),
            Self::one_call_appended(*old(self), *final(self)),
            (final(self).api.calls().last() matches NativeCall::HiiI {
                sym,
                h,
                x: x2,
                y: y2,
                code,
            } && sym == old(self).syms.show_xy && h == ih && x2 == x && y2 == y && r == (code
                == NOERROR)),
    {
        let sym = self.syms.show_xy;
        let code = self.api.call_hii_i(sym, ih, x, y);
        proof {
            assert(self.api.calls().drop_last() =~= old(self).api.calls());
        }
        status_ok(code)
    }

    /// Creates a timer widget.
    pub fn timer(&mut self) -> (r: Ihandle)
        requires
            !old(self).is_closed(),
        ensures
            Self::same_binding(*old(self), *final(self)),
            Self::calls_one(
                *old(self),
                *final(self),
                (NativeCall::Vh { sym: old(self).syms.timer, out: r }),
            ),
    {
        let sym = self.syms.timer;
        self.api.call_v_h(sym)
    }

    /// Creates an empty vertical box.
    pub fn vbox(&mut self) -> (r: Ihandle)
        requires
            !old(self).is_closed(),
        ensures
            Self::same_binding(*old(self), *final(self)),
            Self::calls_one(
                *old(self),
                *final(self),
                (NativeCall::ListH {
                    sym: old(self).syms.vbox,
                    first: (Ihandle { addr: 0 }),
                    out: r,
                }),
            ),
    {
        let sym = self.syms.vbox;
        let null = self.null_ihandle();
        self.api.call_list_h(sym, null)
    }

    /// The native library's version text, or "0.0" when the native call
    /// returned null or undecodable bytes.
    pub fn version(&mut self) -> (r: String)
        requires
            !old(self).is_closed(),
        ensures
            Self::same_binding(*old(self), *final(self)),
            Self::one_call_appended(*old(self), *final(self)),
            (final(self).api.calls().last() matches NativeCall::Vc { sym, out } && sym == old(self).syms.version && decodes_with_default(out, r@, "0.0"@)),
    {
        let sym = self.syms.version;
        let raw = self.api.call_v_c(sym);
        let ghost rawg = raw;
        let r = version_from_native(raw);
        proof {
            assert(self.api.calls().drop_last() =~= old(self).api.calls());
            match rawg {
                Some(b) => {
                    assert(rawg.deep_view() == Some(b@));
                },
                None => {},
            }
        }
        r
    }

    /// Shows the native library's own version dialog.
    pub fn version_show(&mut self)
        requires
            !old(self).is_closed(),
        ensures
            Self::same_binding(*old(self), *final(self)),
            Self::calls_one(
                *old(self),
                *final(self),
                (NativeCall::Vv { sym: old(self).syms.version_show }),
            ),
    {
        let sym = self.syms.version_show;
        self.api.call_v_v(sym);
    }
}

/// The facade over the auxiliary image-handling native library: its one
/// bound symbol and the library capability it was bound from.
pub struct Im<A: NativeLibrary> {
    /// The library the facade calls through.
    pub api: A,
    /// The address of the bound image-loading symbol.
    pub load_image_sym: usize,
}

impl<A: NativeLibrary> Im<A> {
    /// Binds the image-handling facade: resolves its one required symbol.
    /// Fails with [`XError::SymbolNotFound`] naming it exactly when the
    /// library lacks it.
    pub fn new(api: A) -> (r: XResult<Im<A>>)
        ensures
            r is Ok <==> api.exports().contains_key(im_required_name()),
            r matches Ok(im) ==> im.load_image_sym == api.exports().index(im_required_name())
                && im.api.exports() == api.exports() && im.api.calls() == api.calls(),
            r matches Err(e) ==> (e matches XError::SymbolNotFound(n) && n@
                == im_required_name()),
    {
        match bind_im(&api) {
            Ok(sym) => Ok(Im { api, load_image_sym: sym }),
            Err(e) => Err(e),
        }
    }

    /// Loads an image file by name; the null handle when the name cannot be
    /// represented natively.
    pub fn load_image(&mut self, name: &str) -> (r: Ihandle)
        ensures
            final(self).api.exports() == old(self).api.exports(),
            final(self).load_image_sym == old(self).load_image_sym,
            name@.contains('\0') ==> (r.addr == 0 && final(self).api.calls() == old(self).api.calls()),
            !name@.contains('\0') ==> final(self).api.calls() == old(self).api.calls().push(
                (NativeCall::Ch {
                    sym: old(self).load_image_sym,
                    a: native_bytes(name@),
                    out: r,
                }),
            ),
    {
        let n = match c_from_str(name) {
            Ok(c) => c,
            Err(_) => {
                return Ihandle { addr: 0 };
            },
        };
        let sym = self.load_image_sym;
        self.api.call_c_h(sym, &n)
    }
}

} // verus!
