//! An in-memory stand-in for a loaded native library: a configurable export
//! table, configurable results for each call shape, and a log of every call
//! made. It serves the same [`NativeLibrary`] interface as a real loader
//! binding, so the resolver, binder and facade can be exercised without a
//! native library present.

use crate::binder::{all_required_present, required_names, NativeCall, NativeLibrary};
use crate::prelude::{Icallback, Ihandle};
use crate::text::CText;
use vstd::prelude::*;

verus! {

/// The export table an entry list denotes: each name mapped to its address,
/// the earliest entry of a name winning, as a front-to-back scan finds it.
pub open spec fn exports_of(entries: Seq<(String, usize)>) -> Map<Seq<char>, usize>
    decreases entries.len(),
{
    if entries.len() == 0 {
        Map::empty()
    } else {
        exports_of(entries.drop_first()).insert(entries[0].0@, entries[0].1)
    }
}

/// An entry list exports a name exactly when some entry carries it.
pub proof fn lemma_exports_of_contains(entries: Seq<(String, usize)>, name: Seq<char>)
    ensures
        exports_of(entries).contains_key(name) <==> exists|j: int|
            0 <= j < entries.len() && (#[trigger] entries[j]).0@ == name,
    decreases entries.len(),
{
    if entries.len() == 0 {
    } else {
        lemma_exports_of_contains(entries.drop_first(), name);
        if exists|j: int| 0 <= j < entries.drop_first().len() && (#[trigger] entries.drop_first()[j]).0@
            == name {
            let j = choose|j: int|
                0 <= j < entries.drop_first().len() && (#[trigger] entries.drop_first()[j]).0@
                    == name;
            assert(entries[j + 1].0@ == name);
        }
        if entries[0].0@ != name && exists|j: int|
            0 <= j < entries.len() && (#[trigger] entries[j]).0@ == name {
            let j = choose|j: int| 0 <= j < entries.len() && (#[trigger] entries[j]).0@ == name;
            assert(entries.drop_first()[j - 1].0@ == name);
        }
    }
}

/// The first entry carrying a name decides its address, as a front-to-back
/// scan does.
pub proof fn lemma_exports_of_first_match(entries: Seq<(String, usize)>, k: int)
    requires
        0 <= k < entries.len(),
        forall|j: int| 0 <= j < k ==> (#[trigger] entries[j]).0@ != entries[k].0@,
    ensures
        exports_of(entries).contains_key(entries[k].0@),
        exports_of(entries).index(entries[k].0@) == entries[k].1,
    decreases k,
{
    if k == 0 {
    } else {
        lemma_exports_of_first_match(entries.drop_first(), k - 1);
        assert(forall|j: int|
            0 <= j < k - 1 ==> (#[trigger] entries.drop_first()[j]).0@ == entries[j + 1].0@);
        assert(entries.drop_first()[k - 1] == entries[k]);
        assert(entries[0].0@ != entries[k].0@);
    }
}

/// A stub whose entry list carries every required name exports them all, so
/// binding against it is guaranteed to succeed by the contract of
/// [`crate::binder::bind`]; with any one name absent from the export table,
/// the same contract guarantees failure naming a missing symbol.
pub proof fn lemma_full_stub_binds(entries: Seq<(String, usize)>)
    requires
        forall|i: int|
            0 <= i < required_names().len() ==> exists|j: int|
                0 <= j < entries.len() && (#[trigger] entries[j]).0@ == #[trigger] required_names()[i],
    ensures
        all_required_present(exports_of(entries)),
{
    assert forall|i: int|
        0 <= i < required_names().len() implies exports_of(entries).contains_key(
        #[trigger] required_names()[i],
    ) by {
        lemma_exports_of_contains(entries, required_names()[i]);
    }
}

/// An in-memory native library for tests: exports whatever entries it was
/// given, answers each call with a configured result, and logs the address
/// of every symbol invoked, in order.
pub struct StubLibrary {
    /// The export table: names and their (fake) addresses.
    pub entries: Vec<(String, usize)>,
    /// Status code the initialization entry point returns.
    pub open_result: i32,
    /// Status code every other int-returning call returns.
    pub int_result: i32,
    /// Bytes every string-returning call hands back, or nothing for a null
    /// result.
    pub text_result: Option<Vec<u8>>,
    /// Handle every handle-returning call hands back.
    pub handle_result: Ihandle,
    /// Callback reference every callback-returning call hands back.
    pub callback_result: Icallback,
    /// Addresses of the symbols invoked so far, in call order.
    pub log: Vec<usize>,
    /// The ghost call log the [`NativeLibrary`] contract speaks of: every
    /// invocation with its arguments and result, in call order.
    pub calls: Ghost<Seq<NativeCall>>,
}

impl StubLibrary {
    /// A stub with the given export table; every call answers with benign
    /// defaults: status 0, no text, the null handle, no callback.
    pub fn new(entries: Vec<(String, usize)>) -> (r: StubLibrary)
        ensures
            r.entries == entries,
            r.log@.len() == 0,
            r.calls@ == Seq::<NativeCall>::empty(),
            r.open_result == 0,
            r.int_result == 0,
            r.text_result is None,
            r.handle_result.addr == 0,
            r.callback_result.addr == 0,
    {
        StubLibrary {
            entries,
            open_result: 0,
            int_result: 0,
            text_result: None,
            handle_result: Ihandle { addr: 0 },
            callback_result: Icallback { addr: 0 },
            log: Vec::new(),
            calls: Ghost(Seq::empty()),
        }
    }

    /// Records one call of the given symbol.
    fn record(&mut self, sym: usize)
        ensures
            final(self).entries == old(self).entries,
            final(self).open_result == old(self).open_result,
            final(self).int_result == old(self).int_result,
            final(self).text_result == old(self).text_result,
            final(self).handle_result == old(self).handle_result,
            final(self).callback_result == old(self).callback_result,
            final(self).log@ == old(self).log@.push(sym),
            final(self).calls@ == old(self).calls@,
    {
        self.log.push(sym);
    }

    /// A copy of the configured text result.
    fn text_copy(&self) -> (r: Option<Vec<u8>>)
        ensures
            r is Some <==> self.text_result is Some,
            r matches Some(v) ==> (self.text_result matches Some(w) && v@ == w@),
    {
        match &self.text_result {
            Some(v) => {
                let c = v.clone();
                proof {
                    assert(forall|i: int| 0 <= i < v@.len() ==> c@[i] == v@[i]);
                    assert(c@ =~= v@);
                }
                Some(c)
            },
            None => None,
        }
    }

    /// How many of the logged calls invoked the given symbol.
    pub fn calls_of(&self, sym: usize) -> (n: usize)
        ensures
            n as nat == count_of(self.log@, sym),
    {
        let mut n: usize = 0;
        let mut i: usize = 0;
        while i < self.log.len()
            invariant
                0 <= i <= self.log@.len(),
                n as nat == count_of(self.log@.take(i as int), sym),
                n <= i,
            decreases self.log@.len() - i,
        {
            let ghost prefix = self.log@.take(i as int + 1);
            proof {
                assert(prefix.drop_last() =~= self.log@.take(i as int));
                assert(prefix.last() == self.log@[i as int]);
            }
            if self.log[i] == sym {
                n += 1;
            }
            i += 1;
        }
        proof {
            assert(self.log@.take(self.log@.len() as int) =~= self.log@);
        }
        n
    }
}

/// How many entries of a call log name the given symbol.
pub open spec fn count_of(log: Seq<usize>, sym: usize) -> nat
    decreases log.len(),
{
    if log.len() == 0 {
        0
    } else {
        count_of(log.drop_last(), sym) + (if log.last() == sym {
            1nat
        } else {
            0nat
        })
    }
}

impl NativeLibrary for StubLibrary {
    open spec fn exports(&self) -> Map<Seq<char>, usize> {
        exports_of(self.entries@)
    }

    open spec fn calls(&self) -> Seq<NativeCall> {
        self.calls@
    }

    fn resolve(&self, name: &str) -> (r: Option<usize>) {
        let key = String::from_str(name);
        let mut i: usize = 0;
        while i < self.entries.len()
            invariant
                key@ == name@,
                0 <= i <= self.entries@.len(),
                forall|j: int| 0 <= j < i ==> (#[trigger] self.entries@[j]).0@ != name@,
            decreases self.entries@.len() - i,
        {
            if self.entries[i].0 == key {
                proof {
                    lemma_exports_of_first_match(self.entries@, i as int);
                }
                return Some(self.entries[i].1);
            }
            i += 1;
        }
        proof {
            lemma_exports_of_contains(self.entries@, name@);
        }
        None
    }

    fn call_open(&mut self, sym: usize) -> (code: i32) {
        self.record(sym);
        let code = self.open_result;
        self.calls = Ghost(self.calls@.push(NativeCall::Open { sym, code }));
        code
    }

    fn call_v_i(&mut self, sym: usize) -> (code: i32) {
        self.record(sym);
        let code = self.int_result;
        self.calls = Ghost(self.calls@.push(NativeCall::Vi { sym, code }));
        code
    }

    fn call_v_v(&mut self, sym: usize) {
        self.record(sym);
        self.calls = Ghost(self.calls@.push(NativeCall::Vv { sym }));
    }

    fn call_v_h(&mut self, sym: usize) -> (h: Ihandle) {
        self.record(sym);
        let h = self.handle_result;
        self.calls = Ghost(self.calls@.push(NativeCall::Vh { sym, out: h }));
        h
    }

    fn call_v_c(&mut self, sym: usize) -> (r: Option<Vec<u8>>) {
        self.record(sym);
        let r = self.text_copy();
        self.calls = Ghost(self.calls@.push(NativeCall::Vc { sym, out: r.deep_view() }));
        r
    }

    fn call_c_h(&mut self, sym: usize, a: &CText) -> (h: Ihandle) {
        self.record(sym);
        let h = self.handle_result;
        self.calls = Ghost(self.calls@.push(NativeCall::Ch { sym, a: a.bytes@, out: h }));
        h
    }

    fn call_c_c(&mut self, sym: usize, a: &CText) -> (r: Option<Vec<u8>>) {
        self.record(sym);
        let r = self.text_copy();
        self.calls = Ghost(self.calls@.push(NativeCall::Cc { sym, a: a.bytes@, out: r.deep_view() }));
        r
    }

    fn call_cc_h(&mut self, sym: usize, a: &CText, b: &CText) -> (h: Ihandle) {
        self.record(sym);
        let h = self.handle_result;
        self.calls = Ghost(self.calls@.push(NativeCall::CcH { sym, a: a.bytes@, b: b.bytes@, out: h }));
        h
    }

    fn call_cc_v(&mut self, sym: usize, a: &CText, b: &CText) {
        self.record(sym);
        self.calls = Ghost(self.calls@.push(NativeCall::CcV { sym, a: a.bytes@, b: b.bytes@ }));
    }

    fn call_ch_h(&mut self, sym: usize, a: &CText, h: Ihandle) -> (r: Ihandle) {
        self.record(sym);
        let r = self.handle_result;
        self.calls = Ghost(self.calls@.push(NativeCall::ChH { sym, a: a.bytes@, h, out: r }));
        r
    }

    fn call_h_h(&mut self, sym: usize, h: Ihandle) -> (r: Ihandle) {
        self.record(sym);
        let r = self.handle_result;
        self.calls = Ghost(self.calls@.push(NativeCall::Hh { sym, h, out: r }));
        r
    }

    fn call_h_i(&mut self, sym: usize, h: Ihandle) -> (code: i32) {
        self.record(sym);
        let code = self.int_result;
        self.calls = Ghost(self.calls@.push(NativeCall::Hi { sym, h, code }));
        code
    }

    fn call_list_h(&mut self, sym: usize, first: Ihandle) -> (r: Ihandle) {
        self.record(sym);
        let r = self.handle_result;
        self.calls = Ghost(self.calls@.push(NativeCall::ListH { sym, first, out: r }));
        r
    }

    fn call_hh_h(&mut self, sym: usize, a: Ihandle, b: Ihandle) -> (r: Ihandle) {
        self.record(sym);
        let r = self.handle_result;
        self.calls = Ghost(self.calls@.push(NativeCall::HhH { sym, parent: a, child: b, out: r }));
        r
    }

    fn call_hc_c(&mut self, sym: usize, h: Ihandle, a: &CText) -> (r: Option<Vec<u8>>) {
        self.record(sym);
        let r = self.text_copy();
        self.calls = Ghost(self.calls@.push(NativeCall::HcC { sym, h, a: a.bytes@, out: r.deep_view() }));
        r
    }

    fn call_hc_h(&mut self, sym: usize, h: Ihandle, a: &CText) -> (r: Ihandle) {
        self.record(sym);
        let r = self.handle_result;
        self.calls = Ghost(self.calls@.push(NativeCall::HcH { sym, h, a: a.bytes@, out: r }));
        r
    }

    fn call_hc_i(&mut self, sym: usize, h: Ihandle, a: &CText) -> (r: i32) {
        self.record(sym);
        let r = self.int_result;
        self.calls = Ghost(self.calls@.push(NativeCall::HcI { sym, h, a: a.bytes@, code: r }));
        r
    }

    fn call_hcc_v(&mut self, sym: usize, h: Ihandle, a: &CText, b: &CText) {
        self.record(sym);
        self.calls = Ghost(self.calls@.push(NativeCall::HccV { sym, h, a: a.bytes@, b: b.bytes@ }));
    }

    fn call_hch_v(&mut self, sym: usize, h: Ihandle, a: &CText, b: Ihandle) {
        self.record(sym);
        self.calls = Ghost(self.calls@.push(NativeCall::HchV { sym, h, a: a.bytes@, named: b }));
    }

    fn call_hci_v(&mut self, sym: usize, h: Ihandle, a: &CText, v: i32) {
        self.record(sym);
        self.calls = Ghost(self.calls@.push(NativeCall::HciV { sym, h, a: a.bytes@, v }));
    }

    fn call_hck_k(&mut self, sym: usize, h: Ihandle, a: &CText, cb: Icallback) -> (r: Icallback) {
        self.record(sym);
        let r = self.callback_result;
        self.calls = Ghost(self.calls@.push(NativeCall::HckK { sym, h, a: a.bytes@, cb, out: r }));
        r
    }

    fn call_hii_i(&mut self, sym: usize, h: Ihandle, x: i32, y: i32) -> (code: i32) {
        self.record(sym);
        let code = self.int_result;
        self.calls = Ghost(self.calls@.push(NativeCall::HiiI { sym, h, x, y, code }));
        code
    }
}

} // verus!
