use vstd::prelude::*;

use crate::resolver::absent;

verus! {

/// A native-backed module that scripts reach through `require`.
#[derive(Debug, Clone, Copy, PartialEq, Eq, Structural)]
pub enum NativeModule {
    /// The filesystem binding, reached as `require("fs")`.
    Fs,
}

/// One capability name and the native module it constructs.
pub struct Binding {
    name: String,
    module: NativeModule,
}

/// The capabilities that `require` can hand out, each name at most once.
/// Built when the global context is set up, read-only afterwards.
pub struct BindingTable {
    entries: Vec<Binding>,
}

impl BindingTable {
    pub closed spec fn names(&self) -> Seq<Seq<char>> {
        self.entries@.map_values(|b: Binding| b.name@)
    }

    pub closed spec fn modules(&self) -> Seq<NativeModule> {
        self.entries@.map_values(|b: Binding| b.module)
    }

    /// No capability name is bound twice.
    pub open spec fn wf(&self) -> bool {
        forall|i: int, j: int|
            0 <= i < j < self.names().len() ==> self.names()[i] != self.names()[j]
    }

    /// `name` is bound to `m`.
    pub open spec fn binds(&self, name: Seq<char>, m: NativeModule) -> bool {
        exists|i: int| 0 <= i < self.names().len() && self.names()[i] == name && self.modules()[i] == m
    }

    /// What `require(name)` gives on this table: the bound module, or
    /// nothing where the name is unbound.
    pub open spec fn require_result(&self, name: Seq<char>, r: Option<NativeModule>) -> bool {
        match r {
            Some(m) => self.binds(name, m),
            None => absent(self.names(), name),
        }
    }

    /// The module `require` gives for `name` on the standard table.
    pub open spec fn standard_module(name: Seq<char>) -> Option<NativeModule> {
        if name == "fs"@ {
            Some(NativeModule::Fs)
        } else {
            None
        }
    }

    /// The table this runtime installs: `"fs"` and nothing else.
    pub fn standard() -> (r: BindingTable)
        ensures
            r.wf(),
            r.names() == seq!["fs"@],
            r.modules() == seq![NativeModule::Fs],
            forall|name: Seq<char>, m: Option<NativeModule>|
                #[trigger] r.require_result(name, m) <==> m == Self::standard_module(name),
    {
        let mut entries: Vec<Binding> = Vec::new();
        entries.push(Binding { name: String::from_str("fs"), module: NativeModule::Fs });
        let r = BindingTable { entries };
        assert(r.names() =~= seq!["fs"@]);
        assert(r.modules() =~= seq![NativeModule::Fs]);
        assert forall|name: Seq<char>, m: Option<NativeModule>|
            #[trigger] r.require_result(name, m) <==> m == Self::standard_module(name) by {
            if name == "fs"@ {
                assert(r.names()[0] == name);
                if m == Some(NativeModule::Fs) {
                    assert(r.modules()[0] == NativeModule::Fs);
                }
            }
        }
        r
    }

    /// Looks a capability up by name. An unknown name is no error: the script
    /// receives `undefined`.
    pub fn require(&self, name: &str) -> (r: Option<NativeModule>)
        ensures
            self.require_result(name@, r),
    {
        let target = String::from_str(name);
        let mut i: usize = 0;
        while i < self.entries.len()
            invariant
                i <= self.entries@.len(),
                target@ == name@,
                forall|j: int| 0 <= j < i ==> self.names()[j] != name@,
            decreases self.entries@.len() - i,
        {
            if self.entries[i].name == target {
                let m = self.entries[i].module;
                assert(self.names()[i as int] == name@ && self.modules()[i as int] == m);
                return Some(m);
            }
            i = i + 1;
        }
        None
    }
}

/// Calling `require` twice with one name on one table gives the same module
/// both times, or nothing both times: no state of the table enters the answer.
pub proof fn lemma_require_repeatable(
    t: BindingTable,
    name: Seq<char>,
    first: Option<NativeModule>,
    second: Option<NativeModule>,
)
    requires
        t.wf(),
        t.require_result(name, first),
        t.require_result(name, second),
    ensures
        first == second,
{
    match (first, second) {
        (Some(a), Some(b)) => {
            let i = choose|i: int|
                0 <= i < t.names().len() && t.names()[i] == name && t.modules()[i] == a;
            let j = choose|j: int|
                0 <= j < t.names().len() && t.names()[j] == name && t.modules()[j] == b;
            if i < j {
                assert(t.names()[i] != t.names()[j]);
            } else if j < i {
                assert(t.names()[j] != t.names()[i]);
            }
        },
        (Some(a), None) => {
            let i = choose|i: int|
                0 <= i < t.names().len() && t.names()[i] == name && t.modules()[i] == a;
            assert(t.names()[i] != name);
        },
        (None, Some(b)) => {
            let j = choose|j: int|
                0 <= j < t.names().len() && t.names()[j] == name && t.modules()[j] == b;
            assert(t.names()[j] != name);
        },
        (None, None) => {},
    }
}

} // verus!
