//! The registry of host functions that generated code may call.

use crate::types::{str_equal, OtterType};
use vstd::prelude::*;

verus! {

/// The type of a value that crosses the boundary to a host function.
#[derive(Clone, Copy, Debug, PartialEq, Eq, Structural)]
pub enum FfiType {
    Unit,
    Bool,
    I32,
    I64,
    F64,
    Str,
}

impl From<FfiType> for OtterType {
    fn from(value: FfiType) -> (ty: OtterType) {
        match value {
            FfiType::Unit => OtterType::Unit,
            FfiType::Bool => OtterType::Bool,
            FfiType::I32 => OtterType::I32,
            FfiType::I64 => OtterType::I64,
            FfiType::F64 => OtterType::F64,
            FfiType::Str => OtterType::Str,
        }
    }
}

/// The semantic type that stands for a boundary type.
pub open spec fn semantic_type(ty: FfiType) -> OtterType {
    match ty {
        FfiType::Unit => OtterType::Unit,
        FfiType::Bool => OtterType::Bool,
        FfiType::I32 => OtterType::I32,
        FfiType::I64 => OtterType::I64,
        FfiType::F64 => OtterType::F64,
        FfiType::Str => OtterType::Str,
    }
}

impl vstd::std_specs::convert::FromSpecImpl<FfiType> for OtterType {
    open spec fn obeys_from_spec() -> bool {
        true
    }

    open spec fn from_spec(value: FfiType) -> OtterType {
        semantic_type(value)
    }
}

/// The parameter types and the result type of a host function.
///
/// A well-formed signature has no `Unit` among its parameters.
#[derive(Clone, Debug, PartialEq, Eq)]
pub struct FfiSignature {
    pub params: Vec<FfiType>,
    pub result: FfiType,
}

impl FfiSignature {
    /// No parameter is `Unit`.
    pub open spec fn wf(self) -> bool {
        forall|i: int| 0 <= i < self.params@.len() ==> self.params@[i] != FfiType::Unit
    }
}

/// One record of the registry: the name that source programs use, the symbol
/// that the linker sees, and the signature.
#[derive(Clone, Debug, PartialEq, Eq)]
pub struct FfiFunction {
    pub name: String,
    pub symbol: String,
    pub signature: FfiSignature,
}

/// The table of host functions, looked up by simple or dotted name.
pub struct SymbolRegistry {
    entries: Vec<FfiFunction>,
}

/// The table that a list of records stands for: a later record replaces an
/// earlier one of the same name.
pub open spec fn table_of(entries: Seq<FfiFunction>) -> Map<Seq<char>, FfiFunction>
    decreases entries.len(),
{
    if entries.len() == 0 {
        Map::empty()
    } else {
        table_of(entries.drop_last()).insert(entries.last().name@, entries.last())
    }
}

impl View for SymbolRegistry {
    type V = Map<Seq<char>, FfiFunction>;

    closed spec fn view(&self) -> Map<Seq<char>, FfiFunction> {
        table_of(self.entries@)
    }
}

impl SymbolRegistry {
    /// A registry that knows no symbol.
    pub fn new() -> (r: SymbolRegistry)
        ensures
            r@ == Map::<Seq<char>, FfiFunction>::empty(),
    {
        SymbolRegistry { entries: Vec::new() }
    }

    /// Adds a record, replacing any earlier record of the same name.
    pub fn register(&mut self, entry: FfiFunction)
        ensures
            final(self)@ == old(self)@.insert(entry.name@, entry),
    {
        let ghost before = self.entries@;
        self.entries.push(entry);
        proof {
            assert(self.entries@.drop_last() =~= before);
        }
    }

    /// Looks a name up.
    pub fn resolve(&self, name: &str) -> (found: Option<&FfiFunction>)
        ensures
            match found {
                Some(entry) => self@.get(name@) == Some(*entry),
                None => self@.get(name@) is None,
            },
    {
        let mut found: Option<&FfiFunction> = None;
        let mut i: usize = 0;
        while i < self.entries.len()
            invariant
                i <= self.entries.len(),
                match found {
                    Some(entry) => table_of(self.entries@.take(i as int)).get(name@) == Some(*entry),
                    None => table_of(self.entries@.take(i as int)).get(name@) is None,
                },
            decreases self.entries.len() - i,
        {
            proof {
                assert(self.entries@.take(i + 1).drop_last() =~= self.entries@.take(i as int));
            }
            if str_equal(self.entries[i].name.as_str(), name) {
                found = Some(&self.entries[i]);
            }
            i += 1;
        }
        proof {
            assert(self.entries@.take(i as int) =~= self.entries@);
        }
        found
    }
}

/// What a registry says of a host function: its symbol and its signature.
pub struct HostSpec {
    pub symbol: Seq<char>,
    pub params: Seq<FfiType>,
    pub result: FfiType,
}

/// The record `entry` is the host function `host` under the name `name`.
pub open spec fn is_host_function(entry: FfiFunction, name: Seq<char>, host: HostSpec) -> bool {
    &&& entry.name@ == name
    &&& entry.symbol@ == host.symbol
    &&& entry.signature.params@ == host.params
    &&& entry.signature.result == host.result
}

/// The host functions of the runtime shim, by the names under which
/// programs and the code generator refer to them.
pub open spec fn standard_symbol(name: Seq<char>) -> Option<HostSpec> {
    if name == "print"@ || name == "std.io.print"@ {
        Some(HostSpec { symbol: "otter_std_io_print"@, params: seq![FfiType::Str], result: FfiType::Unit })
    } else if name == "println"@ || name == "std.io.println"@ {
        Some(HostSpec { symbol: "otter_std_io_println"@, params: seq![FfiType::Str], result: FfiType::Unit })
    } else if name == "std.io.read_line"@ {
        Some(HostSpec { symbol: "otter_std_io_read_line"@, params: Seq::empty(), result: FfiType::Str })
    } else if name == "std.io.free_string"@ {
        Some(
            HostSpec { symbol: "otter_std_io_free_string"@, params: seq![FfiType::Str], result: FfiType::Unit },
        )
    } else if name == "std.time.now"@ {
        Some(HostSpec { symbol: "otter_std_time_now_ms"@, params: Seq::empty(), result: FfiType::I64 })
    } else {
        None
    }
}

/// The names of the standard registry are all different.
pub proof fn lemma_standard_names_differ()
    ensures
        "print"@.len() == 5,
        "println"@.len() == 7,
        "std.io.print"@.len() == 12,
        "std.io.println"@.len() == 14,
        "std.io.read_line"@.len() == 16,
        "std.io.free_string"@.len() == 18,
        "std.time.now"@.len() == 12,
        "std.io.print"@[4] == 'i',
        "std.time.now"@[4] == 't',
{
    reveal_strlit("print");
    reveal_strlit("println");
    reveal_strlit("std.io.print");
    reveal_strlit("std.io.println");
    reveal_strlit("std.io.read_line");
    reveal_strlit("std.io.free_string");
    reveal_strlit("std.time.now");
}

/// One record of the standard registry, with one string parameter or none.
fn host_function(name: &str, symbol: &str, takes_string: bool, result: FfiType) -> (f: FfiFunction)
    ensures
        is_host_function(
            f,
            name@,
            HostSpec {
                symbol: symbol@,
                params: if takes_string {
                    seq![FfiType::Str]
                } else {
                    Seq::empty()
                },
                result,
            },
        ),
{
    let mut params: Vec<FfiType> = Vec::new();
    if takes_string {
        params.push(FfiType::Str);
        assert(params@ =~= seq![FfiType::Str]);
    }
    FfiFunction { name: name.to_owned(), symbol: symbol.to_owned(), signature: FfiSignature { params, result } }
}

/// The registry of the runtime shim: console output and input, and the
/// clock. It knows the names of `standard_symbol` and no others.
pub fn bootstrap_stdlib() -> (r: SymbolRegistry)
    ensures
        forall|name: Seq<char>|
            #![trigger standard_symbol(name)]
            #![trigger r@.dom().contains(name)]
            match standard_symbol(name) {
                Some(host) => r@.contains_key(name) && is_host_function(r@[name], name, host),
                None => !r@.contains_key(name),
            },
{
    let mut r = SymbolRegistry::new();
    r.register(host_function("print", "otter_std_io_print", true, FfiType::Unit));
    r.register(host_function("println", "otter_std_io_println", true, FfiType::Unit));
    r.register(host_function("std.io.print", "otter_std_io_print", true, FfiType::Unit));
    r.register(host_function("std.io.println", "otter_std_io_println", true, FfiType::Unit));
    r.register(host_function("std.io.read_line", "otter_std_io_read_line", false, FfiType::Str));
    r.register(host_function("std.io.free_string", "otter_std_io_free_string", true, FfiType::Unit));
    r.register(host_function("std.time.now", "otter_std_time_now_ms", false, FfiType::I64));
    proof {
        lemma_standard_names_differ();
    }
    r
}

} // verus!
