//! The decisions behind running scripts as native simulator libraries: which
//! simulator library stands for a script's code, and how the library is named to it.
use vstd::prelude::*;
use vstd::string::StringSliceAdditionalSpecFns;
use crate::context::{code_added, deployed_capacity, Context};
use crate::table::{distinct_keys, entries_map};
use crate::primitives::{append_text, calc_data_hash, calc_data_hash_of, replace_text, replaced_of};
use crate::types::{OutPoint, Script, HASH_TYPE_TYPE};

verus! {

/// The context can tell which code a script runs: for the type hash type, the context
/// finds the code cell by type hash and holds that cell.
pub open spec fn simulator_code_known(ctx: &Context, s: Script) -> bool {
    s.hash_type == HASH_TYPE_TYPE ==> {
        &&& ctx.cells_by_type_hash@.contains_key(s.code_hash@)
        &&& ctx.cells@.contains_key(ctx.cells_by_type_hash@[s.code_hash@])
    }
}

/// The data hash of the code that a script runs: for the type hash type, the data hash
/// of the code cell found by type hash; otherwise the script's code hash.
pub open spec fn simulator_code_hash_of(ctx: &Context, s: Script) -> Seq<u8> {
    if s.hash_type == HASH_TYPE_TYPE {
        calc_data_hash_of(ctx.cells@[ctx.cells_by_type_hash@[s.code_hash@]].1)
    } else {
        s.code_hash@
    }
}

/// The key under which a simulator library is named for code with the given data hash:
/// the hash, the byte 0xff, and eight zero bytes.
pub open spec fn native_binary_key_of(code_hash: Seq<u8>) -> Seq<u8> {
    code_hash + seq![0xffu8] + Seq::new(8, |i: int| 0u8)
}

/// Returns the key under which a simulator library is named for code with the given data hash.
pub fn native_binary_key(code_hash: &[u8; 32]) -> (key: Vec<u8>)
    ensures
        key@ == native_binary_key_of(code_hash@),
{
    let mut key: Vec<u8> = Vec::new();
    let mut i: usize = 0;
    while i < 32
        invariant
            i <= 32,
            code_hash@.len() == 32,
            key@ == code_hash@.subrange(0, i as int),
        decreases 32 - i,
    {
        key.push(code_hash[i]);
        i = i + 1;
    }
    key.push(0xff);
    let mut j: usize = 0;
    while j < 8
        invariant
            j <= 8,
            key@ == code_hash@ + seq![0xffu8] + Seq::new(j as nat, |i: int| 0u8),
        decreases 8 - j,
    {
        key.push(0);
        j = j + 1;
        assert(key@ =~= code_hash@ + seq![0xffu8] + Seq::new(j as nat, |i: int| 0u8));
    }
    key
}

impl Context {
    /// Add code_hash and script binary to simulator.
    pub fn set_simulator(&mut self, code_hash: [u8; 32], path: &str)
        ensures
            final(self).simulator_binaries@ == old(self).simulator_binaries@.insert(code_hash@, path@),
            final(self).same_cells(old(self)),
            final(self).same_chain_data(old(self)),
            final(self).deterministic_rng == old(self).deterministic_rng,
            final(self).capture_debug == old(self).capture_debug,
            final(self).shares_messages_with(old(self)),
            final(self).contract_dirs_view() == old(self).contract_dirs_view(),
            final(self).simulator_bin_name@ == old(self).simulator_bin_name@,
    {
        self.simulator_binaries.insert(code_hash, path.to_owned());
    }

    /// The file name of the native simulator library of a contract: the context's
    /// library name pattern with `<contract>` replaced by the contract's name, dashes
    /// turned into underscores, then a dot and the platform's library extension.
    pub fn simulator_file_name(&self, contract: &str, library_extension: &str) -> (r: String)
        ensures
            r@ == replaced_of(self.simulator_bin_name@, "<contract>"@, replaced_of(contract@, "-"@, "_"@))
                + "."@ + library_extension@,
    {
        let name = replace_text(contract, "-", "_");
        let file = replace_text(self.simulator_bin_name.as_str(), "<contract>", name.as_str());
        let file = append_text(file, ".");
        append_text(file, library_extension)
    }

    /// Deploy a cell, as `deploy_cell` does, and register the native simulator library
    /// at `simulator_path`, where there is one, for the code's data hash. `None`, with
    /// the context unchanged, where `deploy_cell` cannot take the data: it is new and a
    /// cell holding it would need a capacity that does not fit in a `u64`.
    pub fn deploy_cell_with_simulator(&mut self, data: Vec<u8>, simulator_path: Option<&str>) -> (r: Option<OutPoint>)
        ensures
            r is Some <==> (old(self).cells_by_data_hash@.contains_key(calc_data_hash_of(data@))
                || deployed_capacity(data@.len() as int) is Some),
            r is None ==> final(self).same_as(old(self)),
            r is Some ==> final(self).simulator_binaries@ == match simulator_path {
                Some(p) => old(self).simulator_binaries@.insert(calc_data_hash_of(data@), p@),
                None => old(self).simulator_binaries@,
            },
            r matches Some(op) ==> {
                &&& old(self).cells_by_data_hash@.contains_key(calc_data_hash_of(data@)) ==> {
                    &&& op@ == old(self).cells_by_data_hash@[calc_data_hash_of(data@)]
                    &&& final(self).same_cells(old(self))
                }
                &&& !old(self).cells_by_data_hash@.contains_key(calc_data_hash_of(data@)) ==>
                    code_added(old(self), final(self), op, data@)
            },
            final(self).same_chain_data(old(self)),
            final(self).same_settings_but_simulators(old(self)),
            old(self).indexes_held() ==> final(self).indexes_held(),
    {
        if !self.can_deploy_cell(data.as_slice()) {
            return None;
        }
        let data_hash = calc_data_hash(data.as_slice());
        let op = self.deploy_cell(data);
        match simulator_path {
            Some(p) => self.set_simulator(data_hash, p),
            None => {},
        }
        Some(op)
    }

    /// The data hash of the code that the script runs, under which its simulator library
    /// is registered.
    pub fn simulator_code_hash(&self, script: &Script) -> (h: [u8; 32])
        requires
            simulator_code_known(self, *script),
        ensures
            h@ == simulator_code_hash_of(self, *script),
    {
        if script.hash_type == HASH_TYPE_TYPE {
            match self.cells_by_type_hash.get(&script.code_hash) {
                Some(op) => match self.cells.get(op) {
                    Some(c) => calc_data_hash(c.1.as_slice()),
                    None => [0u8; 32],
                },
                None => [0u8; 32],
            }
        } else {
            script.code_hash
        }
    }

    /// The simulator library registered for the code that the script runs, if any.
    pub fn simulator_for(&self, script: &Script) -> (path: Option<String>)
        requires
            simulator_code_known(self, *script),
        ensures
            path is Some <==> self.simulator_binaries@.contains_key(simulator_code_hash_of(self, *script)),
            path matches Some(p) ==> p@ == self.simulator_binaries@[simulator_code_hash_of(self, *script)],
    {
        let code_hash = self.simulator_code_hash(script);
        match self.simulator_binaries.get(&code_hash) {
            Some(p) => Some(p.clone()),
            None => None,
        }
    }
}

/// What a simulator library run is told about the script group it runs.
pub struct SimulatorSetup {
    /// Whether the group is a lock script group.
    pub is_lock_script: bool,
    /// The index of the group's first input.
    pub script_index: usize,
    /// The VM version the library stands in for.
    pub vm_version: u8,
    /// Each registered simulator library: the key it is named under and its path.
    pub native_binaries: Vec<(Vec<u8>, String)>,
}

/// The lowercase hexadecimal digit of a value below 16, as an ASCII byte.
pub open spec fn hex_digit(v: u8) -> u8 {
    if v < 10 {
        (48 + v) as u8
    } else {
        (87 + v) as u8
    }
}

/// The bytes written in lowercase hexadecimal, two digits for each byte.
pub open spec fn hex_of(b: Seq<u8>) -> Seq<u8>
    decreases b.len(),
{
    if b.len() == 0 {
        Seq::empty()
    } else {
        hex_of(b.drop_last()) + seq![hex_digit(b.last() / 16), hex_digit(b.last() % 16)]
    }
}

/// The number written in decimal ASCII digits, without leading zeros.
pub open spec fn decimal_of(n: nat) -> Seq<u8>
    decreases n,
{
    if n < 10 {
        seq![(48 + n) as u8]
    } else {
        decimal_of(n / 10) + seq![(48 + n % 10) as u8]
    }
}

/// `true` or `false`, as JSON writes it.
pub open spec fn bool_text(b: bool) -> Seq<u8> {
    if b {
        "true".spec_bytes()
    } else {
        "false".spec_bytes()
    }
}

/// One entry of the setup's library map: the key in hexadecimal after `0x`, and the path.
pub open spec fn binary_entry_text(b: (Seq<u8>, Seq<char>)) -> Seq<u8> {
    "\"0x".spec_bytes() + hex_of(b.0) + "\" : \"".spec_bytes() + vstd::utf8::encode_utf8(b.1) + "\"".spec_bytes()
}

/// The entries of the setup's library map, separated by commas.
pub open spec fn binaries_text(bs: Seq<(Seq<u8>, Seq<char>)>) -> Seq<u8>
    decreases bs.len(),
{
    if bs.len() == 0 {
        Seq::empty()
    } else if bs.len() == 1 {
        binary_entry_text(bs[0])
    } else {
        binaries_text(bs.drop_last()) + ",".spec_bytes() + binary_entry_text(bs.last())
    }
}

/// The JSON document that tells a simulator library what to run.
pub open spec fn setup_text_of(is_lock_script: bool, script_index: nat, vm_version: nat, bs: Seq<(Seq<u8>, Seq<char>)>) -> Seq<u8> {
    "{\"is_lock_script\": ".spec_bytes() + bool_text(is_lock_script)
        + ", \"is_output\": false, \"script_index\": ".spec_bytes() + decimal_of(script_index)
        + ", \"vm_version\": ".spec_bytes() + decimal_of(vm_version)
        + ", \"native_binaries\": { ".spec_bytes() + binaries_text(bs)
        + " }, \"run_type\": \"DynamicLib\" }".spec_bytes()
}

/// Appends the UTF-8 bytes of `s`.
fn push_text(out: &mut Vec<u8>, s: &str)
    ensures
        final(out)@ == old(out)@ + s.spec_bytes(),
{
    let b = s.as_bytes();
    let ghost start = out@;
    let mut i: usize = 0;
    while i < b.len()
        invariant
            i <= b@.len(),
            b@ == s.spec_bytes(),
            out@ == start + b@.subrange(0, i as int),
        decreases b@.len() - i,
    {
        out.push(b[i]);
        i = i + 1;
        assert(out@ =~= start + b@.subrange(0, i as int));
    }
    assert(b@.subrange(0, b@.len() as int) =~= b@);
}

/// Appends `n` in decimal.
fn push_decimal(out: &mut Vec<u8>, n: u64)
    ensures
        final(out)@ == old(out)@ + decimal_of(n as nat),
    decreases n,
{
    if n >= 10 {
        push_decimal(out, n / 10);
    }
    let ghost before = out@;
    out.push((48 + n % 10) as u8);
    proof {
        if n < 10 {
            assert(n % 10 == n);
        }
        assert(out@ =~= before + seq![(48 + n % 10) as u8]);
    }
}

/// The lowercase hexadecimal digit of a value below 16.
fn hex_digit_byte(v: u8) -> (r: u8)
    requires
        v < 16,
    ensures
        r == hex_digit(v),
{
    if v < 10 {
        48 + v
    } else {
        87 + v
    }
}

/// Appends the bytes in lowercase hexadecimal.
fn push_hex(out: &mut Vec<u8>, b: &Vec<u8>)
    ensures
        final(out)@ == old(out)@ + hex_of(b@),
{
    let ghost start = out@;
    let mut i: usize = 0;
    while i < b.len()
        invariant
            i <= b@.len(),
            out@ == start + hex_of(b@.subrange(0, i as int)),
        decreases b@.len() - i,
    {
        let ghost before = out@;
        out.push(hex_digit_byte(b[i] / 16));
        out.push(hex_digit_byte(b[i] % 16));
        proof {
            let next = b@.subrange(0, i + 1);
            assert(next.drop_last() =~= b@.subrange(0, i as int));
            assert(next.last() == b@[i as int]);
            assert(out@ =~= before + seq![hex_digit(b@[i as int] / 16), hex_digit(b@[i as int] % 16)]);
        }
        i = i + 1;
    }
    assert(b@.subrange(0, b@.len() as int) =~= b@);
}

/// The keys and paths of the registered simulator libraries, in the order given.
pub open spec fn native_binaries_of(entries: Seq<([u8; 32], String)>) -> Seq<(Seq<u8>, Seq<char>)> {
    entries.map_values(|e: ([u8; 32], String)| (native_binary_key_of(e.0@), e.1@))
}

impl SimulatorSetup {
    /// The libraries of the setup as key and path values.
    pub open spec fn binaries_view(&self) -> Seq<(Seq<u8>, Seq<char>)> {
        self.native_binaries@.map_values(|b: (Vec<u8>, String)| (b.0@, b.1@))
    }

    /// The setup as the JSON document that the simulator library reads.
    pub fn text(&self) -> (t: Vec<u8>)
        ensures
            t@ == setup_text_of(self.is_lock_script, self.script_index as nat, self.vm_version as nat, self.binaries_view()),
    {
        let mut t: Vec<u8> = Vec::new();
        push_text(&mut t, "{\"is_lock_script\": ");
        if self.is_lock_script {
            push_text(&mut t, "true");
        } else {
            push_text(&mut t, "false");
        }
        push_text(&mut t, ", \"is_output\": false, \"script_index\": ");
        push_decimal(&mut t, self.script_index as u64);
        push_text(&mut t, ", \"vm_version\": ");
        push_decimal(&mut t, self.vm_version as u64);
        push_text(&mut t, ", \"native_binaries\": { ");
        let ghost start = t@;
        let ghost bs = self.binaries_view();
        let mut i: usize = 0;
        while i < self.native_binaries.len()
            invariant
                i <= self.native_binaries@.len(),
                bs == self.binaries_view(),
                t@ == start + binaries_text(bs.subrange(0, i as int)),
            decreases self.native_binaries@.len() - i,
        {
            let ghost before = t@;
            if i > 0 {
                push_text(&mut t, ",");
            }
            let ghost mid = t@;
            let (key, path) = &self.native_binaries[i];
            push_text(&mut t, "\"0x");
            push_hex(&mut t, key);
            push_text(&mut t, "\" : \"");
            push_text(&mut t, path.as_str());
            push_text(&mut t, "\"");
            proof {
                let next = bs.subrange(0, i + 1);
                assert(bs[i as int] == (key@, path@));
                assert(next.drop_last() =~= bs.subrange(0, i as int));
                assert(next.last() == bs[i as int]);
                assert(t@ =~= mid + binary_entry_text(bs[i as int]));
                if i == 0 {
                    assert(next =~= seq![bs[0]]);
                    assert(bs.subrange(0, 0) =~= Seq::<(Seq<u8>, Seq<char>)>::empty());
                    assert(t@ =~= start + binaries_text(next));
                } else {
                    assert(t@ =~= start + binaries_text(next));
                }
            }
            i = i + 1;
        }
        assert(bs.subrange(0, bs.len() as int) =~= bs);
        push_text(&mut t, " }, \"run_type\": \"DynamicLib\" }");
        assert(t@ =~= setup_text_of(self.is_lock_script, self.script_index as nat, self.vm_version as nat, bs));
        t
    }
}

impl Context {
    /// The setup of a simulator library run for a script group: whether it is a lock
    /// group, its first input's index, VM version 2, and every registered simulator
    /// library under its key.
    pub fn simulator_setup(&self, is_lock_script: bool, input_indices: &Vec<usize>) -> (r: SimulatorSetup)
        requires
            input_indices@.len() > 0,
        ensures
            r.is_lock_script == is_lock_script,
            r.script_index == input_indices@[0],
            r.vm_version == 2,
            exists|e: Seq<([u8; 32], String)>| #![trigger native_binaries_of(e)]
                entries_map(e) == self.simulator_binaries@ && distinct_keys(e)
                && r.native_binaries@.map_values(|b: (Vec<u8>, String)| (b.0@, b.1@)) == native_binaries_of(e),
    {
        let entries = self.simulator_binaries.entries();
        let mut native_binaries: Vec<(Vec<u8>, String)> = Vec::new();
        let mut i: usize = 0;
        while i < entries.len()
            invariant
                i <= entries@.len(),
                native_binaries@.len() == i,
                forall|j: int| 0 <= j < i ==> (#[trigger] native_binaries@[j]).0@ == native_binary_key_of(entries@[j].0@)
                    && native_binaries@[j].1@ == entries@[j].1@,
            decreases entries@.len() - i,
        {
            let key = native_binary_key(&entries[i].0);
            native_binaries.push((key, entries[i].1.clone()));
            i = i + 1;
        }
        assert(native_binaries@.map_values(|b: (Vec<u8>, String)| (b.0@, b.1@)) =~= native_binaries_of(entries@));
        SimulatorSetup { is_lock_script, script_index: input_indices[0], vm_version: 2, native_binaries }
    }
}

/// What a run over script groups does after one group.
#[derive(Debug, PartialEq, Eq)]
pub enum RunStep {
    /// Go on to the next group with the cycles used so far.
    Continue(u64),
    /// The group failed: the run stops with its error.
    Fail,
    /// The cycles used so far do not fit in a `u64`.
    Overflow,
}

/// The step of a run after a group: `used` is the cycles the group took, or `None`
/// where it failed; `total` is the cycles of the groups before it.
pub fn next_run_step(total: u64, used: Option<u64>) -> (r: RunStep)
    ensures
        used is None ==> r == RunStep::Fail,
        used matches Some(c) ==> r == if total + c <= u64::MAX {
            RunStep::Continue((total + c) as u64)
        } else {
            RunStep::Overflow
        },
{
    match used {
        None => RunStep::Fail,
        Some(c) => if c <= u64::MAX - total {
            RunStep::Continue(total + c)
        } else {
            RunStep::Overflow
        },
    }
}

} // verus!
