//! The verification context: the cells, headers and block extensions that
//! transactions are checked against, and the operations that fill and read it.
use vstd::prelude::*;
use crate::primitives::{
    calc_data_hash, calc_data_hash_of, calc_header_hash, calc_header_hash_of, calc_script_hash,
    calc_script_hash_of, occupied_capacity, occupied_capacity_of, random_bytes,
    seeded_random_pair, std_rng_fills_of, type_id_code_hash, type_id_code_hash_bytes,
    copy_locked_messages, new_message_lock, pop_path, popped_path_of, push_path, pushed_path_of,
};
use std::sync::{Arc, Mutex};
use crate::table::{Duplicate, Table};
use crate::types::{
    copy_bytes, empty_script, new_empty_script, CellOutput, CellOutputModel, Header, Message,
    OutPoint, OutPointModel, Script, ScriptModel, TransactionInfo, HASH_TYPE_TYPE,
};

verus! {

/// Returns a random hash.
pub fn random_hash() -> (h: [u8; 32]) {
    random_bytes()
}

/// Returns a random out point: a random transaction hash and index 0.
pub fn random_out_point() -> (op: OutPoint)
    ensures
        op.index == 0,
{
    OutPoint { tx_hash: random_hash(), index: 0 }
}

/// The type ID script with the given arguments.
pub open spec fn type_id_script(args: Seq<u8>) -> ScriptModel {
    ScriptModel { code_hash: type_id_code_hash_bytes(), hash_type: HASH_TYPE_TYPE, args }
}

/// Returns a type ID script with 32 random bytes of arguments.
pub fn random_type_id_script() -> (s: Script)
    ensures
        s@ == type_id_script(s@.args),
        s@.args.len() == 32,
{
    let args = random_hash();
    Script { code_hash: type_id_code_hash(), hash_type: HASH_TYPE_TYPE, args: hash_to_vec(&args) }
}

/// Copies a 32-byte array into a vector.
fn hash_to_vec(h: &[u8; 32]) -> (v: Vec<u8>)
    ensures
        v@ == h@,
{
    let mut v: Vec<u8> = Vec::new();
    let mut i: usize = 0;
    while i < 32
        invariant
            i <= 32,
            h@.len() == 32,
            v@ == h@.subrange(0, i as int),
        decreases 32 - i,
    {
        v.push(h[i]);
        i = i + 1;
    }
    assert(v@ =~= h@);
    v
}

/// The directory under `$TOP` where built contracts are looked for first: `build`.
pub open spec fn top_build_dir_of(top: Seq<char>) -> Seq<char> {
    pushed_path_of(top, "build"@)
}

/// The default script search directory: `$TOP/build/$MODE` where `$TOP/build` exists,
/// otherwise `../build/$MODE` next to `$TOP`; the mode is `release` where `$MODE` is unset.
pub open spec fn default_contracts_dir_of(top: Seq<char>, mode: Option<Seq<char>>, top_build_exists: bool) -> Seq<char> {
    let build = if top_build_exists {
        top_build_dir_of(top)
    } else {
        pushed_path_of(popped_path_of(top_build_dir_of(top)), "../build"@)
    };
    pushed_path_of(build, match mode {
        Some(m) => m,
        None => "release"@,
    })
}

/// Returns `$TOP/build`, for `top` the value of `$TOP` (empty where it is unset).
pub fn top_build_dir(top: &str) -> (r: String)
    ensures
        r@ == top_build_dir_of(top@),
{
    push_path(top, "build")
}

/// Returns the default script search directory, for `top` the value of `$TOP` (empty
/// where it is unset), `mode` that of `$MODE`, and whether `$TOP/build` exists.
pub fn default_contracts_dir(top: &str, mode: Option<&str>, top_build_exists: bool) -> (r: String)
    ensures
        r@ == default_contracts_dir_of(top@, match mode {
            Some(m) => Some(m@),
            None => None,
        }, top_build_exists),
{
    let build = top_build_dir(top);
    let build = if top_build_exists {
        build
    } else {
        let parent = pop_path(build.as_str());
        push_path(parent.as_str(), "../build")
    };
    match mode {
        Some(m) => push_path(build.as_str(), m),
        None => push_path(build.as_str(), "release"),
    }
}

/// The cell that `deploy_cell` makes for code: an empty lock, the given type ID script
/// and the given capacity.
pub open spec fn deployed_cell(type_script: ScriptModel, capacity: u64) -> CellOutputModel {
    CellOutputModel { capacity, lock: empty_script(), type_: Some(type_script) }
}

/// The capacity of a deployed cell with `data_len` bytes of data, if it fits in a `u64`.
pub open spec fn deployed_capacity(data_len: int) -> Option<u64> {
    occupied_capacity_of(deployed_cell(type_id_script(Seq::new(32, |i: int| 0u8)), 0), data_len)
}

/// Verification context.
pub struct Context {
    pub cells: Table<OutPoint, (CellOutput, Vec<u8>)>,
    pub transaction_infos: Table<OutPoint, TransactionInfo>,
    pub headers: Table<[u8; 32], Header>,
    pub block_extensions: Table<[u8; 32], Vec<u8>>,
    pub cells_by_data_hash: Table<[u8; 32], OutPoint>,
    pub cells_by_type_hash: Table<[u8; 32], OutPoint>,
    pub deterministic_rng: bool,
    pub capture_debug: bool,
    /// The debug messages kept so far, in a buffer that every clone of the context shares.
    pub captured_messages: Arc<Mutex<Vec<Message>>>,
    pub contracts_dirs: Vec<String>,
    pub simulator_binaries: Table<[u8; 32], String>,
    pub simulator_bin_name: String,
}

/// What a debug message stands for: the script group hash and the text.
pub open spec fn message_view(m: Message) -> (Seq<u8>, Seq<char>) {
    (m.id@, m.message@)
}

impl Context {
    /// Whether out points of deployed code are derived from the code's data hash.
    pub open spec fn uses_deterministic_rng(&self) -> bool {
        self.deterministic_rng
    }

    /// Whether debug messages are kept rather than printed.
    pub open spec fn captures_debug(&self) -> bool {
        self.capture_debug
    }

    /// The message buffers of the two contexts are equal as values. Verus sees nothing
    /// inside a buffer; a clone holds a pointer to the same buffer as the context it
    /// was made from, which this equality does not tell apart from a separate buffer.
    pub open spec fn shares_messages_with(&self, other: &Context) -> bool {
        self.captured_messages == other.captured_messages
    }

    /// The script search directories added to this context, in order.
    pub open spec fn contract_dirs_view(&self) -> Seq<Seq<char>> {
        self.contracts_dirs@.map_values(|d: String| d@)
    }

    /// The settings of two contexts, the registered simulator libraries left aside, are
    /// equal, and their message buffers are equal as values.
    pub open spec fn same_settings_but_simulators(&self, other: &Context) -> bool {
        &&& self.uses_deterministic_rng() == other.uses_deterministic_rng()
        &&& self.captures_debug() == other.captures_debug()
        &&& self.shares_messages_with(other)
        &&& self.contract_dirs_view() == other.contract_dirs_view()
        &&& self.simulator_bin_name@ == other.simulator_bin_name@
    }

    /// The settings of two contexts are equal, and their message buffers are equal as values.
    pub open spec fn same_settings(&self, other: &Context) -> bool {
        &&& self.same_settings_but_simulators(other)
        &&& self.simulator_binaries@ == other.simulator_binaries@
    }

    /// Headers, transaction infos and block extensions of two contexts are equal.
    pub open spec fn same_chain_data(&self, other: &Context) -> bool {
        &&& self.transaction_infos@ == other.transaction_infos@
        &&& self.headers@ == other.headers@
        &&& self.block_extensions@ == other.block_extensions@
    }

    /// The cells and both indexes of two contexts are equal.
    pub open spec fn same_cells(&self, other: &Context) -> bool {
        &&& self.cells@ == other.cells@
        &&& self.cells_by_data_hash@ == other.cells_by_data_hash@
        &&& self.cells_by_type_hash@ == other.cells_by_type_hash@
    }

    /// Two contexts hold the same things.
    pub open spec fn same_as(&self, other: &Context) -> bool {
        self.same_cells(other) && self.same_chain_data(other) && self.same_settings(other)
    }

    /// Every out point that the data hash and type hash indexes name is a cell that the
    /// context holds.
    pub open spec fn indexes_held(&self) -> bool {
        &&& forall|h: Seq<u8>| #[trigger] self.cells_by_data_hash@.contains_key(h)
            ==> self.cells@.contains_key(self.cells_by_data_hash@[h])
        &&& forall|h: Seq<u8>| #[trigger] self.cells_by_type_hash@.contains_key(h)
            ==> self.cells@.contains_key(self.cells_by_type_hash@[h])
    }

    /// A context that holds no cells, headers, block extensions or simulator libraries,
    /// does not capture debug messages, and draws out points as `deterministic` says.
    pub open spec fn is_empty_with(&self, deterministic: bool) -> bool {
        &&& self.cells@ == Map::<OutPointModel, (CellOutputModel, Seq<u8>)>::empty()
        &&& self.transaction_infos@ == Map::<OutPointModel, TransactionInfo>::empty()
        &&& self.headers@ == Map::<Seq<u8>, Header>::empty()
        &&& self.block_extensions@ == Map::<Seq<u8>, Seq<u8>>::empty()
        &&& self.cells_by_data_hash@ == Map::<Seq<u8>, OutPointModel>::empty()
        &&& self.cells_by_type_hash@ == Map::<Seq<u8>, OutPointModel>::empty()
        &&& self.uses_deterministic_rng() == deterministic
        &&& !self.captures_debug()
        &&& self.simulator_binaries@ == Map::<Seq<u8>, Seq<char>>::empty()
        &&& self.simulator_bin_name@ == "lib<contract>_sim"@
    }

    /// A new context whose only script search directory is `contracts_dir`; out points
    /// of deployed code are derived from the code's data hash where `deterministic_rng`
    /// is set, and drawn at random otherwise.
    pub fn with_contracts_dir(contracts_dir: String, deterministic_rng: bool) -> (c: Context)
        ensures
            c.is_empty_with(deterministic_rng),
            c.indexes_held(),
            c.contract_dirs_view() == seq![contracts_dir@],
    {
        let ghost dir = contracts_dir@;
        let mut contracts_dirs: Vec<String> = Vec::new();
        contracts_dirs.push(contracts_dir);
        let c = Context {
            cells: Table::new(),
            transaction_infos: Table::new(),
            headers: Table::new(),
            block_extensions: Table::new(),
            cells_by_data_hash: Table::new(),
            cells_by_type_hash: Table::new(),
            deterministic_rng,
            capture_debug: false,
            captured_messages: Arc::new(new_message_lock()),
            contracts_dirs,
            simulator_binaries: Table::new(),
            simulator_bin_name: "lib<contract>_sim".to_owned(),
        };
        assert(c.contract_dirs_view() =~= seq![dir]);
        c
    }

    /// Add new script search paths. Note that this does not replace the default search paths.
    pub fn add_contract_dir(&mut self, path: &str)
        ensures
            final(self).contract_dirs_view() == old(self).contract_dirs_view().push(path@),
            final(self).same_cells(old(self)),
            final(self).same_chain_data(old(self)),
            final(self).uses_deterministic_rng() == old(self).uses_deterministic_rng(),
            final(self).captures_debug() == old(self).captures_debug(),
            final(self).shares_messages_with(old(self)),
            final(self).simulator_binaries@ == old(self).simulator_binaries@,
            final(self).simulator_bin_name@ == old(self).simulator_bin_name@,
    {
        let ghost before = self.contract_dirs_view();
        self.contracts_dirs.push(path.to_owned());
        assert(self.contract_dirs_view() =~= before.push(path@));
    }

    /// The script search directories of this context, in the order they are searched:
    /// the one it was made with, then those added.
    pub fn contract_dirs(&self) -> (dirs: &Vec<String>)
        ensures
            dirs@.map_values(|d: String| d@) == self.contract_dirs_view(),
    {
        &self.contracts_dirs
    }

    /// Return capture_debug flag.
    pub fn capture_debug(&self) -> (b: bool)
        ensures
            b == self.captures_debug(),
    {
        self.capture_debug
    }

    /// Capture debug output, default value is false.
    pub fn set_capture_debug(&mut self, capture_debug: bool)
        ensures
            final(self).captures_debug() == capture_debug,
            final(self).same_cells(old(self)),
            final(self).same_chain_data(old(self)),
            final(self).uses_deterministic_rng() == old(self).uses_deterministic_rng(),
            final(self).shares_messages_with(old(self)),
            final(self).contract_dirs_view() == old(self).contract_dirs_view(),
            final(self).simulator_binaries@ == old(self).simulator_binaries@,
            final(self).simulator_bin_name@ == old(self).simulator_bin_name@,
    {
        self.capture_debug = capture_debug;
    }

    /// Return captured messages; `None` where the shared message buffer is locked at
    /// this moment.
    pub fn captured_messages(&self) -> Option<Vec<Message>> {
        copy_locked_messages(&self.captured_messages)
    }

    /// Get the out-point of a cell by data_hash. The cell must has deployed to this context.
    pub fn get_cell_by_data_hash(&self, data_hash: &[u8; 32]) -> (r: Option<OutPoint>)
        ensures
            r is Some <==> self.cells_by_data_hash@.contains_key(data_hash@),
            r matches Some(op) ==> op@ == self.cells_by_data_hash@[data_hash@],
    {
        match self.cells_by_data_hash.get(data_hash) {
            Some(op) => Some(*op),
            None => None,
        }
    }

    /// Get cell output and data by out-point.
    pub fn get_cell(&self, out_point: &OutPoint) -> (r: Option<(CellOutput, Vec<u8>)>)
        ensures
            r is Some <==> self.cells@.contains_key(out_point@),
            r matches Some(c) ==> c@ == self.cells@[out_point@],
    {
        match self.cells.get(out_point) {
            Some(c) => Some(c.duplicate()),
            None => None,
        }
    }

    /// The data of the cell at the out point, if the context holds it.
    pub fn get_cell_data(&self, out_point: &OutPoint) -> (r: Option<Vec<u8>>)
        ensures
            r is Some <==> self.cells@.contains_key(out_point@),
            r matches Some(d) ==> d@ == self.cells@[out_point@].1,
    {
        match self.cells.get(out_point) {
            Some(c) => Some(copy_bytes(&c.1)),
            None => None,
        }
    }

    /// The data hash of the cell at the out point, if the context holds it.
    pub fn get_cell_data_hash(&self, out_point: &OutPoint) -> (r: Option<[u8; 32]>)
        ensures
            r is Some <==> self.cells@.contains_key(out_point@),
            r matches Some(h) ==> h@ == calc_data_hash_of(self.cells@[out_point@].1),
    {
        match self.cells.get(out_point) {
            Some(c) => Some(calc_data_hash(c.1.as_slice())),
            None => None,
        }
    }

    /// The header with the given hash, if the context holds it.
    pub fn get_header(&self, block_hash: &[u8; 32]) -> (r: Option<Header>)
        ensures
            r is Some <==> self.headers@.contains_key(block_hash@),
            r matches Some(h) ==> h == self.headers@[block_hash@],
    {
        match self.headers.get(block_hash) {
            Some(h) => Some(*h),
            None => None,
        }
    }

    /// The extension of the block with the given hash, if the context holds one.
    pub fn get_block_extension(&self, block_hash: &[u8; 32]) -> (r: Option<Vec<u8>>)
        ensures
            r is Some <==> self.block_extensions@.contains_key(block_hash@),
            r matches Some(e) ==> e@ == self.block_extensions@[block_hash@],
    {
        match self.block_extensions.get(block_hash) {
            Some(e) => Some(copy_bytes(e)),
            None => None,
        }
    }

    /// Insert a block header into context. Afterwards, the header can be retrieved by its hash.
    pub fn insert_header(&mut self, header: Header)
        ensures
            final(self).headers@ == old(self).headers@.insert(calc_header_hash_of(header), header),
            final(self).same_cells(old(self)),
            final(self).transaction_infos@ == old(self).transaction_infos@,
            final(self).block_extensions@ == old(self).block_extensions@,
            final(self).same_settings(old(self)),
    {
        let hash = calc_header_hash(&header);
        self.headers.insert(hash, header);
    }

    /// Link a cell with a block to make the load_header_by_cell syscalls works.
    pub fn link_cell_with_block(&mut self, out_point: OutPoint, block_hash: [u8; 32], tx_index: usize)
        requires
            old(self).headers@.contains_key(block_hash@),
        ensures
            final(self).transaction_infos@ == old(self).transaction_infos@.insert(
                out_point@,
                (TransactionInfo {
                    block_number: old(self).headers@[block_hash@].number,
                    block_epoch: old(self).headers@[block_hash@].epoch,
                    block_hash,
                    index: tx_index,
                }),
            ),
            final(self).same_cells(old(self)),
            final(self).headers@ == old(self).headers@,
            final(self).block_extensions@ == old(self).block_extensions@,
            final(self).same_settings(old(self)),
    {
        let (number, epoch) = match self.headers.get(&block_hash) {
            Some(h) => (h.number, h.epoch),
            None => (0, 0),
        };
        self.transaction_infos.insert(
            out_point,
            TransactionInfo { block_number: number, block_epoch: epoch, block_hash, index: tx_index },
        );
    }
}


/// The cell that `create_cell_with_out_point` leaves in `new`, and the indexes it sets,
/// starting from `old`.
pub open spec fn cell_created(old: &Context, new: &Context, op: OutPointModel, cell: CellOutputModel, data: Seq<u8>) -> bool {
    &&& cell_added(old, new, op, cell, data)
    &&& new.same_chain_data(old)
    &&& new.same_settings(old)
}

/// The cell at `op` and the index entries that `create_cell_with_out_point` adds to
/// `old`, as `new` holds them; the rest of the context is left aside.
pub open spec fn cell_added(old: &Context, new: &Context, op: OutPointModel, cell: CellOutputModel, data: Seq<u8>) -> bool {
    &&& new.cells@ == old.cells@.insert(op, (cell, data))
    &&& new.cells_by_data_hash@ == old.cells_by_data_hash@.insert(calc_data_hash_of(data), op)
    &&& new.cells_by_type_hash@ == match cell.type_ {
        Some(t) => old.cells_by_type_hash@.insert(calc_script_hash_of(t), op),
        None => old.cells_by_type_hash@,
    }
}

/// `new` is `old` after code with the given data was deployed at `op` for the first time:
/// the cell holds the data, an empty lock and a type ID script, and occupies exactly its
/// capacity; both indexes point at it. In a deterministic context the out point's hash
/// and the type ID arguments are the first two blocks of the generator seeded with the
/// data hash.
pub open spec fn code_deployed(old: &Context, new: &Context, op: OutPoint, data: Seq<u8>) -> bool {
    &&& code_added(old, new, op, data)
    &&& new.same_chain_data(old)
    &&& new.same_settings(old)
}

/// The cell and index entries that deploying new code at `op` adds to `old`, as `new`
/// holds them (see `code_deployed`); the rest of the context is left aside.
pub open spec fn code_added(old: &Context, new: &Context, op: OutPoint, data: Seq<u8>) -> bool {
    let data_hash = calc_data_hash_of(data);
    &&& op.index == 0
    &&& new.cells@.contains_key(op@)
    &&& new.cells@[op@].0.type_ is Some
    &&& {
        let type_script = new.cells@[op@].0.type_->0;
        let capacity = new.cells@[op@].0.capacity;
        &&& type_script == type_id_script(type_script.args)
        &&& type_script.args.len() == 32
        &&& Some(capacity) == deployed_capacity(data.len() as int)
        &&& cell_added(old, new, op@, deployed_cell(type_script, capacity), data)
        &&& old.deterministic_rng ==> op.tx_hash@ == std_rng_fills_of(data_hash).0
            && type_script.args == std_rng_fills_of(data_hash).1
    }
}

impl Context {
    /// Create cell with specified out-point and cell data.
    pub fn create_cell_with_out_point(&mut self, out_point: OutPoint, cell: CellOutput, data: Vec<u8>)
        ensures
            cell_created(old(self), final(self), out_point@, cell@, data@),
            old(self).indexes_held() ==> final(self).indexes_held(),
    {
        let data_hash = calc_data_hash(data.as_slice());
        self.cells_by_data_hash.insert(data_hash, out_point);
        match &cell.type_ {
            Some(t) => {
                let type_hash = calc_script_hash(t);
                self.cells_by_type_hash.insert(type_hash, out_point);
            },
            None => {},
        }
        self.cells.insert(out_point, (cell, data));
    }

    /// Create a cell with data.
    pub fn create_cell(&mut self, cell: CellOutput, data: Vec<u8>) -> (op: OutPoint)
        ensures
            op.index == 0,
            cell_created(old(self), final(self), op@, cell@, data@),
            old(self).indexes_held() ==> final(self).indexes_held(),
    {
        let out_point = random_out_point();
        self.create_cell_with_out_point(out_point, cell, data);
        out_point
    }

    /// Whether `deploy_cell` can take the data: it was deployed before, or the capacity
    /// of a cell that holds it fits in a `u64`.
    pub fn can_deploy_cell(&self, data: &[u8]) -> (r: bool)
        ensures
            r == (self.cells_by_data_hash@.contains_key(calc_data_hash_of(data@))
                || deployed_capacity(data@.len() as int) is Some),
    {
        let data_hash = calc_data_hash(data);
        if self.cells_by_data_hash.contains_key(&data_hash) {
            return true;
        }
        let zeros = [0u8; 32];
        let type_script = Script { code_hash: type_id_code_hash(), hash_type: HASH_TYPE_TYPE, args: hash_to_vec(&zeros) };
        let cell = CellOutput { capacity: 0, lock: new_empty_script(), type_: Some(type_script) };
        assert(cell@ == deployed_cell(type_id_script(Seq::new(32, |i: int| 0u8)), 0)) by {
            assert(zeros@ =~= Seq::new(32, |i: int| 0u8));
        }
        occupied_capacity(&cell, data.len()).is_some()
    }

    /// Deploy a cell.
    pub fn deploy_cell(&mut self, data: Vec<u8>) -> (op: OutPoint)
        requires
            old(self).cells_by_data_hash@.contains_key(calc_data_hash_of(data@))
                || deployed_capacity(data@.len() as int) is Some,
        ensures
            old(self).cells_by_data_hash@.contains_key(calc_data_hash_of(data@)) ==> {
                &&& op@ == old(self).cells_by_data_hash@[calc_data_hash_of(data@)]
                &&& final(self).same_as(old(self))
            },
            !old(self).cells_by_data_hash@.contains_key(calc_data_hash_of(data@)) ==>
                code_deployed(old(self), final(self), op, data@),
            old(self).indexes_held() ==> final(self).indexes_held(),
    {
        let data_hash = calc_data_hash(data.as_slice());
        match self.cells_by_data_hash.get(&data_hash) {
            Some(out_point) => {
                // Contract has already been deployed.
                return *out_point;
            },
            None => {},
        }
        let (out_point, type_id_script) = if self.deterministic_rng {
            let (tx_hash, script_args) = seeded_random_pair(&data_hash);
            (
                OutPoint { tx_hash, index: 0 },
                Script { code_hash: type_id_code_hash(), hash_type: HASH_TYPE_TYPE, args: hash_to_vec(&script_args) },
            )
        } else {
            (random_out_point(), random_type_id_script())
        };
        let ghost ts = type_id_script@;
        let type_id_hash = calc_script_hash(&type_id_script);
        let cell = CellOutput { capacity: 0, lock: new_empty_script(), type_: Some(type_id_script) };
        assert(occupied_capacity_of(cell@, data@.len() as int) == deployed_capacity(data@.len() as int));
        let capacity = match occupied_capacity(&cell, data.len()) {
            Some(c) => c,
            None => 0,
        };
        let cell = CellOutput { capacity, lock: cell.lock, type_: cell.type_ };
        self.cells.insert(out_point, (cell, data));
        self.cells_by_data_hash.insert(data_hash, out_point);
        self.cells_by_type_hash.insert(type_id_hash, out_point);
        proof {
            assert(self.cells@[out_point@].0.type_->0 == ts);
        }
        out_point
    }

    /// Deploy a cell where `deploy_cell` can take the data; `None`, with the context
    /// unchanged, where the data is new and a cell holding it would need a capacity that
    /// does not fit in a `u64`.
    pub fn try_deploy_cell(&mut self, data: Vec<u8>) -> (r: Option<OutPoint>)
        ensures
            r is Some <==> (old(self).cells_by_data_hash@.contains_key(calc_data_hash_of(data@))
                || deployed_capacity(data@.len() as int) is Some),
            r is None ==> final(self).same_as(old(self)),
            r matches Some(op) ==> {
                &&& old(self).cells_by_data_hash@.contains_key(calc_data_hash_of(data@)) ==> {
                    &&& op@ == old(self).cells_by_data_hash@[calc_data_hash_of(data@)]
                    &&& final(self).same_as(old(self))
                }
                &&& !old(self).cells_by_data_hash@.contains_key(calc_data_hash_of(data@)) ==>
                    code_deployed(old(self), final(self), op, data@)
            },
            old(self).indexes_held() ==> final(self).indexes_held(),
    {
        if self.can_deploy_cell(data.as_slice()) {
            Some(self.deploy_cell(data))
        } else {
            None
        }
    }
}

impl Clone for Context {
    /// A copy of the cells, chain data and settings; the copy shares the message buffer.
    fn clone(&self) -> (c: Context)
        ensures
            c.same_as(self),
    {
        let mut contracts_dirs: Vec<String> = Vec::new();
        let mut i: usize = 0;
        while i < self.contracts_dirs.len()
            invariant
                i <= self.contracts_dirs@.len(),
                contracts_dirs@.len() == i,
                forall|j: int| 0 <= j < i ==> (#[trigger] contracts_dirs@[j])@ == self.contracts_dirs@[j]@,
            decreases self.contracts_dirs@.len() - i,
        {
            contracts_dirs.push(self.contracts_dirs[i].clone());
            i = i + 1;
        }
        let c = Context {
            cells: self.cells.duplicate(),
            transaction_infos: self.transaction_infos.duplicate(),
            headers: self.headers.duplicate(),
            block_extensions: self.block_extensions.duplicate(),
            cells_by_data_hash: self.cells_by_data_hash.duplicate(),
            cells_by_type_hash: self.cells_by_type_hash.duplicate(),
            deterministic_rng: self.deterministic_rng,
            capture_debug: self.capture_debug,
            captured_messages: self.captured_messages.clone(),
            contracts_dirs,
            simulator_binaries: self.simulator_binaries.duplicate(),
            simulator_bin_name: self.simulator_bin_name.clone(),
        };
        assert(c.contract_dirs_view() =~= self.contract_dirs_view());
        c
    }
}

/// What the message buffer holds, message by message.
pub open spec fn messages_view(ms: Seq<Message>) -> Seq<(Seq<u8>, Seq<char>)> {
    ms.map_values(|m: Message| message_view(m))
}

/// Hands the debug messages that scripts printed, in order, to a context's message
/// buffer: where the context captures debug output they are appended to the buffer and
/// nothing is left to print; otherwise the buffer stays as it was and their texts come
/// back, in order, to be printed.
pub fn record_debug_messages(captured: &mut Vec<Message>, capture_debug: bool, messages: Vec<Message>) -> (printed: Vec<String>)
    ensures
        capture_debug ==> messages_view(final(captured)@) == messages_view(old(captured)@) + messages_view(messages@),
        capture_debug ==> printed@.len() == 0,
        !capture_debug ==> final(captured)@ == old(captured)@,
        !capture_debug ==> printed@.map_values(|p: String| p@) == messages@.map_values(|m: Message| m.message@),
{
    let ghost before = messages_view(captured@);
    let mut printed: Vec<String> = Vec::new();
    let mut i: usize = 0;
    while i < messages.len()
        invariant
            i <= messages@.len(),
            capture_debug ==> messages_view(captured@) == before + messages_view(messages@.subrange(0, i as int)),
            capture_debug ==> printed@.len() == 0,
            !capture_debug ==> captured@ == old(captured)@,
            !capture_debug ==> printed@.map_values(|p: String| p@)
                == messages@.subrange(0, i as int).map_values(|m: Message| m.message@),
            before == messages_view(old(captured)@),
        decreases messages@.len() - i,
    {
        let m = &messages[i];
        let ghost pv = printed@.map_values(|p: String| p@);
        let ghost cv = messages_view(captured@);
        if capture_debug {
            captured.push(Message { id: m.id, message: m.message.clone() });
            assert(messages_view(captured@) =~= cv.push(message_view(messages@[i as int])));
        } else {
            printed.push(m.message.clone());
            assert(printed@.map_values(|p: String| p@) =~= pv.push(messages@[i as int].message@));
        }
        assert(messages@.subrange(0, i + 1) =~= messages@.subrange(0, i as int).push(messages@[i as int]));
        assert(messages_view(messages@.subrange(0, i + 1)) =~= messages_view(messages@.subrange(0, i as int)).push(
            message_view(messages@[i as int])));
        assert(messages@.subrange(0, i + 1).map_values(|m: Message| m.message@) =~= messages@.subrange(0, i as int).map_values(
            |m: Message| m.message@).push(messages@[i as int].message@));
        i = i + 1;
    }
    assert(messages@.subrange(0, messages@.len() as int) =~= messages@);
    printed
}

} // verus!
