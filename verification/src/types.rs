//! The values that a verification context works on: out points, scripts, cells,
//! transactions and headers, each with the mathematical value it stands for.
use vstd::prelude::*;
use crate::table::{Duplicate, TableKey};

verus! {

/// Byte that marks a cell dependency whose cell is the code itself.
pub const DEP_TYPE_CODE: u8 = 0;

/// Byte that marks a cell dependency whose cell lists further out points.
pub const DEP_TYPE_DEP_GROUP: u8 = 1;

/// Byte of the script hash type that matches code by its cell's type script hash.
pub const HASH_TYPE_TYPE: u8 = 1;

/// Copies a byte vector.
pub fn copy_bytes(v: &Vec<u8>) -> (r: Vec<u8>)
    ensures
        r@ == v@,
{
    let mut r: Vec<u8> = Vec::new();
    let mut i: usize = 0;
    while i < v.len()
        invariant
            i <= v@.len(),
            r@ == v@.subrange(0, i as int),
        decreases v@.len() - i,
    {
        r.push(v[i]);
        i = i + 1;
    }
    assert(r@ =~= v@);
    r
}

/// The views of a list of byte vectors.
pub open spec fn byte_lists_view(v: Seq<Vec<u8>>) -> Seq<Seq<u8>> {
    v.map_values(|b: Vec<u8>| b@)
}

/// The views of a list of hashes.
pub open spec fn hashes_view(v: Seq<[u8; 32]>) -> Seq<Seq<u8>> {
    v.map_values(|b: [u8; 32]| b@)
}

/// Copies a list of byte vectors.
pub fn copy_byte_lists(v: &Vec<Vec<u8>>) -> (r: Vec<Vec<u8>>)
    ensures
        byte_lists_view(r@) == byte_lists_view(v@),
{
    let mut r: Vec<Vec<u8>> = Vec::new();
    let mut i: usize = 0;
    while i < v.len()
        invariant
            i <= v@.len(),
            r@.len() == i,
            forall|j: int| 0 <= j < i ==> #[trigger] r@[j]@ == v@[j]@,
        decreases v@.len() - i,
    {
        r.push(copy_bytes(&v[i]));
        i = i + 1;
    }
    assert(byte_lists_view(r@) =~= byte_lists_view(v@));
    r
}

/// Whether two 32-byte hashes are equal.
pub fn same_hash(a: &[u8; 32], b: &[u8; 32]) -> (r: bool)
    ensures
        r == (a@ == b@),
{
    let mut i: usize = 0;
    while i < 32
        invariant
            i <= 32,
            a@.len() == 32,
            b@.len() == 32,
            forall|j: int| 0 <= j < i ==> a@[j] == b@[j],
        decreases 32 - i,
    {
        if a[i] != b[i] {
            return false;
        }
        i = i + 1;
    }
    assert(a@ =~= b@);
    true
}

impl Duplicate for [u8; 32] {
    fn duplicate(&self) -> (r: Self) {
        *self
    }
}

impl TableKey for [u8; 32] {
    fn same_key(&self, other: &Self) -> (r: bool) {
        same_hash(self, other)
    }
}

impl Duplicate for Vec<u8> {
    fn duplicate(&self) -> (r: Self) {
        copy_bytes(self)
    }
}

impl Duplicate for String {
    fn duplicate(&self) -> (r: Self) {
        self.clone()
    }
}

/// The all-zero hash.
pub open spec fn zero_hash() -> Seq<u8> {
    Seq::new(32, |i: int| 0u8)
}

/// A reference to a cell: the hash of the transaction that made it and its index
/// among that transaction's outputs.
#[derive(Clone, Copy, Debug, PartialEq, Eq)]
pub struct OutPoint {
    pub tx_hash: [u8; 32],
    pub index: u32,
}

/// What an out point stands for.
pub struct OutPointModel {
    pub tx_hash: Seq<u8>,
    pub index: u32,
}

impl View for OutPoint {
    type V = OutPointModel;

    open spec fn view(&self) -> OutPointModel {
        OutPointModel { tx_hash: self.tx_hash@, index: self.index }
    }
}

impl Duplicate for OutPoint {
    fn duplicate(&self) -> (r: Self) {
        *self
    }
}

impl TableKey for OutPoint {
    fn same_key(&self, other: &Self) -> (r: bool) {
        same_hash(&self.tx_hash, &other.tx_hash) && self.index == other.index
    }
}

/// A script: the hash that selects its code, how that hash is matched, and its arguments.
#[derive(Debug, PartialEq, Eq)]
pub struct Script {
    pub code_hash: [u8; 32],
    pub hash_type: u8,
    pub args: Vec<u8>,
}

/// What a script stands for.
pub struct ScriptModel {
    pub code_hash: Seq<u8>,
    pub hash_type: u8,
    pub args: Seq<u8>,
}

impl View for Script {
    type V = ScriptModel;

    open spec fn view(&self) -> ScriptModel {
        ScriptModel { code_hash: self.code_hash@, hash_type: self.hash_type, args: self.args@ }
    }
}

impl Duplicate for Script {
    fn duplicate(&self) -> (r: Self) {
        Script { code_hash: self.code_hash, hash_type: self.hash_type, args: copy_bytes(&self.args) }
    }
}

impl Clone for Script {
    fn clone(&self) -> (r: Self)
        ensures
            r@ == self@,
    {
        self.duplicate()
    }
}

/// The script with an all-zero code hash, hash type byte 0 and no arguments.
pub open spec fn empty_script() -> ScriptModel {
    ScriptModel { code_hash: zero_hash(), hash_type: 0, args: Seq::empty() }
}

/// Returns the script with an all-zero code hash, hash type byte 0 and no arguments.
pub fn new_empty_script() -> (s: Script)
    ensures
        s@ == empty_script(),
{
    let s = Script { code_hash: [0u8; 32], hash_type: 0, args: Vec::new() };
    assert(s@.code_hash =~= zero_hash());
    s
}

/// The ways a script's code hash can be matched against cells.
#[derive(Clone, Copy, Debug, PartialEq, Eq)]
pub enum ScriptHashType {
    /// Matches the hash of the code cell's data; runs in the first VM version.
    Data,
    /// Matches the hash of the code cell's type script.
    Type,
    /// Matches the hash of the code cell's data; runs in the second VM version.
    Data1,
    /// Matches the hash of the code cell's data; runs in the third VM version.
    Data2,
}

/// The byte that stands for a hash type in a script.
pub open spec fn hash_type_byte(t: ScriptHashType) -> u8 {
    match t {
        ScriptHashType::Data => 0,
        ScriptHashType::Type => 1,
        ScriptHashType::Data1 => 2,
        ScriptHashType::Data2 => 4,
    }
}

impl ScriptHashType {
    /// The byte that stands for this hash type in a script.
    pub fn to_byte(self) -> (b: u8)
        ensures
            b == hash_type_byte(self),
    {
        match self {
            ScriptHashType::Data => 0,
            ScriptHashType::Type => 1,
            ScriptHashType::Data1 => 2,
            ScriptHashType::Data2 => 4,
        }
    }
}

/// A hash type byte that selects code by data hash and that this library can run.
pub open spec fn is_data_hash_type(b: u8) -> bool {
    b == 0 || b == 2 || b == 4
}

/// A cell's output: its capacity and its lock and optional type script.
#[derive(Debug, PartialEq, Eq)]
pub struct CellOutput {
    pub capacity: u64,
    pub lock: Script,
    pub type_: Option<Script>,
}

/// What a cell output stands for.
pub struct CellOutputModel {
    pub capacity: u64,
    pub lock: ScriptModel,
    pub type_: Option<ScriptModel>,
}

/// The view of an optional script.
pub open spec fn opt_script_view(s: Option<Script>) -> Option<ScriptModel> {
    match s {
        Some(s) => Some(s@),
        None => None,
    }
}

impl View for CellOutput {
    type V = CellOutputModel;

    open spec fn view(&self) -> CellOutputModel {
        CellOutputModel { capacity: self.capacity, lock: self.lock@, type_: opt_script_view(self.type_) }
    }
}

impl Duplicate for CellOutput {
    fn duplicate(&self) -> (r: Self) {
        let type_ = match &self.type_ {
            Some(s) => Some(s.duplicate()),
            None => None,
        };
        CellOutput { capacity: self.capacity, lock: self.lock.duplicate(), type_ }
    }
}

impl Clone for CellOutput {
    fn clone(&self) -> (r: Self)
        ensures
            r@ == self@,
    {
        self.duplicate()
    }
}

impl Duplicate for (CellOutput, Vec<u8>) {
    fn duplicate(&self) -> (r: Self) {
        (self.0.duplicate(), copy_bytes(&self.1))
    }
}

/// A cell dependency: an out point and the byte that says how it is used.
#[derive(Clone, Copy, Debug, PartialEq, Eq)]
pub struct CellDep {
    pub out_point: OutPoint,
    pub dep_type: u8,
}

/// What a cell dependency stands for.
pub struct CellDepModel {
    pub out_point: OutPointModel,
    pub dep_type: u8,
}

impl View for CellDep {
    type V = CellDepModel;

    open spec fn view(&self) -> CellDepModel {
        CellDepModel { out_point: self.out_point@, dep_type: self.dep_type }
    }
}

impl CellDep {
    /// Whether two cell dependencies are equal.
    pub fn same_dep(&self, other: &CellDep) -> (r: bool)
        ensures
            r == (self@ == other@),
    {
        self.out_point.same_key(&other.out_point) && self.dep_type == other.dep_type
    }
}

/// A transaction input: the out point it spends and its since value.
#[derive(Clone, Copy, Debug, PartialEq, Eq)]
pub struct CellInput {
    pub since: u64,
    pub previous_output: OutPoint,
}

/// What a transaction input stands for.
pub struct CellInputModel {
    pub since: u64,
    pub previous_output: OutPointModel,
}

impl View for CellInput {
    type V = CellInputModel;

    open spec fn view(&self) -> CellInputModel {
        CellInputModel { since: self.since, previous_output: self.previous_output@ }
    }
}

/// A transaction.
#[derive(Debug, PartialEq, Eq)]
pub struct Transaction {
    pub version: u32,
    pub cell_deps: Vec<CellDep>,
    pub header_deps: Vec<[u8; 32]>,
    pub inputs: Vec<CellInput>,
    pub outputs: Vec<CellOutput>,
    pub outputs_data: Vec<Vec<u8>>,
    pub witnesses: Vec<Vec<u8>>,
}

/// What a transaction stands for.
pub struct TransactionModel {
    pub version: u32,
    pub cell_deps: Seq<CellDepModel>,
    pub header_deps: Seq<Seq<u8>>,
    pub inputs: Seq<CellInputModel>,
    pub outputs: Seq<CellOutputModel>,
    pub outputs_data: Seq<Seq<u8>>,
    pub witnesses: Seq<Seq<u8>>,
}

/// The views of a list of cell dependencies.
pub open spec fn cell_deps_view(v: Seq<CellDep>) -> Seq<CellDepModel> {
    v.map_values(|d: CellDep| d@)
}

/// The views of a list of cell outputs.
pub open spec fn outputs_view(v: Seq<CellOutput>) -> Seq<CellOutputModel> {
    v.map_values(|c: CellOutput| c@)
}

impl View for Transaction {
    type V = TransactionModel;

    open spec fn view(&self) -> TransactionModel {
        TransactionModel {
            version: self.version,
            cell_deps: cell_deps_view(self.cell_deps@),
            header_deps: hashes_view(self.header_deps@),
            inputs: self.inputs@.map_values(|i: CellInput| i@),
            outputs: outputs_view(self.outputs@),
            outputs_data: byte_lists_view(self.outputs_data@),
            witnesses: byte_lists_view(self.witnesses@),
        }
    }
}

/// Copies a list of cell outputs.
pub fn copy_outputs(v: &Vec<CellOutput>) -> (r: Vec<CellOutput>)
    ensures
        outputs_view(r@) == outputs_view(v@),
{
    let mut r: Vec<CellOutput> = Vec::new();
    let mut i: usize = 0;
    while i < v.len()
        invariant
            i <= v@.len(),
            r@.len() == i,
            forall|j: int| 0 <= j < i ==> #[trigger] r@[j]@ == v@[j]@,
        decreases v@.len() - i,
    {
        r.push(v[i].duplicate());
        i = i + 1;
    }
    assert(outputs_view(r@) =~= outputs_view(v@));
    r
}

/// Copies a list of copyable values.
pub fn copy_list<T: Copy>(v: &Vec<T>) -> (r: Vec<T>)
    ensures
        r@ == v@,
{
    let mut r: Vec<T> = Vec::new();
    let mut i: usize = 0;
    while i < v.len()
        invariant
            i <= v@.len(),
            r@ == v@.subrange(0, i as int),
        decreases v@.len() - i,
    {
        r.push(v[i]);
        i = i + 1;
    }
    assert(r@ =~= v@);
    r
}

impl Duplicate for Transaction {
    fn duplicate(&self) -> (r: Self) {
        let r = Transaction {
            version: self.version,
            cell_deps: copy_list(&self.cell_deps),
            header_deps: copy_list(&self.header_deps),
            inputs: copy_list(&self.inputs),
            outputs: copy_outputs(&self.outputs),
            outputs_data: copy_byte_lists(&self.outputs_data),
            witnesses: copy_byte_lists(&self.witnesses),
        };
        r
    }
}

impl Clone for Transaction {
    fn clone(&self) -> (r: Self)
        ensures
            r@ == self@,
    {
        self.duplicate()
    }
}

/// A block header.
#[derive(Clone, Copy, Debug, PartialEq, Eq)]
pub struct Header {
    pub version: u32,
    pub compact_target: u32,
    pub timestamp: u64,
    pub number: u64,
    pub epoch: u64,
    pub parent_hash: [u8; 32],
    pub transactions_root: [u8; 32],
    pub proposals_hash: [u8; 32],
    pub extra_hash: [u8; 32],
    pub dao: [u8; 32],
    pub nonce: u128,
}

impl View for Header {
    type V = Header;

    open spec fn view(&self) -> Header {
        *self
    }
}

impl Duplicate for Header {
    fn duplicate(&self) -> (r: Self) {
        *self
    }
}

/// Where a cell was committed: block number, block epoch, block hash and the
/// transaction's index in the block.
#[derive(Clone, Copy, Debug, PartialEq, Eq)]
pub struct TransactionInfo {
    pub block_number: u64,
    pub block_epoch: u64,
    pub block_hash: [u8; 32],
    pub index: usize,
}

impl View for TransactionInfo {
    type V = TransactionInfo;

    open spec fn view(&self) -> TransactionInfo {
        *self
    }
}

impl Duplicate for TransactionInfo {
    fn duplicate(&self) -> (r: Self) {
        *self
    }
}

/// A debug message that a script printed, with the hash of the script group that printed it.
#[derive(Debug, PartialEq, Eq)]
pub struct Message {
    /// The current script hash.
    pub id: [u8; 32],
    /// Payload.
    pub message: String,
}

impl Clone for Message {
    fn clone(&self) -> (r: Self)
        ensures
            r.id@ == self.id@,
            r.message@ == self.message@,
    {
        Message { id: self.id, message: self.message.clone() }
    }
}

} // verus!
