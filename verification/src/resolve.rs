//! Resolving a transaction against a context: the cells that its inputs spend and
//! its cell dependencies name, and the mock transaction that records them.
use vstd::prelude::*;
use crate::context::Context;
use crate::primitives::{le_u32_at, out_point_size, parse_out_point_vec, parse_out_points};
use crate::table::Duplicate;
use crate::tx_verifier::{OutputsDataVerifier, TransactionError};
use crate::types::{
    copy_bytes, CellDep, CellDepModel, CellInput, CellInputModel, CellOutput, CellOutputModel,
    Header, OutPoint, OutPointModel, Transaction, TransactionInfo, TransactionModel,
    DEP_TYPE_CODE, DEP_TYPE_DEP_GROUP,
};

verus! {

/// A cell together with where it is and where it was committed.
#[derive(Debug, PartialEq, Eq)]
pub struct CellMeta {
    pub cell_output: CellOutput,
    pub out_point: OutPoint,
    pub transaction_info: Option<TransactionInfo>,
    pub data: Vec<u8>,
}

/// What a resolved cell stands for.
pub struct CellMetaModel {
    pub cell_output: CellOutputModel,
    pub out_point: OutPointModel,
    pub transaction_info: Option<TransactionInfo>,
    pub data: Seq<u8>,
}

impl View for CellMeta {
    type V = CellMetaModel;

    open spec fn view(&self) -> CellMetaModel {
        CellMetaModel {
            cell_output: self.cell_output@,
            out_point: self.out_point@,
            transaction_info: self.transaction_info,
            data: self.data@,
        }
    }
}

/// The views of a list of resolved cells.
pub open spec fn metas_view(v: Seq<CellMeta>) -> Seq<CellMetaModel> {
    v.map_values(|m: CellMeta| m@)
}

/// A transaction with the cells its inputs spend and its dependencies name.
#[derive(Debug, PartialEq, Eq)]
pub struct ResolvedTransaction {
    pub transaction: Transaction,
    pub resolved_cell_deps: Vec<CellMeta>,
    pub resolved_inputs: Vec<CellMeta>,
    pub resolved_dep_groups: Vec<CellMeta>,
}

/// What a resolved transaction stands for.
pub struct ResolvedTransactionModel {
    pub transaction: TransactionModel,
    pub resolved_cell_deps: Seq<CellMetaModel>,
    pub resolved_inputs: Seq<CellMetaModel>,
    pub resolved_dep_groups: Seq<CellMetaModel>,
}

impl View for ResolvedTransaction {
    type V = ResolvedTransactionModel;

    open spec fn view(&self) -> ResolvedTransactionModel {
        ResolvedTransactionModel {
            transaction: self.transaction@,
            resolved_cell_deps: metas_view(self.resolved_cell_deps@),
            resolved_inputs: metas_view(self.resolved_inputs@),
            resolved_dep_groups: metas_view(self.resolved_dep_groups@),
        }
    }
}

/// The resolved cell at `op`, as the context holds it.
pub open spec fn cell_meta_for(ctx: &Context, op: OutPointModel) -> CellMetaModel {
    CellMetaModel {
        cell_output: ctx.cells@[op].0,
        out_point: op,
        transaction_info: if ctx.transaction_infos@.contains_key(op) {
            Some(ctx.transaction_infos@[op])
        } else {
            None
        },
        data: ctx.cells@[op].1,
    }
}

/// The resolved cells at the out points, in order.
pub open spec fn metas_for(ctx: &Context, ops: Seq<OutPointModel>) -> Seq<CellMetaModel> {
    ops.map_values(|op: OutPointModel| cell_meta_for(ctx, op))
}

/// The out points that a cell dependency brings in: those listed in the group cell's
/// data for a dep group, otherwise its own out point.
pub open spec fn dep_out_points(ctx: &Context, dep: CellDepModel) -> Seq<OutPointModel> {
    if dep.dep_type == DEP_TYPE_DEP_GROUP {
        parse_out_point_vec(ctx.cells@[dep.out_point].1)->0
    } else {
        seq![dep.out_point]
    }
}

/// The out points that the cell dependencies bring in, dependency by dependency.
pub open spec fn deps_out_points(ctx: &Context, deps: Seq<CellDepModel>) -> Seq<OutPointModel>
    decreases deps.len(),
{
    if deps.len() == 0 {
        Seq::empty()
    } else {
        deps_out_points(ctx, deps.drop_last()) + dep_out_points(ctx, deps.last())
    }
}

/// The out points of the dep group dependencies, in order.
pub open spec fn group_out_points(deps: Seq<CellDepModel>) -> Seq<OutPointModel>
    decreases deps.len(),
{
    if deps.len() == 0 {
        Seq::empty()
    } else if deps.last().dep_type == DEP_TYPE_DEP_GROUP {
        group_out_points(deps.drop_last()).push(deps.last().out_point)
    } else {
        group_out_points(deps.drop_last())
    }
}

/// The out points that the inputs spend.
pub open spec fn input_out_points(inputs: Seq<CellInputModel>) -> Seq<OutPointModel> {
    inputs.map_values(|i: CellInputModel| i.previous_output)
}

/// The transaction resolved against the context.
pub open spec fn resolved_tx(ctx: &Context, tx: TransactionModel) -> ResolvedTransactionModel {
    ResolvedTransactionModel {
        transaction: tx,
        resolved_cell_deps: metas_for(ctx, deps_out_points(ctx, tx.cell_deps)),
        resolved_inputs: metas_for(ctx, input_out_points(tx.inputs)),
        resolved_dep_groups: metas_for(ctx, group_out_points(tx.cell_deps)),
    }
}

/// The context holds the cell of the dependency and, for a dep group, the group cell's
/// data is an out point vector whose cells the context all holds.
pub open spec fn dep_resolvable(ctx: &Context, dep: CellDepModel) -> bool {
    &&& ctx.cells@.contains_key(dep.out_point)
    &&& dep.dep_type == DEP_TYPE_DEP_GROUP ==> {
        let listed = parse_out_point_vec(ctx.cells@[dep.out_point].1);
        &&& listed is Some
        &&& forall|k: int| 0 <= k < listed->0.len() ==> ctx.cells@.contains_key(#[trigger] listed->0[k])
    }
}

/// The context holds every cell that the transaction's inputs spend and its
/// dependencies name.
pub open spec fn resolvable(ctx: &Context, tx: TransactionModel) -> bool {
    &&& forall|i: int| 0 <= i < tx.inputs.len() ==> ctx.cells@.contains_key(#[trigger] tx.inputs[i].previous_output)
    &&& forall|j: int| 0 <= j < tx.cell_deps.len() ==> dep_resolvable(ctx, #[trigger] tx.cell_deps[j])
}

/// Reads the little-endian `u32` at `at`.
fn read_le_u32(data: &[u8], at: usize) -> (r: u32)
    requires
        at + 4 <= data@.len(),
    ensures
        r == le_u32_at(data@, at as int),
{
    let b0 = data[at] as u32;
    let b1 = data[at + 1] as u32;
    let b2 = data[at + 2] as u32;
    let b3 = data[at + 3] as u32;
    b0 + b1 * 0x100 + b2 * 0x10000 + b3 * 0x1000000
}

impl Context {
    /// The resolved cell at `op`.
    fn cell_meta(&self, op: &OutPoint) -> (m: CellMeta)
        requires
            self.cells@.contains_key(op@),
        ensures
            m@ == cell_meta_for(self, op@),
    {
        let (cell_output, data) = match self.cells.get(op) {
            Some(c) => c.duplicate(),
            None => (CellOutput { capacity: 0, lock: crate::types::new_empty_script(), type_: None }, Vec::new()),
        };
        let transaction_info = match self.transaction_infos.get(op) {
            Some(info) => Some(*info),
            None => None,
        };
        CellMeta { cell_output, out_point: *op, transaction_info, data }
    }

    /// The out points listed in the data of the dep group cell at `op`.
    fn group_members(&self, op: &OutPoint) -> (ops: Vec<OutPoint>)
        requires
            self.cells@.contains_key(op@),
            parse_out_point_vec(self.cells@[op@].1) is Some,
        ensures
            ops@.map_values(|o: OutPoint| o@) == parse_out_point_vec(self.cells@[op@].1)->0,
    {
        match self.cells.get(op) {
            Some(c) => {
                let data = c.1.as_slice();
                let len = data.len();
                assert(len == 4 + out_point_size() * le_u32_at(data@, 0));
                match parse_out_points(data) {
                    Some(ops) => ops,
                    None => Vec::new(),
                }
            },
            None => Vec::new(),
        }
    }

    /// Whether the context holds every cell that the transaction's inputs spend and its
    /// dependencies name, so that it can be resolved.
    pub fn can_resolve(&self, tx: &Transaction) -> (r: bool)
        ensures
            r == resolvable(self, tx@),
    {
        let mut i: usize = 0;
        while i < tx.inputs.len()
            invariant
                i <= tx.inputs@.len(),
                forall|k: int| 0 <= k < i ==> self.cells@.contains_key(#[trigger] tx@.inputs[k].previous_output),
            decreases tx.inputs@.len() - i,
        {
            if !self.cells.contains_key(&tx.inputs[i].previous_output) {
                assert(!self.cells@.contains_key(tx@.inputs[i as int].previous_output));
                return false;
            }
            i = i + 1;
        }
        let mut j: usize = 0;
        while j < tx.cell_deps.len()
            invariant
                j <= tx.cell_deps@.len(),
                forall|k: int| 0 <= k < tx@.inputs.len() ==> self.cells@.contains_key(#[trigger] tx@.inputs[k].previous_output),
                forall|k: int| 0 <= k < j ==> dep_resolvable(self, #[trigger] tx@.cell_deps[k]),
            decreases tx.cell_deps@.len() - j,
        {
            let dep = tx.cell_deps[j];
            assert(tx@.cell_deps[j as int] == dep@);
            if !self.dep_can_resolve(&dep) {
                return false;
            }
            j = j + 1;
        }
        true
    }

    /// Whether the dependency can be resolved against the context.
    fn dep_can_resolve(&self, dep: &CellDep) -> (r: bool)
        ensures
            r == dep_resolvable(self, dep@),
    {
        let c = match self.cells.get(&dep.out_point) {
            Some(c) => c,
            None => {
                return false;
            },
        };
        if dep.dep_type != DEP_TYPE_DEP_GROUP {
            return true;
        }
        let data = c.1.as_slice();
        if data.len() >= 4 {
            let count = read_le_u32(data, 0) as u64;
            if data.len() as u64 != 4 + 36 * count {
                assert(parse_out_point_vec(data@) is None);
                return false;
            }
        } else {
            assert(parse_out_point_vec(data@) is None);
            return false;
        }
        let ops = match parse_out_points(data) {
            Some(ops) => ops,
            None => {
                return false;
            },
        };
        let ghost listed = parse_out_point_vec(data@)->0;
        assert(data@ == self.cells@[dep.out_point@].1);
        let mut k: usize = 0;
        while k < ops.len()
            invariant
                k <= ops@.len(),
                ops@.map_values(|o: OutPoint| o@) == listed,
                forall|m: int| 0 <= m < k ==> self.cells@.contains_key(#[trigger] listed[m]),
                dep.dep_type == DEP_TYPE_DEP_GROUP,
                self.cells@.contains_key(dep.out_point@),
                parse_out_point_vec(self.cells@[dep.out_point@].1) == Some(listed),
            decreases ops@.len() - k,
        {
            assert(listed[k as int] == ops@[k as int]@);
            if !self.cells.contains_key(&ops[k]) {
                assert(!self.cells@.contains_key(listed[k as int]));
                assert(!(forall|m: int| 0 <= m < listed.len() ==> self.cells@.contains_key(#[trigger] listed[m])));
                let ghost lst = parse_out_point_vec(self.cells@[dep@.out_point].1);
                assert(lst->0 == listed);
                assert(!(forall|m: int| 0 <= m < lst->0.len() ==> self.cells@.contains_key(#[trigger] lst->0[m])));
                assert(!dep_resolvable(self, dep@));
                return false;
            }
            k = k + 1;
        }
        true
    }
}

impl Context {
    /// Build transaction with resolved input cells.
    pub fn build_resolved_tx(&self, tx: &Transaction) -> (r: ResolvedTransaction)
        requires
            resolvable(self, tx@),
        ensures
            r@ == resolved_tx(self, tx@),
    {
        let ghost t = tx@;
        let mut resolved_inputs: Vec<CellMeta> = Vec::new();
        let mut i: usize = 0;
        while i < tx.inputs.len()
            invariant
                i <= tx.inputs@.len(),
                t == tx@,
                resolvable(self, t),
                resolved_inputs@.len() == i,
                forall|k: int| 0 <= k < i ==> #[trigger] resolved_inputs@[k]@
                    == cell_meta_for(self, t.inputs[k].previous_output),
            decreases tx.inputs@.len() - i,
        {
            assert(t.inputs[i as int] == tx.inputs@[i as int]@);
            assert(self.cells@.contains_key(t.inputs[i as int].previous_output));
            resolved_inputs.push(self.cell_meta(&tx.inputs[i].previous_output));
            i = i + 1;
        }
        assert(metas_view(resolved_inputs@) =~= metas_for(self, input_out_points(t.inputs)));

        let mut resolved_cell_deps: Vec<CellMeta> = Vec::new();
        let mut resolved_dep_groups: Vec<CellMeta> = Vec::new();
        let mut j: usize = 0;
        while j < tx.cell_deps.len()
            invariant
                j <= tx.cell_deps@.len(),
                t == tx@,
                resolvable(self, t),
                metas_view(resolved_cell_deps@) == metas_for(self, deps_out_points(self, t.cell_deps.take(j as int))),
                metas_view(resolved_dep_groups@) == metas_for(self, group_out_points(t.cell_deps.take(j as int))),
            decreases tx.cell_deps@.len() - j,
        {
            let dep = tx.cell_deps[j];
            let ghost prefix = t.cell_deps.take(j as int);
            let ghost before = metas_view(resolved_cell_deps@);
            assert(t.cell_deps[j as int] == dep@);
            assert(dep_resolvable(self, dep@));
            proof {
                let next = t.cell_deps.take(j + 1);
                assert(next.drop_last() =~= prefix);
                assert(next.last() == dep@);
            }
            if dep.dep_type == DEP_TYPE_DEP_GROUP {
                let ghost groups_before = metas_view(resolved_dep_groups@);
                resolved_dep_groups.push(self.cell_meta(&dep.out_point));
                assert(metas_view(resolved_dep_groups@) =~= groups_before.push(cell_meta_for(self, dep@.out_point)));
                assert(metas_for(self, group_out_points(prefix).push(dep@.out_point))
                    =~= metas_for(self, group_out_points(prefix)).push(cell_meta_for(self, dep@.out_point)));
                let members = self.group_members(&dep.out_point);
                let ghost listed = dep_out_points(self, dep@);
                let mut k: usize = 0;
                while k < members.len()
                    invariant
                        k <= members@.len(),
                        members@.map_values(|o: OutPoint| o@) == listed,
                        forall|m: int| 0 <= m < listed.len() ==> self.cells@.contains_key(#[trigger] listed[m]),
                        metas_view(resolved_cell_deps@) == before + metas_for(self, listed.take(k as int)),
                    decreases members@.len() - k,
                {
                    let ghost b2 = metas_view(resolved_cell_deps@);
                    assert(listed[k as int] == members@[k as int]@);
                    resolved_cell_deps.push(self.cell_meta(&members[k]));
                    assert(metas_for(self, listed.take(k + 1)) =~= metas_for(self, listed.take(k as int)).push(
                        cell_meta_for(self, listed[k as int])));
                    assert(metas_view(resolved_cell_deps@) =~= b2.push(cell_meta_for(self, listed[k as int])));
                    k = k + 1;
                }
                assert(listed.take(members@.len() as int) =~= listed);
            } else {
                resolved_cell_deps.push(self.cell_meta(&dep.out_point));
                assert(metas_view(resolved_cell_deps@) =~= before.push(cell_meta_for(self, dep@.out_point)));
                assert(metas_for(self, seq![dep@.out_point]) =~= seq![cell_meta_for(self, dep@.out_point)]);
            }
            assert(metas_for(self, deps_out_points(self, prefix) + dep_out_points(self, dep@))
                =~= metas_for(self, deps_out_points(self, prefix)) + metas_for(self, dep_out_points(self, dep@)));
            j = j + 1;
        }
        assert(t.cell_deps.take(t.cell_deps.len() as int) =~= t.cell_deps);
        ResolvedTransaction {
            transaction: tx.duplicate(),
            resolved_cell_deps,
            resolved_inputs,
            resolved_dep_groups,
        }
    }

    /// Check format and consensus rules.
    pub fn verify_tx_consensus(&self, tx: &Transaction) -> (r: Result<(), TransactionError>)
        ensures
            r is Ok <==> tx@.outputs.len() == tx@.outputs_data.len(),
            r matches Err(e) ==> e == (TransactionError::OutputsDataLengthMismatch {
                outputs_data_len: tx@.outputs_data.len() as usize,
                outputs_len: tx@.outputs.len() as usize,
            }),
    {
        OutputsDataVerifier::new(tx).verify()
    }
}

/// A spent cell as a mock transaction records it.
#[derive(Debug, PartialEq, Eq)]
pub struct MockInput {
    pub input: CellInput,
    pub output: CellOutput,
    pub data: Vec<u8>,
    pub header: Option<[u8; 32]>,
}

/// What a recorded spent cell stands for.
pub struct MockInputModel {
    pub input: CellInputModel,
    pub output: CellOutputModel,
    pub data: Seq<u8>,
    pub header: Option<Seq<u8>>,
}

/// The view of an optional hash.
pub open spec fn opt_hash_view(h: Option<[u8; 32]>) -> Option<Seq<u8>> {
    match h {
        Some(h) => Some(h@),
        None => None,
    }
}

impl View for MockInput {
    type V = MockInputModel;

    open spec fn view(&self) -> MockInputModel {
        MockInputModel { input: self.input@, output: self.output@, data: self.data@, header: opt_hash_view(self.header) }
    }
}

/// A dependency cell as a mock transaction records it.
#[derive(Debug, PartialEq, Eq)]
pub struct MockCellDep {
    pub cell_dep: CellDep,
    pub output: CellOutput,
    pub data: Vec<u8>,
    pub header: Option<[u8; 32]>,
}

/// What a recorded dependency cell stands for.
pub struct MockCellDepModel {
    pub cell_dep: CellDepModel,
    pub output: CellOutputModel,
    pub data: Seq<u8>,
    pub header: Option<Seq<u8>>,
}

impl View for MockCellDep {
    type V = MockCellDepModel;

    open spec fn view(&self) -> MockCellDepModel {
        MockCellDepModel { cell_dep: self.cell_dep@, output: self.output@, data: self.data@, header: opt_hash_view(self.header) }
    }
}

/// The cells, headers and block extensions that a mock transaction carries.
#[derive(Debug, PartialEq, Eq)]
pub struct MockInfo {
    pub inputs: Vec<MockInput>,
    pub cell_deps: Vec<MockCellDep>,
    pub header_deps: Vec<Header>,
    pub extensions: Vec<([u8; 32], Vec<u8>)>,
}

/// A transaction with everything needed to run its scripts without a chain.
#[derive(Debug, PartialEq, Eq)]
pub struct MockTransaction {
    pub mock_info: MockInfo,
    pub tx: Transaction,
}

/// What a mock transaction stands for.
pub struct MockTransactionModel {
    pub inputs: Seq<MockInputModel>,
    pub cell_deps: Seq<MockCellDepModel>,
    pub header_deps: Seq<Header>,
    pub extensions: Seq<(Seq<u8>, Seq<u8>)>,
    pub tx: TransactionModel,
}

impl View for MockTransaction {
    type V = MockTransactionModel;

    open spec fn view(&self) -> MockTransactionModel {
        MockTransactionModel {
            inputs: self.mock_info.inputs@.map_values(|m: MockInput| m@),
            cell_deps: self.mock_info.cell_deps@.map_values(|m: MockCellDep| m@),
            header_deps: self.mock_info.header_deps@,
            extensions: self.mock_info.extensions@.map_values(|e: ([u8; 32], Vec<u8>)| (e.0@, e.1@)),
            tx: self.tx@,
        }
    }
}

/// The hash of the block that committed a cell, if known.
pub open spec fn info_block_hash(info: Option<TransactionInfo>) -> Option<Seq<u8>> {
    match info {
        Some(i) => Some(i.block_hash@),
        None => None,
    }
}

/// The record of an input and the cell it spends.
pub open spec fn mock_input_for(input: CellInputModel, m: CellMetaModel) -> MockInputModel {
    MockInputModel { input, output: m.cell_output, data: m.data, header: info_block_hash(m.transaction_info) }
}

/// The record of a dependency cell, as a dependency of the given type on its out point.
pub open spec fn mock_dep_for(m: CellMetaModel, dep_type: u8) -> MockCellDepModel {
    MockCellDepModel {
        cell_dep: CellDepModel { out_point: m.out_point, dep_type },
        output: m.cell_output,
        data: m.data,
        header: info_block_hash(m.transaction_info),
    }
}

/// The block extensions that the context holds for the given block hashes, in order.
pub open spec fn extensions_for(ctx: &Context, hashes: Seq<Seq<u8>>) -> Seq<(Seq<u8>, Seq<u8>)>
    decreases hashes.len(),
{
    if hashes.len() == 0 {
        Seq::empty()
    } else if ctx.block_extensions@.contains_key(hashes.last()) {
        extensions_for(ctx, hashes.drop_last()).push((hashes.last(), ctx.block_extensions@[hashes.last()]))
    } else {
        extensions_for(ctx, hashes.drop_last())
    }
}

/// The mock transaction that records a transaction resolved against the context:
/// each input with the cell it spends; the resolved dependency cells as code
/// dependencies, then the dep group cells as dep group dependencies; the headers the
/// transaction depends on; and the block extensions held for those headers.
pub open spec fn dumped_tx(ctx: &Context, tx: TransactionModel) -> MockTransactionModel {
    let rtx = resolved_tx(ctx, tx);
    MockTransactionModel {
        inputs: Seq::new(tx.inputs.len(), |i: int| mock_input_for(tx.inputs[i], rtx.resolved_inputs[i])),
        cell_deps: rtx.resolved_cell_deps.map_values(|m: CellMetaModel| mock_dep_for(m, DEP_TYPE_CODE))
            + rtx.resolved_dep_groups.map_values(|m: CellMetaModel| mock_dep_for(m, DEP_TYPE_DEP_GROUP)),
        header_deps: tx.header_deps.map_values(|h: Seq<u8>| ctx.headers@[h]),
        extensions: extensions_for(ctx, tx.header_deps),
        tx,
    }
}

/// The context holds every header that the transaction depends on.
pub open spec fn headers_known(ctx: &Context, tx: TransactionModel) -> bool {
    forall|i: int| 0 <= i < tx.header_deps.len() ==> ctx.headers@.contains_key(#[trigger] tx.header_deps[i])
}

/// Records a resolved cell as a dependency of the given type.
fn mock_dep(m: &CellMeta, dep_type: u8) -> (r: MockCellDep)
    ensures
        r@ == mock_dep_for(m@, dep_type),
{
    let header = match &m.transaction_info {
        Some(info) => Some(info.block_hash),
        None => None,
    };
    MockCellDep {
        cell_dep: CellDep { out_point: m.out_point, dep_type },
        output: m.cell_output.duplicate(),
        data: copy_bytes(&m.data),
        header,
    }
}

impl Context {
    /// Dump the transaction in mock transaction format, so we can offload it to ckb debugger.
    pub fn dump_tx(&self, tx: &Transaction) -> (r: MockTransaction)
        requires
            resolvable(self, tx@),
            headers_known(self, tx@),
        ensures
            r@ == dumped_tx(self, tx@),
    {
        let ghost t = tx@;
        let rtx = self.build_resolved_tx(tx);
        let ghost rt = rtx@;
        assert(metas_view(rtx.resolved_inputs@).len() == rtx.resolved_inputs@.len());
        assert(input_out_points(t.inputs).len() == t.inputs.len());
        let mut inputs: Vec<MockInput> = Vec::new();
        let mut i: usize = 0;
        while i < rtx.resolved_inputs.len()
            invariant
                i <= rtx.resolved_inputs@.len(),
                rt == rtx@,
                t == tx@,
                rt == resolved_tx(self, t),
                rtx.resolved_inputs@.len() == tx.inputs@.len(),
                inputs@.len() == i,
                forall|k: int| 0 <= k < i ==> #[trigger] inputs@[k]@ == mock_input_for(t.inputs[k], rt.resolved_inputs[k]),
            decreases rtx.resolved_inputs@.len() - i,
        {
            let m = &rtx.resolved_inputs[i];
            assert(rt.resolved_inputs[i as int] == m@);
            let header = match &m.transaction_info {
                Some(info) => Some(info.block_hash),
                None => None,
            };
            inputs.push(MockInput {
                input: tx.inputs[i],
                output: m.cell_output.duplicate(),
                data: copy_bytes(&m.data),
                header,
            });
            i = i + 1;
        }
        let ghost spec_inputs = Seq::new(t.inputs.len(), |k: int| mock_input_for(t.inputs[k], rt.resolved_inputs[k]));
        assert(inputs@.map_values(|m: MockInput| m@) =~= spec_inputs);

        let mut cell_deps: Vec<MockCellDep> = Vec::new();
        let mut j: usize = 0;
        while j < rtx.resolved_cell_deps.len()
            invariant
                j <= rtx.resolved_cell_deps@.len(),
                rt == rtx@,
                cell_deps@.len() == j,
                forall|k: int| 0 <= k < j ==> #[trigger] cell_deps@[k]@ == mock_dep_for(rt.resolved_cell_deps[k], DEP_TYPE_CODE),
            decreases rtx.resolved_cell_deps@.len() - j,
        {
            cell_deps.push(mock_dep(&rtx.resolved_cell_deps[j], DEP_TYPE_CODE));
            j = j + 1;
        }
        let n = cell_deps.len();
        let mut j: usize = 0;
        while j < rtx.resolved_dep_groups.len()
            invariant
                j <= rtx.resolved_dep_groups@.len(),
                rt == rtx@,
                n == rt.resolved_cell_deps.len(),
                cell_deps@.len() == n + j,
                forall|k: int| 0 <= k < n ==> #[trigger] cell_deps@[k]@ == mock_dep_for(rt.resolved_cell_deps[k], DEP_TYPE_CODE),
                forall|k: int| 0 <= k < j ==> #[trigger] cell_deps@[n + k]@ == mock_dep_for(rt.resolved_dep_groups[k], DEP_TYPE_DEP_GROUP),
            decreases rtx.resolved_dep_groups@.len() - j,
        {
            cell_deps.push(mock_dep(&rtx.resolved_dep_groups[j], DEP_TYPE_DEP_GROUP));
            assert(cell_deps@[n + j as int]@ == mock_dep_for(rt.resolved_dep_groups[j as int], DEP_TYPE_DEP_GROUP));
            j = j + 1;
        }
        let ghost spec_deps = rt.resolved_cell_deps.map_values(|m: CellMetaModel| mock_dep_for(m, DEP_TYPE_CODE))
            + rt.resolved_dep_groups.map_values(|m: CellMetaModel| mock_dep_for(m, DEP_TYPE_DEP_GROUP));
        let ghost got = cell_deps@.map_values(|m: MockCellDep| m@);
        assert forall|k: int| 0 <= k < spec_deps.len() implies #[trigger] got[k] == spec_deps[k] by {
            if k >= n {
                assert(cell_deps@[n + (k - n)]@ == mock_dep_for(rt.resolved_dep_groups[k - n], DEP_TYPE_DEP_GROUP));
            }
        }
        assert(got =~= spec_deps);

        let mut header_deps: Vec<Header> = Vec::new();
        let mut extensions: Vec<([u8; 32], Vec<u8>)> = Vec::new();
        let mut h: usize = 0;
        while h < tx.header_deps.len()
            invariant
                h <= tx.header_deps@.len(),
                t == tx@,
                headers_known(self, t),
                header_deps@.len() == h,
                forall|k: int| 0 <= k < h ==> #[trigger] header_deps@[k] == self.headers@[t.header_deps[k]],
                extensions@.map_values(|e: ([u8; 32], Vec<u8>)| (e.0@, e.1@)) == extensions_for(self, t.header_deps.take(h as int)),
            decreases tx.header_deps@.len() - h,
        {
            let hash = tx.header_deps[h];
            assert(t.header_deps[h as int] == hash@);
            assert(self.headers@.contains_key(t.header_deps[h as int]));
            let ghost before = extensions@.map_values(|e: ([u8; 32], Vec<u8>)| (e.0@, e.1@));
            match self.get_header(&hash) {
                Some(header) => header_deps.push(header),
                None => {},
            }
            proof {
                let next = t.header_deps.take(h + 1);
                assert(next.drop_last() =~= t.header_deps.take(h as int));
                assert(next.last() == hash@);
            }
            match self.get_block_extension(&hash) {
                Some(ext) => {
                    let ghost ev = ext@;
                    extensions.push((hash, ext));
                    assert(extensions@.map_values(|e: ([u8; 32], Vec<u8>)| (e.0@, e.1@)) =~= before.push((hash@, ev)));
                },
                None => {},
            }
            h = h + 1;
        }
        assert(t.header_deps.take(t.header_deps.len() as int) =~= t.header_deps);
        assert(header_deps@ =~= t.header_deps.map_values(|x: Seq<u8>| self.headers@[x]));
        MockTransaction {
            mock_info: MockInfo { inputs, cell_deps, header_deps, extensions },
            tx: rtx.transaction,
        }
    }
}

} // verus!

verus! {

/// Resolving a transaction gives one resolved input for each input, in order: the cell
/// that the input spends, at that input's out point, with the output, data and
/// transaction info that the context holds for it.
pub proof fn law_resolved_inputs_follow_inputs(ctx: &Context, tx: TransactionModel)
    ensures
        resolved_tx(ctx, tx).resolved_inputs.len() == tx.inputs.len(),
        forall|i: int| 0 <= i < tx.inputs.len() ==> {
            let m = #[trigger] resolved_tx(ctx, tx).resolved_inputs[i];
            let op = tx.inputs[i].previous_output;
            &&& m.out_point == op
            &&& m.cell_output == ctx.cells@[op].0
            &&& m.data == ctx.cells@[op].1
            &&& m.transaction_info == if ctx.transaction_infos@.contains_key(op) {
                Some(ctx.transaction_infos@[op])
            } else {
                None
            }
        },
        resolved_tx(ctx, tx).transaction == tx,
{
}

/// A dependency on code resolves to the cell at its own out point, and a dependency on
/// a dep group resolves to the group cell among the resolved dep groups; each resolved
/// cell carries the output and data that the context holds at its out point.
pub proof fn law_resolved_deps_follow_deps(ctx: &Context, tx: TransactionModel)
    ensures
        forall|j: int| 0 <= j < tx.cell_deps.len() && (#[trigger] tx.cell_deps[j]).dep_type != 1 ==> exists|k: int|
            0 <= k < resolved_tx(ctx, tx).resolved_cell_deps.len()
                && resolved_tx(ctx, tx).resolved_cell_deps[k].out_point == tx.cell_deps[j].out_point,
        forall|j: int| 0 <= j < tx.cell_deps.len() && (#[trigger] tx.cell_deps[j]).dep_type == 1 ==> exists|k: int|
            0 <= k < resolved_tx(ctx, tx).resolved_dep_groups.len()
                && resolved_tx(ctx, tx).resolved_dep_groups[k].out_point == tx.cell_deps[j].out_point,
        forall|j: int, k: int|
            #![trigger tx.cell_deps[j], parse_out_point_vec(ctx.cells@[tx.cell_deps[j].out_point].1)->0[k]]
            0 <= j < tx.cell_deps.len() && tx.cell_deps[j].dep_type == 1
            && parse_out_point_vec(ctx.cells@[tx.cell_deps[j].out_point].1) is Some
            && 0 <= k < parse_out_point_vec(ctx.cells@[tx.cell_deps[j].out_point].1)->0.len() ==> exists|m: int|
            0 <= m < resolved_tx(ctx, tx).resolved_cell_deps.len()
                && resolved_tx(ctx, tx).resolved_cell_deps[m].out_point
                == parse_out_point_vec(ctx.cells@[tx.cell_deps[j].out_point].1)->0[k],
        forall|k: int| 0 <= k < resolved_tx(ctx, tx).resolved_cell_deps.len() ==> {
            let m = #[trigger] resolved_tx(ctx, tx).resolved_cell_deps[k];
            m.cell_output == ctx.cells@[m.out_point].0 && m.data == ctx.cells@[m.out_point].1
        },
{
    let rtx = resolved_tx(ctx, tx);
    assert forall|j: int| 0 <= j < tx.cell_deps.len() && (#[trigger] tx.cell_deps[j]).dep_type != 1 implies exists|k: int|
        0 <= k < rtx.resolved_cell_deps.len() && rtx.resolved_cell_deps[k].out_point == tx.cell_deps[j].out_point by {
        lemma_deps_out_points_hold(ctx, tx.cell_deps, j, 0);
        let ops = deps_out_points(ctx, tx.cell_deps);
        let k = choose|k: int| 0 <= k < ops.len() && ops[k] == tx.cell_deps[j].out_point;
        assert(rtx.resolved_cell_deps[k].out_point == ops[k]);
    }
    assert forall|j: int, k: int|
        #![trigger tx.cell_deps[j], parse_out_point_vec(ctx.cells@[tx.cell_deps[j].out_point].1)->0[k]]
        0 <= j < tx.cell_deps.len() && tx.cell_deps[j].dep_type == 1
        && parse_out_point_vec(ctx.cells@[tx.cell_deps[j].out_point].1) is Some
        && 0 <= k < parse_out_point_vec(ctx.cells@[tx.cell_deps[j].out_point].1)->0.len() implies exists|m: int|
        0 <= m < rtx.resolved_cell_deps.len()
            && rtx.resolved_cell_deps[m].out_point == parse_out_point_vec(ctx.cells@[tx.cell_deps[j].out_point].1)->0[k] by {
        let listed = parse_out_point_vec(ctx.cells@[tx.cell_deps[j].out_point].1)->0;
        assert(dep_out_points(ctx, tx.cell_deps[j]) == listed);
        lemma_deps_out_points_hold(ctx, tx.cell_deps, j, k);
        let ops = deps_out_points(ctx, tx.cell_deps);
        let m = choose|m: int| 0 <= m < ops.len() && ops[m] == listed[k];
        assert(rtx.resolved_cell_deps[m].out_point == ops[m]);
    }
    assert forall|j: int| 0 <= j < tx.cell_deps.len() && (#[trigger] tx.cell_deps[j]).dep_type == 1 implies exists|k: int|
        0 <= k < rtx.resolved_dep_groups.len() && rtx.resolved_dep_groups[k].out_point == tx.cell_deps[j].out_point by {
        lemma_group_out_points_hold(tx.cell_deps, j);
        let ops = group_out_points(tx.cell_deps);
        let k = choose|k: int| 0 <= k < ops.len() && ops[k] == tx.cell_deps[j].out_point;
        assert(rtx.resolved_dep_groups[k].out_point == ops[k]);
    }
}

/// Each out point that dependency `j` brings in is among those that all the
/// dependencies bring in.
proof fn lemma_deps_out_points_hold(ctx: &Context, deps: Seq<CellDepModel>, j: int, k: int)
    requires
        0 <= j < deps.len(),
        0 <= k < dep_out_points(ctx, deps[j]).len(),
    ensures
        deps_out_points(ctx, deps).contains(dep_out_points(ctx, deps[j])[k]),
    decreases deps.len(),
{
    let prev = deps_out_points(ctx, deps.drop_last());
    let whole = deps_out_points(ctx, deps);
    if j == deps.len() - 1 {
        assert(whole[prev.len() + k] == dep_out_points(ctx, deps[j])[k]);
    } else {
        assert(deps.drop_last()[j] == deps[j]);
        lemma_deps_out_points_hold(ctx, deps.drop_last(), j, k);
        let m = choose|m: int| 0 <= m < prev.len() && prev[m] == dep_out_points(ctx, deps[j])[k];
        assert(whole[m] == prev[m]);
    }
}

/// The out point of a dep group dependency is among the dep group out points.
proof fn lemma_group_out_points_hold(deps: Seq<CellDepModel>, j: int)
    requires
        0 <= j < deps.len(),
        deps[j].dep_type == DEP_TYPE_DEP_GROUP,
    ensures
        group_out_points(deps).contains(deps[j].out_point),
    decreases deps.len(),
{
    let prev = group_out_points(deps.drop_last());
    let whole = group_out_points(deps);
    if j == deps.len() - 1 {
        assert(whole[prev.len() as int] == deps[j].out_point);
    } else {
        assert(deps.drop_last()[j] == deps[j]);
        lemma_group_out_points_hold(deps.drop_last(), j);
        let m = choose|m: int| 0 <= m < prev.len() && prev[m] == deps[j].out_point;
        if deps.last().dep_type == DEP_TYPE_DEP_GROUP {
            assert(whole[m] == prev[m]);
        } else {
            assert(whole == prev);
        }
    }
}

/// A dumped transaction records, for each input in order, that input itself beside the
/// output and data of the cell it spends; the headers it depends on, in order; and the
/// transaction unchanged.
pub proof fn law_dumped_inputs_follow_inputs(ctx: &Context, tx: TransactionModel)
    ensures
        dumped_tx(ctx, tx).inputs.len() == tx.inputs.len(),
        forall|i: int| 0 <= i < tx.inputs.len() ==> {
            let m = #[trigger] dumped_tx(ctx, tx).inputs[i];
            &&& m.input == tx.inputs[i]
            &&& m.output == ctx.cells@[tx.inputs[i].previous_output].0
            &&& m.data == ctx.cells@[tx.inputs[i].previous_output].1
        },
        dumped_tx(ctx, tx).header_deps.len() == tx.header_deps.len(),
        forall|i: int| 0 <= i < tx.header_deps.len() ==>
            #[trigger] dumped_tx(ctx, tx).header_deps[i] == ctx.headers@[tx.header_deps[i]],
        dumped_tx(ctx, tx).tx == tx,
{
}

/// A dumped transaction records each resolved dependency cell as a code dependency on
/// its out point, then each dep group cell as a dep group dependency on its out point,
/// each beside the output and data of that cell.
pub proof fn law_dumped_deps_follow_resolution(ctx: &Context, tx: TransactionModel)
    ensures
        ({
            let rtx = resolved_tx(ctx, tx);
            let deps = dumped_tx(ctx, tx).cell_deps;
            &&& deps.len() == rtx.resolved_cell_deps.len() + rtx.resolved_dep_groups.len()
            &&& forall|k: int| 0 <= k < rtx.resolved_cell_deps.len() ==> {
                let d = #[trigger] deps[k];
                &&& d.cell_dep == (CellDepModel { out_point: rtx.resolved_cell_deps[k].out_point, dep_type: 0 })
                &&& d.output == ctx.cells@[d.cell_dep.out_point].0
                &&& d.data == ctx.cells@[d.cell_dep.out_point].1
            }
            &&& forall|k: int| 0 <= k < rtx.resolved_dep_groups.len() ==> {
                let d = #[trigger] deps[rtx.resolved_cell_deps.len() + k];
                &&& d.cell_dep == (CellDepModel { out_point: rtx.resolved_dep_groups[k].out_point, dep_type: 1 })
                &&& d.output == ctx.cells@[d.cell_dep.out_point].0
                &&& d.data == ctx.cells@[d.cell_dep.out_point].1
            }
        }),
{
    let rtx = resolved_tx(ctx, tx);
    let deps = dumped_tx(ctx, tx).cell_deps;
    assert forall|k: int| 0 <= k < rtx.resolved_dep_groups.len() implies {
        let d = #[trigger] deps[rtx.resolved_cell_deps.len() + k];
        &&& d.cell_dep == (CellDepModel { out_point: rtx.resolved_dep_groups[k].out_point, dep_type: 1 })
        &&& d.output == ctx.cells@[d.cell_dep.out_point].0
        &&& d.data == ctx.cells@[d.cell_dep.out_point].1
    } by {
        let ops = group_out_points(tx.cell_deps);
        assert(rtx.resolved_dep_groups[k] == cell_meta_for(ctx, ops[k]));
    }
}

} // verus!
