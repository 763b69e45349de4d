//! Properties of the context that span its operations.
use vstd::prelude::*;
use crate::complete::{code_hash_for, dep_for_script, script_dep_found};
use crate::context::{cell_created, code_deployed, default_contracts_dir_of, Context};
use crate::resolve::cell_meta_for;
use crate::simulator::{simulator_code_hash_of, simulator_code_known};
use crate::primitives::{
    calc_data_hash_of, calc_header_hash_of, calc_script_hash_of, popped_path_of, pushed_path_of, std_rng_fills_of,
};
use crate::types::{
    hash_type_byte, CellDepModel, CellOutputModel, Header, OutPoint, OutPointModel, ScriptHashType,
    Script, ScriptModel, TransactionInfo, DEP_TYPE_CODE, HASH_TYPE_TYPE,
};

verus! {

/// Once code is deployed, the context finds it again by its data hash, holds its data
/// in the cell at the out point, and finds the cell by the hash of its type script;
/// so deploying the same data again gives the same out point and changes nothing.
pub proof fn law_deployed_code_is_found(old: &Context, new: &Context, op: OutPoint, data: Seq<u8>)
    requires
        code_deployed(old, new, op, data),
    ensures
        new.cells_by_data_hash@.contains_key(calc_data_hash_of(data)),
        new.cells_by_data_hash@[calc_data_hash_of(data)] == op@,
        new.cells@.contains_key(op@),
        new.cells@[op@].1 == data,
        new.cells_by_type_hash@.contains_key(calc_script_hash_of(new.cells@[op@].0.type_->0)),
        new.cells_by_type_hash@[calc_script_hash_of(new.cells@[op@].0.type_->0)] == op@,
{
}

/// A script whose code hash is the data hash of deployed code, with a data hash type,
/// or the hash of the deployed cell's type script, with the type hash type, finds the
/// deployed cell as its code dependency.
pub proof fn law_scripts_find_deployed_code(old: &Context, new: &Context, op: OutPoint, data: Seq<u8>, s: ScriptModel)
    requires
        code_deployed(old, new, op, data),
        (s.hash_type == 0 || s.hash_type == 2 || s.hash_type == 4) && s.code_hash == calc_data_hash_of(data)
            || s.hash_type == HASH_TYPE_TYPE && s.code_hash == calc_script_hash_of(new.cells@[op@].0.type_->0),
    ensures
        script_dep_found(new, s),
        dep_for_script(new, s) == (CellDepModel { out_point: op@, dep_type: DEP_TYPE_CODE }),
{
}

/// A script that `build_script_with_hash_type` builds on freshly deployed code, with any
/// hash type and any arguments, finds the deployed cell as its code dependency.
pub proof fn law_built_script_finds_deployed_code(
    old: &Context,
    new: &Context,
    op: OutPoint,
    data: Seq<u8>,
    hash_type: ScriptHashType,
    args: Seq<u8>,
)
    requires
        code_deployed(old, new, op, data),
    ensures
        ({
            let s = ScriptModel { code_hash: code_hash_for(new, op@, hash_type), hash_type: hash_type_byte(hash_type), args };
            &&& script_dep_found(new, s)
            &&& dep_for_script(new, s) == (CellDepModel { out_point: op@, dep_type: DEP_TYPE_CODE })
        }),
{
}

/// `build_script` builds what `build_script_with_hash_type` builds with the type hash
/// type: the hash of the cell's type script, with hash type byte 1.
pub proof fn law_build_script_is_type_case(ctx: &Context, op: OutPointModel)
    ensures
        code_hash_for(ctx, op, ScriptHashType::Type) == calc_script_hash_of(ctx.cells@[op].0.type_->0),
        hash_type_byte(ScriptHashType::Type) == HASH_TYPE_TYPE,
{
}

/// Two contexts made with a deterministic generator that deploy the same data give the
/// same out point.
pub proof fn law_deterministic_deploy(
    a0: &Context,
    a1: &Context,
    op_a: OutPoint,
    b0: &Context,
    b1: &Context,
    op_b: OutPoint,
    data: Seq<u8>,
)
    requires
        a0.is_empty_with(true),
        b0.is_empty_with(true),
        code_deployed(a0, a1, op_a, data),
        code_deployed(b0, b1, op_b, data),
    ensures
        op_a@ == op_b@,
        op_a@.tx_hash == std_rng_fills_of(calc_data_hash_of(data)).0,
        a1.cells@[op_a@] == b1.cells@[op_b@],
{
}

/// A cell created at an out point is found there with its data, by its data hash, and
/// by its type script's hash if it has one.
pub proof fn law_created_cell_is_found(old: &Context, new: &Context, op: OutPointModel, cell: CellOutputModel, data: Seq<u8>)
    requires
        cell_created(old, new, op, cell, data),
    ensures
        new.cells@.contains_key(op),
        new.cells@[op] == (cell, data),
        new.cells_by_data_hash@[calc_data_hash_of(data)] == op,
        cell.type_ matches Some(t) ==> new.cells_by_type_hash@[calc_script_hash_of(t)] == op,
        forall|o: OutPointModel| o != op ==> new.cells@.contains_key(o) == old.cells@.contains_key(o)
            && (#[trigger] new.cells@.contains_key(o) ==> new.cells@[o] == old.cells@[o]),
{
}

/// A header inserted into a context is found by its hash; the headers of other hashes
/// are left as they were.
pub proof fn law_inserted_header_is_found(old: &Context, new: &Context, header: Header)
    requires
        new.headers@ == old.headers@.insert(calc_header_hash_of(header), header),
    ensures
        new.headers@.contains_key(calc_header_hash_of(header)),
        new.headers@[calc_header_hash_of(header)] == header,
        forall|h: Seq<u8>| h != calc_header_hash_of(header) ==> (#[trigger] new.headers@.contains_key(h)
            == old.headers@.contains_key(h)),
{
}

/// A cell linked with a block resolves with the block's number, epoch and hash and the
/// transaction's index, and the block's header stays in the context, so that scripts
/// can load the header by the cell.
pub proof fn law_linked_cell_carries_block(old: &Context, new: &Context, op: OutPoint, block_hash: [u8; 32], tx_index: usize)
    requires
        old.headers@.contains_key(block_hash@),
        new.headers@ == old.headers@,
        new.cells@ == old.cells@,
        new.cells@.contains_key(op@),
        new.transaction_infos@ == old.transaction_infos@.insert(
            op@,
            (TransactionInfo {
                block_number: old.headers@[block_hash@].number,
                block_epoch: old.headers@[block_hash@].epoch,
                block_hash,
                index: tx_index,
            }),
        ),
    ensures
        cell_meta_for(new, op@).transaction_info == Some(TransactionInfo {
            block_number: new.headers@[block_hash@].number,
            block_epoch: new.headers@[block_hash@].epoch,
            block_hash,
            index: tx_index,
        }),
        new.headers@.contains_key(cell_meta_for(new, op@).transaction_info->0.block_hash@),
{
}

/// Creating a cell whose data was indexed before re-points the data hash at the new
/// cell, so that deploying the data again gives the new out point; the cell that the
/// index named before stays in the context, unchanged where it is another out point,
/// and every indexed out point is still a held cell.
pub proof fn law_create_reindexes_data(
    old: &Context,
    new: &Context,
    earlier: OutPointModel,
    op: OutPointModel,
    cell: CellOutputModel,
    data: Seq<u8>,
)
    requires
        old.indexes_held(),
        old.cells_by_data_hash@.contains_key(calc_data_hash_of(data)),
        old.cells_by_data_hash@[calc_data_hash_of(data)] == earlier,
        cell_created(old, new, op, cell, data),
    ensures
        new.cells_by_data_hash@[calc_data_hash_of(data)] == op,
        new.cells@.contains_key(earlier),
        earlier != op ==> new.cells@[earlier] == old.cells@[earlier],
        new.indexes_held(),
{
    assert(old.cells@.contains_key(earlier));
}

/// A script that runs deployed code, by the code's data hash or by the hash of the
/// deployed cell's type script, is served by the simulator library registered for the
/// data hash of that code, whichever hash type it uses.
pub proof fn law_simulator_follows_deployed_code(old: &Context, new: &Context, op: OutPoint, data: Seq<u8>, s: Script)
    requires
        code_deployed(old, new, op, data),
        (s.hash_type == 0 || s.hash_type == 2 || s.hash_type == 4) && s.code_hash@ == calc_data_hash_of(data)
            || s.hash_type == HASH_TYPE_TYPE && s.code_hash@ == calc_script_hash_of(new.cells@[op@].0.type_->0),
    ensures
        simulator_code_known(new, s),
        simulator_code_hash_of(new, s) == calc_data_hash_of(data),
{
}

/// The default script search directory is the build directory, `$TOP/build` where it
/// exists and `../build` next to `$TOP` otherwise, with the mode pushed onto it: `$MODE`
/// where it is set, whether or not `$TOP/build` exists, and `release` where it is not;
/// an unset `$MODE` gives what `$MODE=release` gives.
pub proof fn law_default_dir_is_build_dir_and_mode(top: Seq<char>, mode: Seq<char>, top_build_exists: bool)
    ensures
        ({
            let build = if top_build_exists {
                pushed_path_of(top, "build"@)
            } else {
                pushed_path_of(popped_path_of(pushed_path_of(top, "build"@)), "../build"@)
            };
            &&& default_contracts_dir_of(top, Some(mode), top_build_exists) == pushed_path_of(build, mode)
            &&& default_contracts_dir_of(top, None, top_build_exists) == pushed_path_of(build, "release"@)
        }),
        default_contracts_dir_of(top, None, top_build_exists) == default_contracts_dir_of(top, Some("release"@), top_build_exists),
{
}

} // verus!
