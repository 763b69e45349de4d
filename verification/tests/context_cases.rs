use ckb_hash::blake2b_256;
use ckb_testtool::context::{
    default_contracts_dir, random_out_point, random_type_id_script, record_debug_messages, top_build_dir, Context,
};
use ckb_testtool::simulator::{next_run_step, RunStep};
use ckb_testtool::resolve::{MockCellDep, MockInput};
use ckb_testtool::tx_verifier::{OutputsDataVerifier, TransactionError};
use ckb_testtool::types::{
    CellDep, CellInput, CellOutput, Header, Message, OutPoint, Script, ScriptHashType,
    Transaction, TransactionInfo, DEP_TYPE_CODE, DEP_TYPE_DEP_GROUP,
};
use ckb_types::packed;
use ckb_types::prelude::{Builder, Entity, IntoHeaderView};
use rand::{Rng, SeedableRng};

const TYPE_ID_CODE_HASH: [u8; 32] = [
    0, 0, 0, 0, 0, 0, 0, 0, 0, 0, 0, 0, 0, 0, 0, 0, 0, 0, 0, 0, 0, 0, 0, 0, 0, 0x54, 0x59, 0x50,
    0x45, 0x5f, 0x49, 0x44,
];

/// A context searching the default build directory of an unset $TOP and $MODE.
fn new_context(deterministic_rng: bool) -> Context {
    Context::with_contracts_dir("../build/release".to_string(), deterministic_rng)
}

fn packed_script(s: &Script) -> packed::Script {
    packed::Script::new_builder()
        .code_hash(packed::Byte32::from(&s.code_hash))
        .hash_type(packed::Byte::new(s.hash_type))
        .args(packed::Bytes::from(s.args.as_slice()))
        .build()
}

fn script_hash(s: &Script) -> [u8; 32] {
    packed_script(s).calc_script_hash().into()
}

fn lock_script(code_hash: [u8; 32], hash_type: u8) -> Script {
    Script { code_hash, hash_type, args: vec![1, 2, 3] }
}

fn cell(lock: Script, type_: Option<Script>) -> CellOutput {
    CellOutput { capacity: 1000, lock, type_ }
}

fn empty_tx() -> Transaction {
    Transaction {
        version: 0,
        cell_deps: vec![],
        header_deps: vec![],
        inputs: vec![],
        outputs: vec![],
        outputs_data: vec![],
        witnesses: vec![],
    }
}

fn input(op: OutPoint) -> CellInput {
    CellInput { since: 0, previous_output: op }
}

fn header(number: u64) -> Header {
    Header {
        version: 0,
        compact_target: 0x20010000,
        timestamp: 1_600_000_000_000,
        number,
        epoch: 0x0700_0800_0000_0005,
        parent_hash: [1u8; 32],
        transactions_root: [2u8; 32],
        proposals_hash: [0u8; 32],
        extra_hash: [0u8; 32],
        dao: [3u8; 32],
        nonce: 42,
    }
}

fn header_hash(h: &Header) -> [u8; 32] {
    let raw = packed::RawHeader::new_builder()
        .version(h.version)
        .compact_target(h.compact_target)
        .timestamp(h.timestamp)
        .number(h.number)
        .epoch(h.epoch)
        .parent_hash(packed::Byte32::from(&h.parent_hash))
        .transactions_root(packed::Byte32::from(&h.transactions_root))
        .proposals_hash(packed::Byte32::from(&h.proposals_hash))
        .extra_hash(packed::Byte32::from(&h.extra_hash))
        .dao(packed::Byte32::from(&h.dao))
        .build();
    let header = packed::Header::new_builder().raw(raw).nonce(h.nonce).build();
    header.into_view().hash().into()
}

fn out_point_vec_bytes(ops: &[OutPoint]) -> Vec<u8> {
    let items: Vec<packed::OutPoint> = ops
        .iter()
        .map(|op| packed::OutPoint::new_builder().tx_hash(packed::Byte32::from(&op.tx_hash)).index(op.index).build())
        .collect();
    packed::OutPointVec::new_builder().set(items).build().as_slice().to_vec()
}

#[test]
fn deploy_same_data_twice_gives_same_out_point() {
    let mut context = new_context(false);
    let first = context.deploy_cell(vec![1, 2, 3, 4]);
    let second = context.deploy_cell(vec![1, 2, 3, 4]);
    assert_eq!(first, second);
    let other = context.deploy_cell(vec![5, 6]);
    assert_ne!(first, other);
}

#[test]
fn deployed_cell_holds_data_type_id_and_exact_capacity() {
    let mut context = new_context(false);
    let data = vec![7u8; 100];
    let op = context.deploy_cell(data.clone());
    assert_eq!(op.index, 0);
    let (cell, stored) = context.get_cell(&op).expect("deployed cell");
    assert_eq!(stored, data);
    assert_eq!(cell.capacity, (8 + 100 + 33 + 65) * 100_000_000);
    assert_eq!(cell.lock, Script { code_hash: [0u8; 32], hash_type: 0, args: vec![] });
    let type_script = cell.type_.clone().expect("type id script");
    assert_eq!(type_script.code_hash, TYPE_ID_CODE_HASH);
    assert_eq!(type_script.hash_type, 1);
    assert_eq!(type_script.args.len(), 32);
    assert_eq!(context.get_cell_by_data_hash(&blake2b_256(&data)), Some(op));
    assert_eq!(context.get_cell_data(&op), Some(data.clone()));
    assert_eq!(context.get_cell_data_hash(&op), Some(blake2b_256(&data)));
    assert_eq!(context.cells_by_type_hash.get(&script_hash(&type_script)), Some(&op));
}

#[test]
fn deterministic_deploy_follows_the_seeded_generator() {
    let data = vec![9u8; 10];
    let mut context = new_context(true);
    let op = context.deploy_cell(data.clone());
    let mut rng = rand::rngs::StdRng::from_seed(blake2b_256(&data));
    let mut tx_hash = [0u8; 32];
    rng.fill(&mut tx_hash);
    let mut args = [0u8; 32];
    rng.fill(&mut args);
    assert_eq!(op, OutPoint { tx_hash, index: 0 });
    let (cell, _) = context.get_cell(&op).unwrap();
    assert_eq!(cell.type_.unwrap().args, args.to_vec());
}

#[test]
fn empty_data_hashes_to_zero() {
    let mut context = new_context(false);
    let op = context.create_cell(cell(lock_script([5u8; 32], 0), None), vec![]);
    assert_eq!(context.get_cell_data_hash(&op), Some([0u8; 32]));
    assert_eq!(context.get_cell_by_data_hash(&[0u8; 32]), Some(op));
    assert_eq!(context.get_cell_data_hash(&random_out_point()), None);
}

#[test]
fn created_cell_is_found_and_indexed_by_type() {
    let mut context = new_context(false);
    let type_script = lock_script([8u8; 32], 1);
    let op = OutPoint { tx_hash: [4u8; 32], index: 3 };
    context.create_cell_with_out_point(op, cell(lock_script([5u8; 32], 0), Some(type_script.clone())), vec![1]);
    let (c, d) = context.get_cell(&op).unwrap();
    assert_eq!(c, cell(lock_script([5u8; 32], 0), Some(type_script.clone())));
    assert_eq!(d, vec![1]);
    assert_eq!(context.cells_by_type_hash.get(&script_hash(&type_script)), Some(&op));
    assert_eq!(context.get_cell(&OutPoint { tx_hash: [4u8; 32], index: 4 }), None);
}

#[test]
fn build_script_uses_data_hash_or_type_hash() {
    let mut context = new_context(false);
    let data = vec![1u8, 2, 3];
    let op = context.deploy_cell(data.clone());
    let by_data = context.build_script_with_hash_type(&op, ScriptHashType::Data1, vec![9]).unwrap();
    assert_eq!(by_data, Script { code_hash: blake2b_256(&data), hash_type: 2, args: vec![9] });
    let by_type = context.build_script(&op, vec![]).unwrap();
    let (cell, _) = context.get_cell(&op).unwrap();
    assert_eq!(by_type.code_hash, script_hash(&cell.type_.unwrap()));
    assert_eq!(by_type.hash_type, 1);
    assert_eq!(context.build_script(&random_out_point(), vec![]), None);
    let data2 = context.build_script_with_hash_type(&op, ScriptHashType::Data2, vec![]).unwrap();
    assert_eq!(data2.hash_type, 4);
    let data0 = context.build_script_with_hash_type(&op, ScriptHashType::Data, vec![]).unwrap();
    assert_eq!(data0.hash_type, 0);
}

#[test]
fn complete_tx_adds_the_code_each_script_needs() {
    let mut context = new_context(false);
    let lock_code = context.deploy_cell(vec![1, 1, 1]);
    let type_code = context.deploy_cell(vec![2, 2, 2]);
    let lock = context.build_script(&lock_code, vec![]).unwrap();
    let type_ = context.build_script_with_hash_type(&type_code, ScriptHashType::Data, vec![]).unwrap();
    let spent = context.create_cell(cell(lock.clone(), None), vec![]);
    let existing = CellDep { out_point: OutPoint { tx_hash: [7u8; 32], index: 1 }, dep_type: DEP_TYPE_CODE };
    let mut tx = empty_tx();
    tx.cell_deps = vec![existing];
    tx.inputs = vec![input(spent)];
    tx.outputs = vec![cell(lock.clone(), Some(type_.clone())), cell(lock.clone(), None)];
    tx.outputs_data = vec![vec![], vec![]];
    let completed = context.complete_tx(tx.clone());
    assert_eq!(
        completed.cell_deps,
        vec![
            existing,
            CellDep { out_point: lock_code, dep_type: DEP_TYPE_CODE },
            CellDep { out_point: type_code, dep_type: DEP_TYPE_CODE },
        ]
    );
    assert_eq!(completed.inputs, tx.inputs);
    assert_eq!(completed.outputs, tx.outputs);
    let again = context.complete_tx(completed.clone());
    assert_eq!(again, completed);
}

#[test]
fn complete_tx_skips_outputs_without_data() {
    let mut context = new_context(false);
    let type_code = context.deploy_cell(vec![3, 3]);
    let type_ = context.build_script(&type_code, vec![]).unwrap();
    let mut tx = empty_tx();
    tx.outputs = vec![cell(lock_script([0u8; 32], 0), Some(type_))];
    let completed = context.complete_tx(tx);
    assert_eq!(completed.cell_deps, vec![]);
}

#[test]
fn consensus_check_compares_outputs_and_data() {
    let context = new_context(false);
    let mut tx = empty_tx();
    tx.outputs = vec![cell(lock_script([0u8; 32], 0), None)];
    assert_eq!(
        context.verify_tx_consensus(&tx),
        Err(TransactionError::OutputsDataLengthMismatch { outputs_data_len: 0, outputs_len: 1 })
    );
    tx.outputs_data = vec![vec![]];
    assert_eq!(context.verify_tx_consensus(&tx), Ok(()));
    assert_eq!(OutputsDataVerifier::new(&tx).verify(), Ok(()));
}

#[test]
fn resolve_expands_dep_groups() {
    let mut context = new_context(false);
    let code_a = context.deploy_cell(vec![10]);
    let code_b = context.deploy_cell(vec![11]);
    let group = context.create_cell(cell(lock_script([0u8; 32], 0), None), out_point_vec_bytes(&[code_a, code_b]));
    let spent = context.create_cell(cell(lock_script([6u8; 32], 0), None), vec![5]);
    let mut tx = empty_tx();
    tx.inputs = vec![input(spent)];
    tx.cell_deps = vec![
        CellDep { out_point: group, dep_type: DEP_TYPE_DEP_GROUP },
        CellDep { out_point: code_a, dep_type: DEP_TYPE_CODE },
    ];
    assert!(context.can_resolve(&tx));
    let rtx = context.build_resolved_tx(&tx);
    assert_eq!(rtx.transaction, tx);
    let dep_points: Vec<OutPoint> = rtx.resolved_cell_deps.iter().map(|m| m.out_point).collect();
    assert_eq!(dep_points, vec![code_a, code_b, code_a]);
    assert_eq!(rtx.resolved_dep_groups.len(), 1);
    assert_eq!(rtx.resolved_dep_groups[0].out_point, group);
    assert_eq!(rtx.resolved_inputs.len(), 1);
    assert_eq!(rtx.resolved_inputs[0].data, vec![5]);
    assert_eq!(rtx.resolved_inputs[0].transaction_info, None);
}

#[test]
fn resolution_needs_every_cell() {
    let mut context = new_context(false);
    let mut tx = empty_tx();
    tx.inputs = vec![input(random_out_point())];
    assert!(!context.can_resolve(&tx));
    let bad_group = context.create_cell(cell(lock_script([0u8; 32], 0), None), vec![1, 0, 0, 0, 9]);
    let mut tx = empty_tx();
    tx.cell_deps = vec![CellDep { out_point: bad_group, dep_type: DEP_TYPE_DEP_GROUP }];
    assert!(!context.can_resolve(&tx));
    let missing_member = context.create_cell(
        cell(lock_script([0u8; 32], 0), None),
        out_point_vec_bytes(&[OutPoint { tx_hash: [9u8; 32], index: 0 }]),
    );
    tx.cell_deps = vec![CellDep { out_point: missing_member, dep_type: DEP_TYPE_DEP_GROUP }];
    assert!(!context.can_resolve(&tx));
    tx.cell_deps = vec![CellDep { out_point: missing_member, dep_type: DEP_TYPE_CODE }];
    assert!(context.can_resolve(&tx));
}

#[test]
fn headers_are_found_by_their_hash_and_linked_to_cells() {
    let mut context = new_context(false);
    let h = header(12);
    let hash = header_hash(&h);
    context.insert_header(h);
    assert_eq!(context.get_header(&hash), Some(h));
    assert_eq!(context.get_header(&[0u8; 32]), None);
    let op = context.create_cell(cell(lock_script([0u8; 32], 0), None), vec![]);
    context.link_cell_with_block(op, hash, 3);
    let mut tx = empty_tx();
    tx.inputs = vec![input(op)];
    let rtx = context.build_resolved_tx(&tx);
    assert_eq!(
        rtx.resolved_inputs[0].transaction_info,
        Some(TransactionInfo { block_number: 12, block_epoch: h.epoch, block_hash: hash, index: 3 })
    );
}

#[test]
fn dump_tx_records_cells_headers_and_extensions() {
    let mut context = new_context(false);
    let h = header(1);
    let hash = header_hash(&h);
    context.insert_header(h);
    context.block_extensions.insert(hash, vec![0xaa, 0xbb]);
    let code = context.deploy_cell(vec![4, 4]);
    let group = context.create_cell(cell(lock_script([0u8; 32], 0), None), out_point_vec_bytes(&[code]));
    let spent = context.create_cell(cell(lock_script([1u8; 32], 0), None), vec![8]);
    context.link_cell_with_block(spent, hash, 0);
    let mut tx = empty_tx();
    tx.inputs = vec![input(spent)];
    tx.cell_deps = vec![CellDep { out_point: group, dep_type: DEP_TYPE_DEP_GROUP }];
    tx.header_deps = vec![hash];
    let mock = context.dump_tx(&tx);
    assert_eq!(
        mock.mock_info.inputs,
        vec![MockInput {
            input: input(spent),
            output: cell(lock_script([1u8; 32], 0), None),
            data: vec![8],
            header: Some(hash),
        }]
    );
    let (code_cell, code_data) = context.get_cell(&code).unwrap();
    let (group_cell, group_data) = context.get_cell(&group).unwrap();
    assert_eq!(
        mock.mock_info.cell_deps,
        vec![
            MockCellDep { cell_dep: CellDep { out_point: code, dep_type: DEP_TYPE_CODE }, output: code_cell, data: code_data, header: None },
            MockCellDep { cell_dep: CellDep { out_point: group, dep_type: DEP_TYPE_DEP_GROUP }, output: group_cell, data: group_data, header: None },
        ]
    );
    assert_eq!(mock.mock_info.header_deps, vec![h]);
    assert_eq!(mock.mock_info.extensions, vec![(hash, vec![0xaa, 0xbb])]);
    assert_eq!(mock.tx, tx);
}

#[test]
fn debug_messages_are_kept_only_when_captured() {
    let mut context = new_context(false);
    assert!(!context.capture_debug());
    let first = vec![
        Message { id: [1u8; 32], message: "one".to_string() },
        Message { id: [2u8; 32], message: "two".to_string() },
    ];
    let printed = record_debug_messages(&mut context.captured_messages.lock().unwrap(), context.capture_debug(), first);
    assert_eq!(printed, vec!["one".to_string(), "two".to_string()]);
    assert_eq!(context.captured_messages(), Some(vec![]));
    context.set_capture_debug(true);
    assert!(context.capture_debug());
    let kept = vec![
        Message { id: [3u8; 32], message: "three".to_string() },
        Message { id: [4u8; 32], message: "four".to_string() },
    ];
    let printed = record_debug_messages(&mut context.captured_messages.lock().unwrap(), context.capture_debug(), kept.clone());
    assert!(printed.is_empty());
    assert_eq!(context.captured_messages(), Some(kept));
    let held = context.captured_messages.lock().unwrap();
    assert_eq!(context.captured_messages(), None);
    drop(held);
}

#[test]
fn clones_share_captured_messages() {
    let context = new_context(false);
    let mut copy = context.clone();
    copy.set_capture_debug(true);
    let message = Message { id: [5u8; 32], message: "shared".to_string() };
    record_debug_messages(&mut copy.captured_messages.lock().unwrap(), copy.capture_debug(), vec![message.clone()]);
    assert_eq!(context.captured_messages(), Some(vec![message.clone()]));
    assert_eq!(copy.captured_messages(), Some(vec![message]));
    assert!(!context.capture_debug());
}

#[test]
fn contract_dirs_keep_their_order() {
    let mut context = new_context(false);
    assert_eq!(context.contract_dirs(), &vec!["../build/release".to_string()]);
    context.add_contract_dir("a");
    context.add_contract_dir("b/c");
    assert_eq!(
        context.contract_dirs(),
        &vec!["../build/release".to_string(), "a".to_string(), "b/c".to_string()]
    );
}

#[test]
fn deploy_needs_room_only_for_new_data() {
    let mut context = new_context(false);
    assert!(context.can_deploy_cell(&[1, 2, 3]));
    let op = context.deploy_cell(vec![1, 2, 3]);
    assert!(context.can_deploy_cell(&[1, 2, 3]));
    assert_eq!(context.deploy_cell(vec![1, 2, 3]), op);
    assert_eq!(context.try_deploy_cell(vec![1, 2, 3]), Some(op));
    let other = context.try_deploy_cell(vec![4]).unwrap();
    assert_eq!(context.get_cell_data(&other), Some(vec![4]));
    let cell = context.get_cell(&op).unwrap().0;
    assert_eq!(cell.capacity, (106 + 3) * 100_000_000);
}

#[test]
fn random_helpers_have_the_documented_shape() {
    let op = random_out_point();
    assert_eq!(op.index, 0);
    assert_ne!(random_out_point(), random_out_point());
    let s = random_type_id_script();
    assert_eq!(s.code_hash, TYPE_ID_CODE_HASH);
    assert_eq!(s.hash_type, 1);
    assert_eq!(s.args.len(), 32);
}

#[test]
fn cloned_context_holds_the_same_cells() {
    let mut context = new_context(true);
    let op = context.deploy_cell(vec![1, 2]);
    context.set_capture_debug(true);
    let copy = context.clone();
    assert_eq!(copy.get_cell(&op), context.get_cell(&op));
    assert!(copy.capture_debug());
    let mut copy = copy;
    assert_eq!(copy.deploy_cell(vec![1, 2]), op);
}

#[test]
fn table_insert_replaces_earlier_value() {
    let mut context = new_context(false);
    context.block_extensions.insert([1u8; 32], vec![1]);
    context.block_extensions.insert([1u8; 32], vec![2]);
    assert_eq!(context.get_block_extension(&[1u8; 32]), Some(vec![2]));
    assert!(context.block_extensions.contains_key(&[1u8; 32]));
    assert!(!context.block_extensions.contains_key(&[2u8; 32]));
}

#[test]
fn simulator_setup_names_each_library_under_its_key() {
    let mut context = new_context(false);
    context.set_simulator([7u8; 32], "sim/libdemo_sim.so");
    let setup = context.simulator_setup(true, &vec![3, 5]);
    assert!(setup.is_lock_script);
    assert_eq!(setup.script_index, 3);
    assert_eq!(setup.vm_version, 2);
    let mut key = vec![7u8; 32];
    key.push(0xff);
    key.extend_from_slice(&[0u8; 8]);
    assert_eq!(setup.native_binaries, vec![(key, "sim/libdemo_sim.so".to_string())]);
}

#[test]
fn setup_text_is_the_simulator_json() {
    let mut context = new_context(false);
    context.set_simulator([0xabu8; 32], "sim/lib.so");
    let setup = context.simulator_setup(false, &vec![12]);
    let key_hex = format!("{}ff0000000000000000", "ab".repeat(32));
    let expected = format!(
        "{{\"is_lock_script\": false, \"is_output\": false, \"script_index\": 12, \"vm_version\": 2, \"native_binaries\": {{ \"0x{}\" : \"sim/lib.so\" }}, \"run_type\": \"DynamicLib\" }}",
        key_hex
    );
    assert_eq!(String::from_utf8(setup.text()).unwrap(), expected);
    let empty = new_context(false).simulator_setup(true, &vec![0]);
    assert_eq!(
        String::from_utf8(empty.text()).unwrap(),
        "{\"is_lock_script\": true, \"is_output\": false, \"script_index\": 0, \"vm_version\": 2, \"native_binaries\": {  }, \"run_type\": \"DynamicLib\" }"
    );
}

#[test]
fn deploy_with_simulator_registers_the_data_hash() {
    let mut context = new_context(false);
    let data = vec![9u8, 8, 7];
    let op = context.deploy_cell_with_simulator(data.clone(), Some("sim/libx.so")).unwrap();
    assert_eq!(context.get_cell_by_data_hash(&blake2b_256(&data)), Some(op));
    let script = Script { code_hash: blake2b_256(&data), hash_type: 2, args: vec![] };
    assert_eq!(context.simulator_for(&script), Some("sim/libx.so".to_string()));
    let again = context.deploy_cell_with_simulator(data, None).unwrap();
    assert_eq!(again, op);
}

#[test]
fn run_steps_add_cycles_and_stop() {
    assert_eq!(next_run_step(10, Some(5)), RunStep::Continue(15));
    assert_eq!(next_run_step(10, None), RunStep::Fail);
    assert_eq!(next_run_step(u64::MAX, Some(1)), RunStep::Overflow);
}

#[test]
fn default_dir_and_simulator_name_follow_the_environment_rules() {
    assert_eq!(top_build_dir(""), "build");
    assert_eq!(default_contracts_dir("", None, false), "../build/release");
    assert_eq!(default_contracts_dir("", Some("debug"), true), "build/debug");
    assert_eq!(default_contracts_dir("/t", None, false), "/t/../build/release");
    let context = new_context(false);
    assert_eq!(context.simulator_file_name("my-contract", "so"), "libmy_contract_sim.so");
}

#[test]
fn created_cell_reindexes_deployed_data() {
    let mut context = new_context(false);
    let data = vec![4u8, 4];
    let first = context.deploy_cell(data.clone());
    let second = OutPoint { tx_hash: [3u8; 32], index: 1 };
    context.create_cell_with_out_point(second, cell(lock_script([0u8; 32], 0), None), data.clone());
    assert_eq!(context.get_cell_by_data_hash(&blake2b_256(&data)), Some(second));
    assert!(context.get_cell(&first).is_some());
    assert_eq!(context.deploy_cell(data), second);
}
