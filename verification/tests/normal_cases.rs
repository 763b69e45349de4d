use ckb_system_scripts::BUNDLED_CELL;
use ckb_testtool::context::Context;

/// The default build directory of an unset $TOP and $MODE.
fn default_contracts_dir() -> String {
    "../build/release".to_string()
}

#[test]
fn test_deterministic_rng_context() {
    let data = BUNDLED_CELL.get("specs/cells/secp256k1_data").unwrap();

    let out_point_1 = {
        let mut context = Context::with_contracts_dir(default_contracts_dir(), false);
        context.deploy_cell(data.to_vec())
    };
    let out_point_2 = {
        let mut context = Context::with_contracts_dir(default_contracts_dir(), false);
        context.deploy_cell(data.to_vec())
    };
    assert_ne!(out_point_1, out_point_2);

    let out_point_1 = {
        let mut context = Context::with_contracts_dir(default_contracts_dir(), true);
        context.deploy_cell(data.to_vec())
    };
    let out_point_2 = {
        let mut context = Context::with_contracts_dir(default_contracts_dir(), true);
        context.deploy_cell(data.to_vec())
    };
    assert_eq!(out_point_1, out_point_2);
}
