//! Building scripts that point at code held by a context, and filling in the cell
//! dependencies that a transaction's scripts need.
use vstd::prelude::*;
use crate::context::Context;
use crate::primitives::{calc_data_hash, calc_data_hash_of, calc_script_hash, calc_script_hash_of};
use crate::types::{
    cell_deps_view, hash_type_byte, is_data_hash_type, CellDep, CellDepModel, OutPoint,
    CellInputModel, CellOutputModel, OutPointModel, Script, ScriptHashType, ScriptModel,
    Transaction, TransactionModel, DEP_TYPE_CODE, HASH_TYPE_TYPE,
};

verus! {

/// The code hash that a script built on the cell at `op` gets: the cell's data hash for
/// the data hash types, the hash of the cell's type script for the type hash type.
pub open spec fn code_hash_for(ctx: &Context, op: OutPointModel, hash_type: ScriptHashType) -> Seq<u8> {
    if hash_type == ScriptHashType::Type {
        calc_script_hash_of(ctx.cells@[op].0.type_->0)
    } else {
        calc_data_hash_of(ctx.cells@[op].1)
    }
}

/// The context holds the code that the script points at, by data hash or by type hash.
pub open spec fn script_dep_found(ctx: &Context, s: ScriptModel) -> bool {
    ||| is_data_hash_type(s.hash_type) && ctx.cells_by_data_hash@.contains_key(s.code_hash)
    ||| s.hash_type == HASH_TYPE_TYPE && ctx.cells_by_type_hash@.contains_key(s.code_hash)
}

/// The code dependency on the cell that holds the script's code.
pub open spec fn dep_for_script(ctx: &Context, s: ScriptModel) -> CellDepModel {
    CellDepModel {
        out_point: if s.hash_type == HASH_TYPE_TYPE {
            ctx.cells_by_type_hash@[s.code_hash]
        } else {
            ctx.cells_by_data_hash@[s.code_hash]
        },
        dep_type: DEP_TYPE_CODE,
    }
}

/// Every script of the list has its code in the context.
pub open spec fn scripts_found(ctx: &Context, s: Seq<ScriptModel>) -> bool {
    forall|j: int| 0 <= j < s.len() ==> script_dep_found(ctx, #[trigger] s[j])
}

/// The type script of a cell output, as a list of zero or one scripts.
pub open spec fn type_scripts(c: CellOutputModel) -> Seq<ScriptModel> {
    match c.type_ {
        Some(t) => seq![t],
        None => Seq::empty(),
    }
}

/// The scripts of the cell at `op` that the context holds: its lock, then its type
/// script if any. None where the context does not hold the cell.
pub open spec fn cell_scripts(ctx: &Context, op: OutPointModel) -> Seq<ScriptModel> {
    if ctx.cells@.contains_key(op) {
        seq![ctx.cells@[op].0.lock] + type_scripts(ctx.cells@[op].0)
    } else {
        Seq::empty()
    }
}

/// The scripts of the cells that the inputs spend, input by input.
pub open spec fn input_scripts(ctx: &Context, inputs: Seq<CellInputModel>) -> Seq<ScriptModel>
    decreases inputs.len(),
{
    if inputs.len() == 0 {
        Seq::empty()
    } else {
        input_scripts(ctx, inputs.drop_last()) + cell_scripts(ctx, inputs.last().previous_output)
    }
}

/// The type scripts of the outputs, output by output.
pub open spec fn output_type_scripts(outputs: Seq<CellOutputModel>) -> Seq<ScriptModel>
    decreases outputs.len(),
{
    if outputs.len() == 0 {
        Seq::empty()
    } else {
        output_type_scripts(outputs.drop_last()) + type_scripts(outputs.last())
    }
}

/// The outputs that have data beside them: outputs and data are paired in order and
/// the longer list is cut to the length of the shorter.
pub open spec fn paired_outputs(tx: TransactionModel) -> Seq<CellOutputModel> {
    if tx.outputs.len() <= tx.outputs_data.len() {
        tx.outputs
    } else {
        tx.outputs.take(tx.outputs_data.len() as int)
    }
}

/// The scripts whose code a transaction needs: those of the spent cells that the
/// context holds, then the type scripts of the paired outputs.
pub open spec fn required_scripts(ctx: &Context, tx: TransactionModel) -> Seq<ScriptModel> {
    input_scripts(ctx, tx.inputs) + output_type_scripts(paired_outputs(tx))
}

/// The context holds the code of every script that the transaction needs.
pub open spec fn required_code_found(ctx: &Context, tx: TransactionModel) -> bool {
    &&& forall|i: int| 0 <= i < tx.inputs.len() ==>
        scripts_found(ctx, #[trigger] cell_scripts(ctx, tx.inputs[i].previous_output))
    &&& forall|i: int| 0 <= i < paired_outputs(tx).len() ==>
        scripts_found(ctx, #[trigger] type_scripts(paired_outputs(tx)[i]))
}

/// Appends a dependency unless the list holds it already.
pub open spec fn add_dep(list: Seq<CellDepModel>, d: CellDepModel) -> Seq<CellDepModel> {
    if list.contains(d) {
        list
    } else {
        list.push(d)
    }
}

/// Adds the code dependency of each script in turn.
pub open spec fn add_script_deps(ctx: &Context, list: Seq<CellDepModel>, scripts: Seq<ScriptModel>) -> Seq<CellDepModel>
    decreases scripts.len(),
{
    if scripts.len() == 0 {
        list
    } else {
        add_dep(add_script_deps(ctx, list, scripts.drop_last()), dep_for_script(ctx, scripts.last()))
    }
}

/// The cell dependencies of the completed transaction: its own, then one code
/// dependency for each script it needs that is not already there.
pub open spec fn completed_cell_deps(ctx: &Context, tx: TransactionModel) -> Seq<CellDepModel> {
    add_script_deps(ctx, tx.cell_deps, required_scripts(ctx, tx))
}

/// The transaction with the given cell dependencies and nothing else changed.
pub open spec fn with_cell_deps(tx: TransactionModel, deps: Seq<CellDepModel>) -> TransactionModel {
    TransactionModel { cell_deps: deps, ..tx }
}

/// Adding the deps of two lists of scripts one after the other is adding those of both.
pub proof fn lemma_add_script_deps_concat(ctx: &Context, l: Seq<CellDepModel>, s: Seq<ScriptModel>, t: Seq<ScriptModel>)
    ensures
        add_script_deps(ctx, l, s + t) == add_script_deps(ctx, add_script_deps(ctx, l, s), t),
    decreases t.len(),
{
    if t.len() == 0 {
        assert(s + t =~= s);
    } else {
        assert((s + t).drop_last() =~= s + t.drop_last());
        assert((s + t).last() == t.last());
        lemma_add_script_deps_concat(ctx, l, s, t.drop_last());
    }
}

/// Adding the deps of no scripts leaves the list; of one script, adds its dep.
pub proof fn lemma_add_script_deps_small(ctx: &Context, l: Seq<CellDepModel>, s: ScriptModel)
    ensures
        add_script_deps(ctx, l, Seq::empty()) == l,
        add_script_deps(ctx, l, seq![s]) == add_dep(l, dep_for_script(ctx, s)),
{
    assert(seq![s].drop_last() =~= Seq::<ScriptModel>::empty());
    assert(seq![s].last() == s);
    reveal_with_fuel(add_script_deps, 2);
}

/// Appends `dep` to the list unless the list holds it already.
fn push_dep(list: &mut Vec<CellDep>, dep: CellDep)
    ensures
        cell_deps_view(final(list)@) == add_dep(cell_deps_view(old(list)@), dep@),
{
    let ghost before = cell_deps_view(list@);
    let mut i: usize = 0;
    while i < list.len()
        invariant
            i <= list@.len(),
            before == cell_deps_view(list@),
            forall|j: int| 0 <= j < i ==> list@[j]@ != dep@,
        decreases list@.len() - i,
    {
        if list[i].same_dep(&dep) {
            assert(before[i as int] == dep@);
            return;
        }
        i = i + 1;
    }
    assert(!before.contains(dep@)) by {
        if before.contains(dep@) {
            let j = choose|j: int| 0 <= j < before.len() && before[j] == dep@;
            assert(list@[j]@ == dep@);
        }
    }
    list.push(dep);
    assert(cell_deps_view(list@) =~= before.push(dep@));
}

impl Context {
    /// Build script with out_point, hash_type, args. Return none if the out-point is not exist.
    pub fn build_script_with_hash_type(&mut self, out_point: &OutPoint, hash_type: ScriptHashType, args: Vec<u8>) -> (r: Option<Script>)
        requires
            hash_type == ScriptHashType::Type && old(self).cells@.contains_key(out_point@)
                ==> (old(self).cells@[out_point@].0.type_ is Some),
        ensures
            r is Some <==> old(self).cells@.contains_key(out_point@),
            r matches Some(s) ==> s@ == (ScriptModel {
                code_hash: code_hash_for(old(self), out_point@, hash_type),
                hash_type: hash_type_byte(hash_type),
                args: args@,
            }),
            final(self).same_as(old(self)),
    {
        let code_hash = match self.cells.get(out_point) {
            None => {
                return None;
            },
            Some(c) => match hash_type {
                ScriptHashType::Type => match &c.0.type_ {
                    Some(t) => calc_script_hash(t),
                    None => [0u8; 32],
                },
                _ => calc_data_hash(c.1.as_slice()),
            },
        };
        Some(Script { code_hash, hash_type: hash_type.to_byte(), args })
    }

    /// Build script with out_point, args and hash_type(ScriptHashType::Type). Return none if the out-point is not
    /// exist.
    pub fn build_script(&mut self, out_point: &OutPoint, args: Vec<u8>) -> (r: Option<Script>)
        requires
            old(self).cells@.contains_key(out_point@) ==> (old(self).cells@[out_point@].0.type_ is Some),
        ensures
            r is Some <==> old(self).cells@.contains_key(out_point@),
            r matches Some(s) ==> s@ == (ScriptModel {
                code_hash: calc_script_hash_of(old(self).cells@[out_point@].0.type_->0),
                hash_type: HASH_TYPE_TYPE,
                args: args@,
            }),
            final(self).same_as(old(self)),
    {
        self.build_script_with_hash_type(out_point, ScriptHashType::Type, args)
    }

    /// Find cell dep for the specified script.
    pub fn find_cell_dep_for_script(&self, script: &Script) -> (dep: CellDep)
        requires
            script_dep_found(self, script@),
        ensures
            dep@ == dep_for_script(self, script@),
    {
        let found = if script.hash_type == HASH_TYPE_TYPE {
            self.cells_by_type_hash.get(&script.code_hash)
        } else {
            self.cells_by_data_hash.get(&script.code_hash)
        };
        let out_point = match found {
            Some(op) => *op,
            None => OutPoint { tx_hash: [0u8; 32], index: 0 },
        };
        CellDep { out_point, dep_type: DEP_TYPE_CODE }
    }

    /// Adds the code dependencies of the scripts of the cell at `op`, if the context holds it.
    fn add_cell_script_deps(&self, list: &mut Vec<CellDep>, op: &OutPoint)
        requires
            scripts_found(self, cell_scripts(self, op@)),
        ensures
            cell_deps_view(final(list)@) == add_script_deps(self, cell_deps_view(old(list)@), cell_scripts(self, op@)),
    {
        let ghost l0 = cell_deps_view(list@);
        match self.cells.get(op) {
            Some(c) => {
                let ghost lock = c.0.lock@;
                let ghost types = type_scripts(c.0@);
                assert(cell_scripts(self, op@)[0] == lock);
                let dep = self.find_cell_dep_for_script(&c.0.lock);
                push_dep(list, dep);
                proof { lemma_add_script_deps_small(self, l0, lock); }
                let ghost l1 = cell_deps_view(list@);
                match &c.0.type_ {
                    Some(t) => {
                        assert(cell_scripts(self, op@)[1] == t@);
                        let dep = self.find_cell_dep_for_script(t);
                        push_dep(list, dep);
                        proof {
                            assert(types =~= seq![t@]);
                            lemma_add_script_deps_small(self, l1, t@);
                        }
                    },
                    None => {
                        proof {
                            assert(types =~= Seq::<ScriptModel>::empty());
                            lemma_add_script_deps_small(self, l1, lock);
                        }
                    },
                }
                proof { lemma_add_script_deps_concat(self, l0, seq![lock], types); }
            },
            None => {},
        }
    }

    /// Whether the context holds the code of the script, by data hash or by type hash.
    pub fn script_found(&self, script: &Script) -> (r: bool)
        ensures
            r == script_dep_found(self, script@),
    {
        if script.hash_type == 0 || script.hash_type == 2 || script.hash_type == 4 {
            self.cells_by_data_hash.contains_key(&script.code_hash)
        } else if script.hash_type == HASH_TYPE_TYPE {
            self.cells_by_type_hash.contains_key(&script.code_hash)
        } else {
            false
        }
    }

    /// Whether the scripts of the cell at `op`, if the context holds it, all have their code there.
    fn cell_scripts_found(&self, op: &OutPoint) -> (r: bool)
        ensures
            r == scripts_found(self, cell_scripts(self, op@)),
    {
        match self.cells.get(op) {
            Some(c) => {
                let ghost sc = cell_scripts(self, op@);
                assert(sc[0] == c.0.lock@);
                if !self.script_found(&c.0.lock) {
                    return false;
                }
                match &c.0.type_ {
                    Some(t) => {
                        assert(sc[1] == t@);
                        let found = self.script_found(t);
                        assert(found ==> forall|j: int| 0 <= j < sc.len() ==> script_dep_found(self, #[trigger] sc[j])) by {
                            assert(sc.len() == 2);
                        }
                        found
                    },
                    None => {
                        assert(sc.len() == 1);
                        true
                    },
                }
            },
            None => true,
        }
    }

    /// Whether the context holds the code of every script that the transaction needs, so
    /// that its cell dependencies can be completed.
    pub fn can_complete(&self, tx: &Transaction) -> (r: bool)
        ensures
            r == required_code_found(self, tx@),
    {
        let ghost t = tx@;
        let mut i: usize = 0;
        while i < tx.inputs.len()
            invariant
                i <= tx.inputs@.len(),
                t == tx@,
                forall|k: int| 0 <= k < i ==> scripts_found(self, #[trigger] cell_scripts(self, t.inputs[k].previous_output)),
            decreases tx.inputs@.len() - i,
        {
            assert(t.inputs[i as int].previous_output == tx.inputs@[i as int].previous_output@);
            if !self.cell_scripts_found(&tx.inputs[i].previous_output) {
                return false;
            }
            i = i + 1;
        }
        let paired = if tx.outputs.len() <= tx.outputs_data.len() { tx.outputs.len() } else { tx.outputs_data.len() };
        let ghost outs = paired_outputs(t);
        assert(outs.len() == paired);
        let mut i: usize = 0;
        while i < paired
            invariant
                i <= paired,
                paired <= tx.outputs@.len(),
                t == tx@,
                outs == paired_outputs(t),
                outs.len() == paired,
                forall|k: int| 0 <= k < t.inputs.len() ==> scripts_found(self, #[trigger] cell_scripts(self, t.inputs[k].previous_output)),
                forall|k: int| 0 <= k < i ==> scripts_found(self, #[trigger] type_scripts(outs[k])),
            decreases paired - i,
        {
            assert(outs[i as int] == tx.outputs@[i as int]@);
            match &tx.outputs[i].type_ {
                Some(script) => {
                    assert(type_scripts(outs[i as int]) =~= seq![script@]);
                    if !self.script_found(script) {
                        assert(type_scripts(outs[i as int])[0] == script@);
                        assert(!script_dep_found(self, type_scripts(outs[i as int])[0]));
                        assert(!scripts_found(self, type_scripts(outs[i as int])));
                        return false;
                    }
                },
                None => {
                    assert(type_scripts(outs[i as int]) =~= Seq::<ScriptModel>::empty());
                },
            }
            i = i + 1;
        }
        true
    }

    /// Complete cell deps for a transaction.
    /// This function searches context cells; generate cell dep for referenced scripts.
    pub fn complete_tx(&mut self, tx: Transaction) -> (r: Transaction)
        requires
            required_code_found(old(self), tx@),
        ensures
            r@ == with_cell_deps(tx@, completed_cell_deps(old(self), tx@)),
            final(self).same_as(old(self)),
    {
        let ghost t = tx@;
        let mut cell_deps: Vec<CellDep> = Vec::new();
        let mut i: usize = 0;
        while i < tx.cell_deps.len()
            invariant
                i <= tx.cell_deps@.len(),
                cell_deps@ == tx.cell_deps@.subrange(0, i as int),
            decreases tx.cell_deps@.len() - i,
        {
            cell_deps.push(tx.cell_deps[i]);
            i = i + 1;
        }
        assert(cell_deps@ =~= tx.cell_deps@);

        let mut i: usize = 0;
        while i < tx.inputs.len()
            invariant
                i <= tx.inputs@.len(),
                t == tx@,
                required_code_found(self, t),
                cell_deps_view(cell_deps@) == add_script_deps(self, t.cell_deps, input_scripts(self, t.inputs.take(i as int))),
            decreases tx.inputs@.len() - i,
        {
            let ghost before = cell_deps_view(cell_deps@);
            let ghost pre = input_scripts(self, t.inputs.take(i as int));
            assert(t.inputs[i as int] == tx.inputs@[i as int]@);
            assert(scripts_found(self, cell_scripts(self, t.inputs[i as int].previous_output)));
            self.add_cell_script_deps(&mut cell_deps, &tx.inputs[i].previous_output);
            proof {
                let next = t.inputs.take(i + 1);
                assert(next.drop_last() =~= t.inputs.take(i as int));
                assert(next.last() == t.inputs[i as int]);
                lemma_add_script_deps_concat(self, t.cell_deps, pre, cell_scripts(self, t.inputs[i as int].previous_output));
            }
            i = i + 1;
        }
        assert(t.inputs.take(t.inputs.len() as int) =~= t.inputs);

        let paired = if tx.outputs.len() <= tx.outputs_data.len() { tx.outputs.len() } else { tx.outputs_data.len() };
        let ghost outs = paired_outputs(t);
        let ghost ins = input_scripts(self, t.inputs);
        assert(outs.len() == paired);
        let mut i: usize = 0;
        while i < paired
            invariant
                i <= paired,
                paired <= tx.outputs@.len(),
                outs.len() == paired,
                outs == paired_outputs(t),
                t == tx@,
                ins == input_scripts(self, t.inputs),
                forall|j: int| 0 <= j < paired ==> outs[j] == #[trigger] tx.outputs@[j]@,
                required_code_found(self, t),
                cell_deps_view(cell_deps@) == add_script_deps(self, add_script_deps(self, t.cell_deps, ins),
                    output_type_scripts(outs.take(i as int))),
            decreases paired - i,
        {
            let ghost pre = output_type_scripts(outs.take(i as int));
            let ghost l1 = add_script_deps(self, t.cell_deps, ins);
            assert(scripts_found(self, type_scripts(outs[i as int])));
            match &tx.outputs[i].type_ {
                Some(script) => {
                    assert(type_scripts(outs[i as int])[0] == script@);
                    let dep = self.find_cell_dep_for_script(script);
                    push_dep(&mut cell_deps, dep);
                    assert(type_scripts(outs[i as int]) =~= seq![script@]);
                    proof { lemma_add_script_deps_small(self, add_script_deps(self, l1, pre), script@); }
                },
                None => {
                    assert(type_scripts(outs[i as int]) =~= Seq::<ScriptModel>::empty());
                    proof { lemma_add_script_deps_small(self, add_script_deps(self, l1, pre), tx.outputs@[i as int].lock@); }
                },
            }
            proof {
                let next = outs.take(i + 1);
                assert(next.drop_last() =~= outs.take(i as int));
                assert(next.last() == outs[i as int]);
                lemma_add_script_deps_concat(self, l1, pre, type_scripts(outs[i as int]));
            }
            i = i + 1;
        }
        proof {
            assert(outs.take(paired as int) =~= outs);
            lemma_add_script_deps_concat(self, t.cell_deps, ins, output_type_scripts(outs));
        }
        Transaction {
            version: tx.version,
            cell_deps,
            header_deps: tx.header_deps,
            inputs: tx.inputs,
            outputs: tx.outputs,
            outputs_data: tx.outputs_data,
            witnesses: tx.witnesses,
        }
    }
}

} // verus!

verus! {

/// Adding script deps keeps the list it starts from as a prefix, and the result holds
/// the dep of every script and every dependency of the starting list.
pub proof fn lemma_add_script_deps_grows(ctx: &Context, l: Seq<CellDepModel>, s: Seq<ScriptModel>)
    ensures
        l.len() <= add_script_deps(ctx, l, s).len(),
        add_script_deps(ctx, l, s).subrange(0, l.len() as int) == l,
        forall|j: int| 0 <= j < s.len() ==> add_script_deps(ctx, l, s).contains(dep_for_script(ctx, #[trigger] s[j])),
        forall|d: CellDepModel| l.contains(d) ==> add_script_deps(ctx, l, s).contains(d),
    decreases s.len(),
{
    if s.len() > 0 {
        let prev = add_script_deps(ctx, l, s.drop_last());
        lemma_add_script_deps_grows(ctx, l, s.drop_last());
        let d = dep_for_script(ctx, s.last());
        let r = add_dep(prev, d);
        assert(r.subrange(0, prev.len() as int) =~= prev);
        assert(r.subrange(0, l.len() as int) =~= prev.subrange(0, l.len() as int));
        assert forall|x: CellDepModel| prev.contains(x) implies r.contains(x) by {
            let k = choose|k: int| 0 <= k < prev.len() && prev[k] == x;
            assert(r[k] == x);
        }
        assert(r.contains(d)) by {
            if !prev.contains(d) {
                assert(r[prev.len() as int] == d);
            }
        }
        assert forall|j: int| 0 <= j < s.len() implies r.contains(dep_for_script(ctx, #[trigger] s[j])) by {
            if j < s.len() - 1 {
                assert(s.drop_last()[j] == s[j]);
                assert(prev.contains(dep_for_script(ctx, s.drop_last()[j])));
            }
        }
    }
}

/// Every dependency that adding script deps gives is in the starting list or is the
/// dep of one of the scripts.
pub proof fn lemma_add_script_deps_only_needed(ctx: &Context, l: Seq<CellDepModel>, s: Seq<ScriptModel>)
    ensures
        forall|d: CellDepModel| #[trigger] add_script_deps(ctx, l, s).contains(d) ==>
            l.contains(d) || exists|j: int| 0 <= j < s.len() && d == dep_for_script(ctx, s[j]),
    decreases s.len(),
{
    if s.len() > 0 {
        let prev = add_script_deps(ctx, l, s.drop_last());
        lemma_add_script_deps_only_needed(ctx, l, s.drop_last());
        let r = add_dep(prev, dep_for_script(ctx, s.last()));
        assert forall|d: CellDepModel| #[trigger] r.contains(d) implies
            l.contains(d) || exists|j: int| 0 <= j < s.len() && d == dep_for_script(ctx, s[j]) by {
            if prev.contains(d) {
                if !l.contains(d) {
                    let j = choose|j: int| 0 <= j < s.drop_last().len() && d == dep_for_script(ctx, s.drop_last()[j]);
                    assert(s[j] == s.drop_last()[j]);
                }
            } else {
                let k = choose|k: int| 0 <= k < r.len() && r[k] == d;
                assert(k == prev.len());
                assert(d == dep_for_script(ctx, s[s.len() - 1]));
            }
        }
    }
}

/// Where the list already holds the dep of every script, adding them changes nothing.
pub proof fn lemma_add_script_deps_fixpoint(ctx: &Context, l: Seq<CellDepModel>, s: Seq<ScriptModel>)
    requires
        forall|j: int| 0 <= j < s.len() ==> l.contains(dep_for_script(ctx, #[trigger] s[j])),
    ensures
        add_script_deps(ctx, l, s) == l,
    decreases s.len(),
{
    if s.len() > 0 {
        assert forall|j: int| 0 <= j < s.drop_last().len() implies l.contains(
            dep_for_script(ctx, #[trigger] s.drop_last()[j])) by {
            assert(s.drop_last()[j] == s[j]);
        }
        lemma_add_script_deps_fixpoint(ctx, l, s.drop_last());
        assert(l.contains(dep_for_script(ctx, s[s.len() - 1])));
    }
}

/// Adding script deps to a list without repeats gives a list without repeats.
pub proof fn lemma_add_script_deps_no_duplicates(ctx: &Context, l: Seq<CellDepModel>, s: Seq<ScriptModel>)
    requires
        l.no_duplicates(),
    ensures
        add_script_deps(ctx, l, s).no_duplicates(),
    decreases s.len(),
{
    if s.len() > 0 {
        lemma_add_script_deps_no_duplicates(ctx, l, s.drop_last());
        let prev = add_script_deps(ctx, l, s.drop_last());
        let d = dep_for_script(ctx, s.last());
        if !prev.contains(d) {
            let r = prev.push(d);
            assert forall|i: int, j: int| 0 <= i < r.len() && 0 <= j < r.len() && i != j implies r[i] != r[j] by {
                if i == prev.len() {
                    assert(prev[j] != d);
                } else if j == prev.len() {
                    assert(prev[i] != d);
                }
            }
        }
    }
}

/// Completing a transaction twice gives what completing it once gives.
pub proof fn law_complete_tx_idempotent(ctx: &Context, tx: TransactionModel)
    ensures
        completed_cell_deps(ctx, with_cell_deps(tx, completed_cell_deps(ctx, tx))) == completed_cell_deps(ctx, tx),
{
    let done = completed_cell_deps(ctx, tx);
    let tx2 = with_cell_deps(tx, done);
    assert(required_scripts(ctx, tx2) == required_scripts(ctx, tx));
    lemma_add_script_deps_grows(ctx, tx.cell_deps, required_scripts(ctx, tx));
    lemma_add_script_deps_fixpoint(ctx, done, required_scripts(ctx, tx));
}

/// A completed transaction keeps its own cell dependencies, first and in order; it
/// holds the code dependency of every script it needs; every dependency it gained is
/// the code dependency of a script it needs; and it repeats no dependency that its own
/// list did not repeat.
pub proof fn law_complete_tx_deps(ctx: &Context, tx: TransactionModel)
    ensures
        tx.cell_deps.len() <= completed_cell_deps(ctx, tx).len(),
        completed_cell_deps(ctx, tx).subrange(0, tx.cell_deps.len() as int) == tx.cell_deps,
        forall|j: int| 0 <= j < required_scripts(ctx, tx).len() ==> completed_cell_deps(ctx, tx).contains(
            dep_for_script(ctx, #[trigger] required_scripts(ctx, tx)[j])),
        forall|d: CellDepModel| #[trigger] completed_cell_deps(ctx, tx).contains(d) ==> tx.cell_deps.contains(d)
            || exists|j: int| 0 <= j < required_scripts(ctx, tx).len() && d == dep_for_script(ctx, required_scripts(ctx, tx)[j]),
        tx.cell_deps.no_duplicates() ==> completed_cell_deps(ctx, tx).no_duplicates(),
{
    lemma_add_script_deps_grows(ctx, tx.cell_deps, required_scripts(ctx, tx));
    lemma_add_script_deps_only_needed(ctx, tx.cell_deps, required_scripts(ctx, tx));
    if tx.cell_deps.no_duplicates() {
        lemma_add_script_deps_no_duplicates(ctx, tx.cell_deps, required_scripts(ctx, tx));
    }
}

} // verus!

verus! {

/// Each script of the cell spent by input `i` occurs among the scripts of all inputs.
proof fn lemma_input_scripts_hold(ctx: &Context, inputs: Seq<CellInputModel>, i: int, k: int)
    requires
        0 <= i < inputs.len(),
        0 <= k < cell_scripts(ctx, inputs[i].previous_output).len(),
    ensures
        input_scripts(ctx, inputs).contains(cell_scripts(ctx, inputs[i].previous_output)[k]),
    decreases inputs.len(),
{
    let prev = input_scripts(ctx, inputs.drop_last());
    let whole = input_scripts(ctx, inputs);
    if i == inputs.len() - 1 {
        assert(whole[prev.len() + k] == cell_scripts(ctx, inputs[i].previous_output)[k]);
    } else {
        assert(inputs.drop_last()[i] == inputs[i]);
        lemma_input_scripts_hold(ctx, inputs.drop_last(), i, k);
        let m = choose|m: int| 0 <= m < prev.len() && prev[m] == cell_scripts(ctx, inputs[i].previous_output)[k];
        assert(whole[m] == prev[m]);
    }
}

/// The type script of output `j` occurs among the type scripts of the outputs.
proof fn lemma_output_type_scripts_hold(outputs: Seq<CellOutputModel>, j: int)
    requires
        0 <= j < outputs.len(),
        outputs[j].type_ is Some,
    ensures
        output_type_scripts(outputs).contains(outputs[j].type_->0),
    decreases outputs.len(),
{
    let prev = output_type_scripts(outputs.drop_last());
    let whole = output_type_scripts(outputs);
    if j == outputs.len() - 1 {
        assert(whole[prev.len() as int] == outputs[j].type_->0);
    } else {
        assert(outputs.drop_last()[j] == outputs[j]);
        lemma_output_type_scripts_hold(outputs.drop_last(), j);
        let m = choose|m: int| 0 <= m < prev.len() && prev[m] == outputs[j].type_->0;
        assert(whole[m] == prev[m]);
    }
}

/// A script that a transaction needs gets its code dependency in the completed list.
proof fn lemma_needed_script_gets_dep(ctx: &Context, tx: TransactionModel, s: ScriptModel)
    requires
        required_scripts(ctx, tx).contains(s),
    ensures
        completed_cell_deps(ctx, tx).contains(dep_for_script(ctx, s)),
{
    let req = required_scripts(ctx, tx);
    lemma_add_script_deps_grows(ctx, tx.cell_deps, req);
    let j = choose|j: int| 0 <= j < req.len() && req[j] == s;
    assert(completed_cell_deps(ctx, tx).contains(dep_for_script(ctx, req[j])));
}

/// Completing a transaction gives it, as a code dependency, the cell that holds the code
/// of every script it runs: the lock script and the type script of each spent cell that
/// the context holds, and the type script of each output that has data beside it. The
/// cell is the one that the type hash index names for a script of the type hash type,
/// and the one that the data hash index names otherwise.
pub proof fn law_complete_tx_adds_code_of_every_script(ctx: &Context, tx: TransactionModel)
    ensures
        forall|i: int| 0 <= i < tx.inputs.len() && ctx.cells@.contains_key(#[trigger] tx.inputs[i].previous_output)
            ==> {
            let c = ctx.cells@[tx.inputs[i].previous_output].0;
            &&& completed_cell_deps(ctx, tx).contains(CellDepModel {
                out_point: if c.lock.hash_type == 1 {
                    ctx.cells_by_type_hash@[c.lock.code_hash]
                } else {
                    ctx.cells_by_data_hash@[c.lock.code_hash]
                },
                dep_type: 0,
            })
            &&& c.type_ is Some ==> completed_cell_deps(ctx, tx).contains(CellDepModel {
                out_point: if c.type_->0.hash_type == 1 {
                    ctx.cells_by_type_hash@[c.type_->0.code_hash]
                } else {
                    ctx.cells_by_data_hash@[c.type_->0.code_hash]
                },
                dep_type: 0,
            })
        },
        forall|j: int| 0 <= j < tx.outputs.len() && j < tx.outputs_data.len() && (#[trigger] tx.outputs[j]).type_ is Some
            ==> completed_cell_deps(ctx, tx).contains(CellDepModel {
                out_point: if tx.outputs[j].type_->0.hash_type == 1 {
                    ctx.cells_by_type_hash@[tx.outputs[j].type_->0.code_hash]
                } else {
                    ctx.cells_by_data_hash@[tx.outputs[j].type_->0.code_hash]
                },
                dep_type: 0,
            }),
{
    let ins = input_scripts(ctx, tx.inputs);
    let outs = output_type_scripts(paired_outputs(tx));
    let req = required_scripts(ctx, tx);
    assert forall|i: int| 0 <= i < tx.inputs.len() && ctx.cells@.contains_key(#[trigger] tx.inputs[i].previous_output)
        implies {
            let c = ctx.cells@[tx.inputs[i].previous_output].0;
            &&& completed_cell_deps(ctx, tx).contains(dep_for_script(ctx, c.lock))
            &&& c.type_ is Some ==> completed_cell_deps(ctx, tx).contains(dep_for_script(ctx, c.type_->0))
        } by {
        let op = tx.inputs[i].previous_output;
        let c = ctx.cells@[op].0;
        let sc = cell_scripts(ctx, op);
        lemma_input_scripts_hold(ctx, tx.inputs, i, 0);
        let m = choose|m: int| 0 <= m < ins.len() && ins[m] == sc[0];
        assert(req[m] == sc[0]);
        lemma_needed_script_gets_dep(ctx, tx, c.lock);
        if c.type_ is Some {
            assert(sc[1] == c.type_->0);
            lemma_input_scripts_hold(ctx, tx.inputs, i, 1);
            let m2 = choose|m: int| 0 <= m < ins.len() && ins[m] == sc[1];
            assert(req[m2] == sc[1]);
            lemma_needed_script_gets_dep(ctx, tx, c.type_->0);
        }
    }
    assert forall|j: int| 0 <= j < tx.outputs.len() && j < tx.outputs_data.len() && (#[trigger] tx.outputs[j]).type_ is Some
        implies completed_cell_deps(ctx, tx).contains(dep_for_script(ctx, tx.outputs[j].type_->0)) by {
        let po = paired_outputs(tx);
        assert(po[j] == tx.outputs[j]);
        lemma_output_type_scripts_hold(po, j);
        let m = choose|m: int| 0 <= m < outs.len() && outs[m] == tx.outputs[j].type_->0;
        assert(req[ins.len() + m] == outs[m]);
        lemma_needed_script_gets_dep(ctx, tx, tx.outputs[j].type_->0);
    }
}

} // verus!
