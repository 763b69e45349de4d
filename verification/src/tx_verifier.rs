//! An offline check of a transaction's structure.
use vstd::prelude::*;
use crate::types::{Transaction, TransactionModel};

verus! {

/// The ways a transaction's structure can be wrong.
#[derive(Debug, PartialEq, Eq)]
pub enum TransactionError {
    /// The transaction has a different number of outputs and of output data.
    OutputsDataLengthMismatch { outputs_data_len: usize, outputs_len: usize },
}

/// An offline transaction checker that helps detect incorrect transaction structures.
pub struct OutputsDataVerifier<'a> {
    transaction: &'a Transaction,
}

impl<'a> OutputsDataVerifier<'a> {
    /// The transaction that this verifier checks.
    pub closed spec fn checked(&self) -> TransactionModel {
        self.transaction@
    }

    /// Returns a new OutputsDataVerifier.
    pub fn new(transaction: &'a Transaction) -> (v: Self)
        ensures
            v.checked() == transaction@,
    {
        OutputsDataVerifier { transaction }
    }

    /// Check if count of cell output and count of output data are equal.
    pub fn verify(&self) -> (r: Result<(), TransactionError>)
        ensures
            r is Ok <==> self.checked().outputs.len() == self.checked().outputs_data.len(),
            r matches Err(e) ==> e == (TransactionError::OutputsDataLengthMismatch {
                outputs_data_len: self.checked().outputs_data.len() as usize,
                outputs_len: self.checked().outputs.len() as usize,
            }),
    {
        let outputs_len = self.transaction.outputs.len();
        let outputs_data_len = self.transaction.outputs_data.len();

        if outputs_len != outputs_data_len {
            return Err(TransactionError::OutputsDataLengthMismatch { outputs_data_len, outputs_len });
        }
        Ok(())
    }
}

} // verus!
