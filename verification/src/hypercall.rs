//! Arguments and results of a hypercall.

use vstd::prelude::*;

verus! {

/// A hypercall on its way from the guest through a handler and back: the
/// function identifier, the argument registers and the result registers.
pub struct HypercallAbi {
    /// The identifier of the function that is called.
    pub id: u64,
    /// The arguments, in register order.
    pub args: Vec<u64>,
    /// The results, in register order.
    pub results: Vec<u64>,
}

impl HypercallAbi {
    /// A call with the given identifier and arguments. Until a handler sets
    /// results, the results are `default_results`.
    pub fn new(id: u64, args: Vec<u64>, default_results: Vec<u64>) -> (abi: HypercallAbi)
        ensures
            abi.id == id,
            abi.args == args,
            abi.results == default_results,
    {
        HypercallAbi { id, args, results: default_results }
    }

    /// The identifier of the function that is called.
    pub fn hypercall_id(&self) -> (id: u64)
        ensures
            id == self.id,
    {
        self.id
    }

    /// The argument at `index`, if there is one.
    pub fn get_argument(&self, index: usize) -> (arg: Option<u64>)
        ensures
            arg == (if index < self.args@.len() {
                Some(self.args@[index as int])
            } else {
                None
            }),
    {
        if index < self.args.len() {
            Some(self.args[index])
        } else {
            None
        }
    }

    /// The results.
    pub fn get_results(&self) -> (results: &Vec<u64>)
        ensures
            *results == self.results,
    {
        &self.results
    }

    /// Replaces the results.
    pub fn set_results(&mut self, results: Vec<u64>)
        ensures
            *final(self) == (HypercallAbi { results, ..*old(self) }),
    {
        self.results = results;
    }
}

} // verus!
