//! Looking up the modules of the process.

use vstd::prelude::*;

verus! {

/// Why the base of a module could not be had.
#[derive(Debug, Clone, Copy, PartialEq, Eq)]
pub enum SymbolLookupError {
    ModuleNotFound,
}

/// The base address of a module, from what the lookup of its handle gave.
pub fn get_module_handle(handle: Option<usize>) -> (base: Result<usize, SymbolLookupError>)
    ensures
        base == match handle {
            Some(address) => Ok::<usize, SymbolLookupError>(address),
            None => Err::<usize, SymbolLookupError>(SymbolLookupError::ModuleNotFound),
        },
{
    match handle {
        Some(address) => Ok(address),
        None => Err(SymbolLookupError::ModuleNotFound),
    }
}

} // verus!
