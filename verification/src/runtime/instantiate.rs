//! From bytes to a machine at rest.

use crate::decoder::decoder::Decoder;
use crate::decoder::module::parse_module;
use crate::runtime::result::{Error, Result};
use crate::runtime::runtime::{at_rest, Runtime};
use crate::runtime::store::{instantiate as instantiated, Store};
use vstd::prelude::*;

verus! {

/// Decodes a module, makes its store and puts the store into a machine at
/// rest. A failure of the decoder comes back as `DecodeError`.
pub fn instantiate(reader: &[u8]) -> (r: Result<Runtime>)
    ensures
        match parse_module(reader@, 0) {
            Err(e) => r matches Err(Error::DecodeError(x)) && x == e,
            Ok(module) => match instantiated(module) {
                Err(e) => r matches Err(x) && x == e,
                Ok(store) => r matches Ok(runtime) && runtime@ == at_rest(store)
                    && runtime.step_budget() == u64::MAX,
            },
        },
{
    let mut decoder = Decoder::new(reader);
    match decoder.decode() {
        Ok(module) => {
            let store = Store::from_module(module)?;
            Ok(Runtime::new(store))
        },
        Err(err) => Err(Error::DecodeError(err)),
    }
}

} // verus!
