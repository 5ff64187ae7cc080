//! What a connector author declares: the direction of the connector and the
//! function that does its work.

use proc_macro2::TokenStream;
use vstd::prelude::*;

verus! {

/// Which way records flow through the connector.
#[derive(Clone, Copy, Debug, PartialEq, Eq, Structural)]
pub enum ConnectorDirection {
    /// The connector produces records from another system.
    Source,
    /// The connector consumes records into another system.
    Sink,
}

/// The author's function. Neither part is inspected: the name is placed
/// where the function is called, the definition is carried through as it is.
pub struct ConnectorFn {
    /// The tokens that name the function, as a call expression needs them.
    pub name: TokenStream,
    /// The whole definition of the function.
    pub func: TokenStream,
}

} // verus!
