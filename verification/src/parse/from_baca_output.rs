//! Building a value from a server reply.
use vstd::prelude::*;
use crate::workspace::ConnectionConfig;

verus! {

/// A value that can be read from a server reply.
pub trait FromBacaOutput: Sized {
    /// The replies the value can be read from.
    spec fn readable(data: &str) -> bool;

    /// The value the reply `data` describes.
    fn from_baca_output(connection_config: &ConnectionConfig, data: &str) -> (r: Self)
        requires
            Self::readable(data),
    ;
}

} // verus!
