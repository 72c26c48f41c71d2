use vstd::prelude::*;

use crate::stream;

verus! {

/// The ways of talking to a device over its web interface.
#[derive(Clone, Debug)]
pub enum SubCmds {
    /// Stream readings to a sink.
    Stream(stream::Options),
    /// Read once and print.
    Get,
}

} // verus!
