//! Whole-port acquisition.
//!
//! A [`Batch`] is the zero-sized token for claiming every pin of one port at
//! once. All pin handles of a port are produced by a single split of its
//! batch, which guarantees exactly one live handle per pin; from then on each
//! handle transitions through its typestates on its own.

use core::marker::PhantomData;

use vstd::prelude::*;

use crate::gpio::{Floating, Input, Parts, PortNum};

verus! {

/// GPIO batch for a specific port, holding the typestates all 8 pins take
/// when the batch is split.
pub struct Batch<PORT: PortNum, DIR0, DIR1, DIR2, DIR3, DIR4, DIR5, DIR6, DIR7> {
    _port: PhantomData<PORT>,
    _dirs: PhantomData<(DIR0, DIR1, DIR2, DIR3, DIR4, DIR5, DIR6, DIR7)>,
}

impl<PORT: PortNum> Batch<
    PORT,
    Input<Floating>,
    Input<Floating>,
    Input<Floating>,
    Input<Floating>,
    Input<Floating>,
    Input<Floating>,
    Input<Floating>,
    Input<Floating>,
> {
    /// Claims a whole port in its reset configuration: every pin a floating
    /// input in GPIO function, matching registers that read zero. Exactly one
    /// batch per port must ever be created; the port's pins have no other
    /// owner afterwards.
    pub fn new() -> Self {
        Batch { _port: PhantomData, _dirs: PhantomData }
    }
}

impl<
    PORT: PortNum,
    DIR0,
    DIR1,
    DIR2,
    DIR3,
    DIR4,
    DIR5,
    DIR6,
    DIR7,
> Batch<PORT, DIR0, DIR1, DIR2, DIR3, DIR4, DIR5, DIR6, DIR7> {
    /// Rebuilds a batch from a full set of parts; used when the whole port is
    /// reconfigured at once.
    pub(crate) fn from_parts() -> Self {
        Batch { _port: PhantomData, _dirs: PhantomData }
    }

    /// Splits the batch into one handle per pin, each typed to the state the
    /// batch recorded for it.
    pub fn split(self) -> Parts<PORT, DIR0, DIR1, DIR2, DIR3, DIR4, DIR5, DIR6, DIR7> {
        Parts::new()
    }
}

} // verus!
