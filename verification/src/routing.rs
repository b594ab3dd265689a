//! Audio routing data structures.

use vstd::prelude::*;
use vstd::pervasive::VecAdditionalExecFns;

verus! {

/// Audio port type.
#[derive(Debug, Clone, Copy, PartialEq, Eq, Structural)]
pub enum PortType {
    /// Analog input.
    AnalogIn,
    /// Analog output.
    AnalogOut,
    /// S/PDIF input.
    SpdifIn,
    /// S/PDIF output.
    SpdifOut,
    /// ADAT input.
    AdatIn,
    /// ADAT output.
    AdatOut,
    /// Mixer output.
    MixerOut,
    /// PCM (DAW) input.
    PcmIn,
    /// PCM (DAW) output.
    PcmOut,
    /// DSP input.
    DspIn,
    /// DSP output.
    DspOut,
}

/// Audio port.
#[derive(Debug, PartialEq, Eq)]
pub struct Port {
    pub port_type: PortType,
    pub index: usize,
    pub name: String,
}

impl Clone for Port {
    /// Field-for-field copy.
    fn clone(&self) -> (r: Self)
        ensures
            r == *self,
    {
        Port { port_type: self.port_type, index: self.index, name: self.name.clone() }
    }
}

/// Routing matrix: a destination-indexed optional source mapping.
#[derive(Debug, PartialEq, Eq)]
pub struct RoutingMatrix {
    /// Available sources.
    pub sources: Vec<Port>,
    /// Available destinations.
    pub destinations: Vec<Port>,
    /// Current routing: destination index to source index.
    pub routes: Vec<Option<usize>>,
}

impl RoutingMatrix {
    /// Create an empty matrix.
    pub fn new() -> (r: Self)
        ensures
            r.sources@.len() == 0,
            r.destinations@.len() == 0,
            r.routes@.len() == 0,
    {
        RoutingMatrix { sources: Vec::new(), destinations: Vec::new(), routes: Vec::new() }
    }

    /// Route a destination to a source (or to nothing). A destination index
    /// beyond the table leaves the matrix unchanged.
    pub fn set_route(&mut self, dest_idx: usize, source_idx: Option<usize>)
        ensures
            dest_idx < old(self).routes@.len() ==> final(self).routes@ == old(
                self,
            ).routes@.update(dest_idx as int, source_idx),
            dest_idx >= old(self).routes@.len() ==> final(self).routes@ == old(self).routes@,
            final(self).sources == old(self).sources,
            final(self).destinations == old(self).destinations,
    {
        if dest_idx < self.routes.len() {
            self.routes.set(dest_idx, source_idx);
        }
    }

    /// The source a destination is routed from, if any.
    pub open spec fn spec_route(self, dest_idx: int) -> Option<usize> {
        if 0 <= dest_idx < self.routes@.len() {
            self.routes@[dest_idx]
        } else {
            None
        }
    }

    /// Get the source a destination is routed from, if any.
    pub fn get_route(&self, dest_idx: usize) -> (r: Option<usize>)
        ensures
            r == self.spec_route(dest_idx as int),
    {
        if dest_idx < self.routes.len() {
            self.routes[dest_idx]
        } else {
            None
        }
    }
}

} // verus!
