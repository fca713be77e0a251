//! The transport upgrade plan: encryption over the raw socket, multiplexing
//! over the encrypted channel, and one deadline over the whole sequence.
use crate::peer::Identity;
use vstd::prelude::*;

verus! {

/// The ceiling on dial, handshake and multiplex negotiation together.
pub const UPGRADE_TIMEOUT_MS: u64 = 20000;

/// One step of the upgrade pipeline.
#[derive(Clone, Copy, Debug, PartialEq, Eq, Structural)]
pub enum Layer {
    /// Mutual-authentication encryption handshake bound to the local identity.
    Handshake,
    /// Stream multiplexing with the default window configuration.
    Multiplex,
    /// Deadline on the whole upgrade, in milliseconds.
    Timeout { millis: u64 },
}

/// The fixed layering: encryption first, then multiplexing, then the deadline.
pub open spec fn standard_layers() -> Seq<Layer> {
    seq![Layer::Handshake, Layer::Multiplex, Layer::Timeout { millis: UPGRADE_TIMEOUT_MS }]
}

/// The upgrade pipeline bound to one identity; immutable once built.
pub struct Pipeline {
    identity: Identity,
    layers: Vec<Layer>,
}

impl Pipeline {
    pub closed spec fn layer_seq(&self) -> Seq<Layer> {
        self.layers@
    }

    pub closed spec fn owner(&self) -> Identity {
        self.identity
    }

    /// Assembles the pipeline for an identity.
    pub fn build(identity: Identity) -> (r: Pipeline)
        ensures
            r.layer_seq() == standard_layers(),
            r.owner() == identity,
            timeout_of(r.layer_seq()) == Some(UPGRADE_TIMEOUT_MS),
    {
        let layers = vec![Layer::Handshake, Layer::Multiplex, Layer::Timeout { millis: UPGRADE_TIMEOUT_MS }];
        let r = Pipeline { identity, layers };
        assert(r.layers@ == standard_layers());
        proof {
            reveal_with_fuel(timeout_of, 3);
        }
        r
    }

    pub fn layers(&self) -> (r: &Vec<Layer>)
        ensures
            r@ == self.layer_seq(),
    {
        &self.layers
    }

    pub fn identity(&self) -> (r: &Identity)
        ensures
            *r == self.owner(),
    {
        &self.identity
    }

    /// The deadline of the pipeline's timeout layer, if it has one.
    pub fn upgrade_timeout_ms(&self) -> (r: Option<u64>)
        ensures
            r == timeout_of(self.layer_seq()),
    {
        let mut i: usize = 0;
        assert(self.layers@.subrange(0, self.layers@.len() as int) == self.layers@);
        while i < self.layers.len()
            invariant
                0 <= i <= self.layers@.len(),
                timeout_of(self.layers@) == timeout_of(self.layers@.subrange(i as int, self.layers@.len() as int)),
            decreases self.layers@.len() - i,
        {
            let ghost rest = self.layers@.subrange(i as int, self.layers@.len() as int);
            assert(rest.drop_first() == self.layers@.subrange(i + 1, self.layers@.len() as int));
            if let Layer::Timeout { millis } = self.layers[i] {
                return Some(millis);
            }
            i = i + 1;
        }
        None
    }
}

/// The deadline of the first timeout layer.
pub open spec fn timeout_of(layers: Seq<Layer>) -> Option<u64>
    decreases layers.len(),
{
    if layers.len() == 0 {
        None
    } else {
        match layers[0] {
            Layer::Timeout { millis } => Some(millis),
            _ => timeout_of(layers.drop_first()),
        }
    }
}

} // verus!
