use vstd::prelude::*;

verus! {

/// Names the kind of operation a request performs. It carries no payload and
/// serves to correlate telemetry and to select per-operation behaviour.
#[derive(Clone, Copy, Debug, PartialEq, Eq, Structural)]
pub enum Flow {
    PaymentLinkRetrieve,
    PaymentLinkInitiate,
    PaymentLinkList,
}

impl Flow {
    /// Whether the operation changes merchant state.
    pub open spec fn mutates(self) -> bool {
        self == Flow::PaymentLinkInitiate
    }

    /// Whether the operation may take its identity from the request path
    /// alone. Only flows named here may: the path is then the trust boundary.
    pub open spec fn path_trusted(self) -> bool {
        self == Flow::PaymentLinkInitiate
    }

    /// Whether the operation may take its identity from the request path
    /// alone.
    pub fn trusts_path(&self) -> (r: bool)
        ensures
            r == self.path_trusted(),
    {
        match self {
            Flow::PaymentLinkInitiate => true,
            _ => false,
        }
    }

    /// Whether the operation changes merchant state.
    pub fn is_mutation(&self) -> (r: bool)
        ensures
            r == self.mutates(),
    {
        match self {
            Flow::PaymentLinkInitiate => true,
            _ => false,
        }
    }
}

} // verus!
