use vstd::prelude::*;

verus! {

/// The transport a request arrived on; it labels the limiter's metrics.
#[derive(Debug, Clone, Copy, PartialEq, Eq, Hash, Structural)]
pub enum Transport {
    Ws,
}

/// The metric label of a transport, in snake case.
pub open spec fn transport_label(t: Transport) -> Seq<char> {
    match t {
        Transport::Ws => "ws"@,
    }
}

impl Transport {
    /// The label under which metrics of this transport are recorded.
    pub fn label(&self) -> (r: &'static str)
        ensures
            r@ == transport_label(*self),
    {
        match self {
            Transport::Ws => {
                proof {
                    reveal_strlit("ws");
                }
                "ws"
            },
        }
    }
}

} // verus!
