//! How a tee is set up.

use vstd::prelude::*;

verus! {

/// The kind of temporary file that backs a tee.
#[derive(Clone, Copy, Debug, PartialEq, Eq, Structural)]
pub enum BackingStoreKind {
    /// An unnamed file, removed by the system once its last handle closes.
    Anonymous,
    /// A named file, managed by the tee.
    Named,
}

/// The options of a tee.
#[derive(Clone, Copy, Debug, PartialEq, Eq, Structural)]
pub struct TeeConfig {
    /// Which kind of file captures the bytes.
    pub backing_store_kind: BackingStoreKind,
    /// Whether captured bytes are also forwarded to a destination stream.
    pub relay: bool,
}

impl TeeConfig {
    /// A tee over an unnamed file that captures and forwards.
    pub fn with_relay() -> (config: TeeConfig)
        ensures
            config == (TeeConfig { backing_store_kind: BackingStoreKind::Anonymous, relay: true }),
    {
        TeeConfig { backing_store_kind: BackingStoreKind::Anonymous, relay: true }
    }

    /// A tee over an unnamed file that captures without forwarding.
    pub fn capture_only() -> (config: TeeConfig)
        ensures
            config == (TeeConfig { backing_store_kind: BackingStoreKind::Anonymous, relay: false }),
    {
        TeeConfig { backing_store_kind: BackingStoreKind::Anonymous, relay: false }
    }

    /// The same options over the given kind of backing store.
    pub fn backed_by(self, kind: BackingStoreKind) -> (config: TeeConfig)
        ensures
            config == (TeeConfig { backing_store_kind: kind, relay: self.relay }),
    {
        TeeConfig { backing_store_kind: kind, relay: self.relay }
    }
}

} // verus!
