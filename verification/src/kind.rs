//! The categories of hardware facts that a snapshot can carry.

use vstd::prelude::*;

verus! {

/// One category of hardware telemetry. Every snapshot field and every
/// detail panel of the presenter belongs to exactly one of these.
#[derive(Clone, Copy, Debug, PartialEq, Eq, Structural)]
pub enum HWKind {
    CPU,
    GPU,
    RAM,
    DISK,
    NETWORK,
    SYSTEM,
    COMPONENTS,
    PROCESSES,
    MISC,
}

impl HWKind {
    /// The display name of the category, as a sequence of characters.
    pub open spec fn spec_label(self) -> Seq<char> {
        match self {
            HWKind::CPU => "CPU"@,
            HWKind::GPU => "GPU"@,
            HWKind::RAM => "RAM"@,
            HWKind::DISK => "DISK"@,
            HWKind::NETWORK => "NETWORK"@,
            HWKind::SYSTEM => "SYSTEM"@,
            HWKind::COMPONENTS => "COMPONENTS"@,
            HWKind::PROCESSES => "PROCESSES"@,
            HWKind::MISC => "MISC"@,
        }
    }

    /// The display name of the category.
    pub fn label(&self) -> (r: &'static str)
        ensures
            r@ == self.spec_label(),
    {
        match self {
            HWKind::CPU => "CPU",
            HWKind::GPU => "GPU",
            HWKind::RAM => "RAM",
            HWKind::DISK => "DISK",
            HWKind::NETWORK => "NETWORK",
            HWKind::SYSTEM => "SYSTEM",
            HWKind::COMPONENTS => "COMPONENTS",
            HWKind::PROCESSES => "PROCESSES",
            HWKind::MISC => "MISC",
        }
    }

    /// Every category, in presentation order.
    pub open spec fn spec_all() -> Seq<HWKind> {
        seq![
            HWKind::CPU,
            HWKind::GPU,
            HWKind::RAM,
            HWKind::DISK,
            HWKind::NETWORK,
            HWKind::SYSTEM,
            HWKind::COMPONENTS,
            HWKind::PROCESSES,
            HWKind::MISC,
        ]
    }

    /// Every category, in presentation order.
    pub fn all() -> (r: Vec<HWKind>)
        ensures
            r@ == HWKind::spec_all(),
    {
        let mut v: Vec<HWKind> = Vec::new();
        v.push(HWKind::CPU);
        v.push(HWKind::GPU);
        v.push(HWKind::RAM);
        v.push(HWKind::DISK);
        v.push(HWKind::NETWORK);
        v.push(HWKind::SYSTEM);
        v.push(HWKind::COMPONENTS);
        v.push(HWKind::PROCESSES);
        v.push(HWKind::MISC);
        proof {
            assert(v@ =~= HWKind::spec_all());
        }
        v
    }
}

} // verus!
