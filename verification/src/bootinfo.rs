//! The boot-information singleton: the process-wide, write-once
//! description of the initial capability layout and discovered
//! hardware regions.
//!
//! The kernel hands the structure to the initial thread at start-up;
//! an explicit initialisation call records it exactly once, and every
//! later read either yields that same value or answers with a
//! definite "not yet initialised" — never with a stray reference.
//! This layer only consumes the recorded ranges; it neither computes
//! nor validates them.
use vstd::prelude::*;

use crate::types::seL4_Word;

verus! {

/// Capacity of the boot-information device-region table.
pub const MAX_BDR: usize = 199;

/// Capacity of the boot-information untyped-capability tables.
pub const MAX_CAPS: usize = 167;

/// The well-known slots of the initial thread's root CNode.
#[derive(Clone, Copy, PartialEq, Eq, Debug)]
pub enum seL4_Cap {
    seL4_CapNull,
    seL4_CapInitThreadTCB,
    seL4_CapInitThreadCNode,
    seL4_CapInitThreadVSpace,
    seL4_CapIRQControl,
    seL4_CapASIDControl,
    seL4_CapInitThreadASIDPool,
    seL4_CapIOPort,
    seL4_CapIOSpace,
    seL4_CapBootInfoFrame,
    seL4_CapInitThreadIPCBuffer,
    seL4_CapDomain,
}

impl seL4_Cap {
    /// The root-CNode slot each well-known capability occupies, in
    /// the order the kernel populates them.
    pub open spec fn spec_slot(self) -> seL4_Word {
        match self {
            seL4_Cap::seL4_CapNull => 0,
            seL4_Cap::seL4_CapInitThreadTCB => 1,
            seL4_Cap::seL4_CapInitThreadCNode => 2,
            seL4_Cap::seL4_CapInitThreadVSpace => 3,
            seL4_Cap::seL4_CapIRQControl => 4,
            seL4_Cap::seL4_CapASIDControl => 5,
            seL4_Cap::seL4_CapInitThreadASIDPool => 6,
            seL4_Cap::seL4_CapIOPort => 7,
            seL4_Cap::seL4_CapIOSpace => 8,
            seL4_Cap::seL4_CapBootInfoFrame => 9,
            seL4_Cap::seL4_CapInitThreadIPCBuffer => 10,
            seL4_Cap::seL4_CapDomain => 11,
        }
    }

    pub fn slot(self) -> (r: seL4_Word)
        ensures
            r == self.spec_slot(),
    {
        match self {
            seL4_Cap::seL4_CapNull => 0,
            seL4_Cap::seL4_CapInitThreadTCB => 1,
            seL4_Cap::seL4_CapInitThreadCNode => 2,
            seL4_Cap::seL4_CapInitThreadVSpace => 3,
            seL4_Cap::seL4_CapIRQControl => 4,
            seL4_Cap::seL4_CapASIDControl => 5,
            seL4_Cap::seL4_CapInitThreadASIDPool => 6,
            seL4_Cap::seL4_CapIOPort => 7,
            seL4_Cap::seL4_CapIOSpace => 8,
            seL4_Cap::seL4_CapBootInfoFrame => 9,
            seL4_Cap::seL4_CapInitThreadIPCBuffer => 10,
            seL4_Cap::seL4_CapDomain => 11,
        }
    }
}

/// A contiguous range of CNode slots: `start` is the first slot of
/// the region, `end` the first slot after it.
#[derive(Clone, Copy, PartialEq, Eq, Debug)]
pub struct seL4_SlotRegion {
    pub start: seL4_Word,
    pub end: seL4_Word,
}

/// One device-memory region: its base physical address, the size of
/// each of its frames as a power of two, and the slots of its frame
/// capabilities.
#[derive(Clone, Copy, PartialEq, Eq, Debug)]
pub struct seL4_DeviceRegion {
    pub basePaddr: seL4_Word,
    pub frameSizeBits: seL4_Word,
    pub frames: seL4_SlotRegion,
}

/// The boot information the kernel hands the initial thread: node
/// topology, the location of the initial thread's IPC buffer, the
/// initial capability slot ranges, the untyped-memory tables, the
/// device regions and the initial domain.
#[derive(Clone, PartialEq, Eq, Debug)]
pub struct seL4_BootInfo {
    pub nodeID: seL4_Word,
    pub numNodes: seL4_Word,
    pub numIOPTLevels: seL4_Word,
    /// Location of the initial thread's IPC buffer.
    pub ipcBuffer: seL4_Word,
    pub empty: seL4_SlotRegion,
    pub sharedFrames: seL4_SlotRegion,
    pub userImageFrames: seL4_SlotRegion,
    pub userImagePTs: seL4_SlotRegion,
    pub untyped: seL4_SlotRegion,
    pub untypedPaddrList: Vec<seL4_Word>,
    pub untypedSizeBitsList: Vec<u8>,
    pub initThreadCNodeSizeBits: u8,
    pub numDeviceRegions: seL4_Word,
    pub deviceRegions: Vec<seL4_DeviceRegion>,
    pub initThreadDomain: seL4_Word,
}

impl seL4_BootInfo {
    /// The layout invariant: the untyped tables hold one entry per
    /// possible untyped capability and the device-region table its
    /// fixed capacity, as the kernel's structure lays them out.
    pub open spec fn wf(self) -> bool {
        &&& self.untypedPaddrList@.len() == MAX_CAPS
        &&& self.untypedSizeBitsList@.len() == MAX_CAPS
        &&& self.deviceRegions@.len() == MAX_BDR
    }

    /// A zeroed structure of the fixed layout, for a caller that
    /// fills the fields in before recording it.
    pub fn new() -> (r: Self)
        ensures
            r.wf(),
            r.nodeID == 0,
            r.numNodes == 0,
            r.numIOPTLevels == 0,
            r.ipcBuffer == 0,
            r.empty == (seL4_SlotRegion { start: 0, end: 0 }),
            r.untyped == (seL4_SlotRegion { start: 0, end: 0 }),
            forall|i: int| 0 <= i < MAX_CAPS ==> r.untypedPaddrList@[i] == 0,
            forall|i: int| 0 <= i < MAX_CAPS ==> r.untypedSizeBitsList@[i] == 0,
            r.initThreadCNodeSizeBits == 0,
            r.numDeviceRegions == 0,
            r.initThreadDomain == 0,
    {
        let mut untypedPaddrList: Vec<seL4_Word> = Vec::new();
        while untypedPaddrList.len() < MAX_CAPS
            invariant
                untypedPaddrList@.len() <= MAX_CAPS,
                forall|i: int| 0 <= i < untypedPaddrList@.len() ==> untypedPaddrList@[i] == 0,
            decreases MAX_CAPS - untypedPaddrList@.len(),
        {
            untypedPaddrList.push(0);
        }
        let mut untypedSizeBitsList: Vec<u8> = Vec::new();
        while untypedSizeBitsList.len() < MAX_CAPS
            invariant
                untypedSizeBitsList@.len() <= MAX_CAPS,
                forall|i: int| 0 <= i < untypedSizeBitsList@.len() ==> untypedSizeBitsList@[i] == 0,
            decreases MAX_CAPS - untypedSizeBitsList@.len(),
        {
            untypedSizeBitsList.push(0);
        }
        let mut deviceRegions: Vec<seL4_DeviceRegion> = Vec::new();
        while deviceRegions.len() < MAX_BDR
            invariant
                deviceRegions@.len() <= MAX_BDR,
            decreases MAX_BDR - deviceRegions@.len(),
        {
            deviceRegions.push(
                seL4_DeviceRegion {
                    basePaddr: 0,
                    frameSizeBits: 0,
                    frames: seL4_SlotRegion { start: 0, end: 0 },
                },
            );
        }
        seL4_BootInfo {
            nodeID: 0,
            numNodes: 0,
            numIOPTLevels: 0,
            ipcBuffer: 0,
            empty: seL4_SlotRegion { start: 0, end: 0 },
            sharedFrames: seL4_SlotRegion { start: 0, end: 0 },
            userImageFrames: seL4_SlotRegion { start: 0, end: 0 },
            userImagePTs: seL4_SlotRegion { start: 0, end: 0 },
            untyped: seL4_SlotRegion { start: 0, end: 0 },
            untypedPaddrList,
            untypedSizeBitsList,
            initThreadCNodeSizeBits: 0,
            numDeviceRegions: 0,
            deviceRegions,
            initThreadDomain: 0,
        }
    }
}

/// The process-wide holder of the boot information: empty until the
/// one initialisation call, then carrying that value unchanged for
/// the process's life.
pub struct BootInfoHolder {
    info: Option<seL4_BootInfo>,
}

impl BootInfoHolder {
    /// Whether the initialisation call has happened.
    pub closed spec fn is_initialized(self) -> bool {
        self.info is Some
    }

    /// The recorded boot information; meaningful only once
    /// initialised.
    pub closed spec fn spec_info(self) -> seL4_BootInfo {
        match self.info {
            Option::Some(bi) => bi,
            Option::None => arbitrary(),
        }
    }

    /// A holder with nothing recorded yet.
    pub fn new() -> (r: Self)
        ensures
            !r.is_initialized(),
    {
        BootInfoHolder { info: None }
    }

    /// Records the boot information, exactly once, early in process
    /// life: initialising twice is a programming error and is ruled
    /// out here rather than detected later.
    pub fn init_boot_info(&mut self, bi: seL4_BootInfo)
        requires
            !old(self).is_initialized(),
        ensures
            final(self).is_initialized(),
            final(self).spec_info() == bi,
    {
        self.info = Some(bi);
    }

    /// Reads the recorded boot information: the recorded value
    /// exactly when initialisation has happened, and a definite
    /// "not yet initialised" otherwise.
    pub fn get_boot_info(&self) -> (r: Option<&seL4_BootInfo>)
        ensures
            r is Some <==> self.is_initialized(),
            r matches Some(bi) ==> *bi == self.spec_info(),
    {
        match &self.info {
            Some(bi) => Some(bi),
            None => None,
        }
    }
}

} // verus!
