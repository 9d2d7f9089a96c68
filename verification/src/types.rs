//! Architecture-level scalar types of the ia32 calling convention:
//! the machine word, capability pointers, the saved user context, and
//! the word-encoded enumerations for page attributes and capability
//! rights.
use vstd::prelude::*;

verus! {

/// Machine word of the modelled architecture (ia32): 32 bits.
pub type seL4_Word = u32;

/// A capability pointer: a word-sized index into the caller's
/// capability space.
pub type seL4_CPtr = seL4_Word;

pub type seL4_IA32_ASIDControl = seL4_CPtr;

pub type seL4_IA32_ASIDPool = seL4_CPtr;

pub type seL4_IA32_IOSpace = seL4_CPtr;

pub type seL4_IA32_IOPort = seL4_CPtr;

pub type seL4_IA32_Page = seL4_CPtr;

pub type seL4_IA32_PageDirectory = seL4_CPtr;

pub type seL4_IA32_PageTable = seL4_CPtr;

pub type seL4_IA32_IOPageTable = seL4_CPtr;

pub type seL4_CNode = seL4_CPtr;

pub type seL4_IRQHandler = seL4_CPtr;

pub type seL4_IRQControl = seL4_CPtr;

pub type seL4_TCB = seL4_CPtr;

pub type seL4_Untyped = seL4_CPtr;

pub type seL4_DomainSet = seL4_CPtr;

/// The complete register file of a suspended thread, as the kernel
/// reads and writes it.
#[derive(Clone, Copy, PartialEq, Eq, Debug)]
pub struct seL4_UserContext {
    pub eip: seL4_Word,
    pub esp: seL4_Word,
    pub eflags: seL4_Word,
    pub eax: seL4_Word,
    pub ebx: seL4_Word,
    pub ecx: seL4_Word,
    pub edx: seL4_Word,
    pub esi: seL4_Word,
    pub edi: seL4_Word,
    pub ebp: seL4_Word,
    pub tls_base: seL4_Word,
    pub fs: seL4_Word,
    pub gs: seL4_Word,
}

/// The attribute word that maps with no attribute bits set.
pub const Default_VMAttributes: usize = 0;

/// Cacheability attributes for a mapped page.
#[derive(Clone, Copy, PartialEq, Eq, Debug)]
pub enum seL4_IA32_VMAttributes {
    WriteBack,
    WriteThrough,
    CacheDisabled,
    Uncacheable,
    WriteCombining,
}

impl seL4_IA32_VMAttributes {
    /// The word the kernel interface assigns to each attribute.
    pub open spec fn spec_value(self) -> seL4_Word {
        match self {
            seL4_IA32_VMAttributes::WriteBack => 0,
            seL4_IA32_VMAttributes::WriteThrough => 1,
            seL4_IA32_VMAttributes::CacheDisabled => 2,
            seL4_IA32_VMAttributes::Uncacheable => 3,
            seL4_IA32_VMAttributes::WriteCombining => 4,
        }
    }

    pub fn value(self) -> (r: seL4_Word)
        ensures
            r == self.spec_value(),
    {
        match self {
            seL4_IA32_VMAttributes::WriteBack => 0,
            seL4_IA32_VMAttributes::WriteThrough => 1,
            seL4_IA32_VMAttributes::CacheDisabled => 2,
            seL4_IA32_VMAttributes::Uncacheable => 3,
            seL4_IA32_VMAttributes::WriteCombining => 4,
        }
    }
}

/// Access rights carried by a capability, encoded as a bit mask:
/// write is bit 0, read is bit 1, grant is bit 2.
#[derive(Clone, Copy, PartialEq, Eq, Debug)]
pub enum seL4_CapRights {
    CanWrite,
    CanRead,
    CanGrant,
    AllRights,
}

impl seL4_CapRights {
    /// The bit mask each rights value stands for; `AllRights` is the
    /// union of the three single rights.
    pub open spec fn spec_bits(self) -> seL4_Word {
        match self {
            seL4_CapRights::CanWrite => 0x01,
            seL4_CapRights::CanRead => 0x02,
            seL4_CapRights::CanGrant => 0x04,
            seL4_CapRights::AllRights => 0x07,
        }
    }

    pub fn bits(self) -> (r: seL4_Word)
        ensures
            r == self.spec_bits(),
    {
        match self {
            seL4_CapRights::CanWrite => 0x01,
            seL4_CapRights::CanRead => 0x02,
            seL4_CapRights::CanGrant => 0x04,
            seL4_CapRights::AllRights => 0x07,
        }
    }
}

} // verus!
