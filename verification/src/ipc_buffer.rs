//! The per-thread IPC buffer: the shared-memory mailbox that holds
//! what one invocation cannot fit in registers.
//!
//! The buffer carries the current message tag, 120 message words, one
//! word of user data, 3 capability-or-badge slots, and the
//! receive-path descriptor naming where the kernel places an incoming
//! capability on the next blocking receive. It is modelled as an
//! owned value with accessors at fixed indices: exactly one thread
//! owns a buffer, so the accessors need no synchronisation, and the
//! kernel writes it only as the synchronous counterpart of a syscall
//! the owner is blocked in.
//!
//! Index ranges are caller contracts: the kernel and userland agree
//! on the layout, so an out-of-range slot is a programming error and
//! is excluded by `requires`, never checked and recovered at run
//! time.
use vstd::prelude::*;

use crate::cap_data::seL4_CapData;
use crate::message_info::seL4_MessageInfo;
use crate::message_info::seL4_MsgMaxExtraCaps;
use crate::message_info::seL4_MsgMaxLength;
use crate::types::seL4_CPtr;
use crate::types::seL4_Word;

verus! {

/// The thread's IPC buffer, laid out as the kernel expects it:
/// tag, message words, user data, capability slots, receive path.
#[derive(Clone, PartialEq, Eq, Debug)]
pub struct seL4_IPCBuffer {
    pub tag: seL4_MessageInfo,
    pub msg: Vec<seL4_Word>,
    pub userData: seL4_Word,
    pub caps_or_badges: Vec<seL4_Word>,
    pub receiveCNode: seL4_CPtr,
    pub receiveIndex: seL4_CPtr,
    pub receiveDepth: seL4_CPtr,
}

impl seL4_IPCBuffer {
    /// The layout invariant: exactly 120 message words and 3
    /// capability-or-badge slots, as the kernel's layout fixes them.
    pub open spec fn wf(self) -> bool {
        &&& self.msg@.len() == seL4_MsgMaxLength
        &&& self.caps_or_badges@.len() == seL4_MsgMaxExtraCaps
    }

    /// A fresh, zeroed buffer of the fixed layout.
    pub fn new() -> (r: Self)
        ensures
            r.wf(),
            r.tag.words[0] == 0,
            forall|i: int| 0 <= i < seL4_MsgMaxLength ==> r.msg@[i] == 0,
            r.userData == 0,
            forall|i: int| 0 <= i < seL4_MsgMaxExtraCaps ==> r.caps_or_badges@[i] == 0,
            r.receiveCNode == 0,
            r.receiveIndex == 0,
            r.receiveDepth == 0,
    {
        let mut msg: Vec<seL4_Word> = Vec::new();
        while msg.len() < seL4_MsgMaxLength
            invariant
                msg@.len() <= seL4_MsgMaxLength,
                forall|i: int| 0 <= i < msg@.len() ==> msg@[i] == 0,
            decreases seL4_MsgMaxLength - msg@.len(),
        {
            msg.push(0);
        }
        let mut caps_or_badges: Vec<seL4_Word> = Vec::new();
        while caps_or_badges.len() < seL4_MsgMaxExtraCaps
            invariant
                caps_or_badges@.len() <= seL4_MsgMaxExtraCaps,
                forall|i: int| 0 <= i < caps_or_badges@.len() ==> caps_or_badges@[i] == 0,
            decreases seL4_MsgMaxExtraCaps - caps_or_badges@.len(),
        {
            caps_or_badges.push(0);
        }
        seL4_IPCBuffer {
            tag: seL4_MessageInfo::from_word(0),
            msg,
            userData: 0,
            caps_or_badges,
            receiveCNode: 0,
            receiveIndex: 0,
            receiveDepth: 0,
        }
    }

    /// Reads the buffer's message tag.
    pub fn seL4_GetTag(&self) -> (r: seL4_MessageInfo)
        ensures
            r == self.tag,
    {
        self.tag
    }

    /// Writes the buffer's message tag; every other slot is
    /// untouched.
    pub fn seL4_SetTag(&mut self, tag: seL4_MessageInfo)
        ensures
            final(self).tag == tag,
            final(self).msg@ == old(self).msg@,
            final(self).userData == old(self).userData,
            final(self).caps_or_badges@ == old(self).caps_or_badges@,
            final(self).receiveCNode == old(self).receiveCNode,
            final(self).receiveIndex == old(self).receiveIndex,
            final(self).receiveDepth == old(self).receiveDepth,
    {
        self.tag = tag;
    }

    /// Reads message word `regnum`. The index must lie within the
    /// 120-word layout.
    pub fn seL4_GetMR(&self, regnum: usize) -> (r: seL4_Word)
        requires
            self.wf(),
            regnum < seL4_MsgMaxLength,
        ensures
            r == self.msg@[regnum as int],
    {
        self.msg[regnum]
    }

    /// Writes message word `regnum`; every other slot is untouched.
    /// The index must lie within the 120-word layout.
    pub fn seL4_SetMR(&mut self, regnum: usize, value: seL4_Word)
        requires
            old(self).wf(),
            regnum < seL4_MsgMaxLength,
        ensures
            final(self).wf(),
            final(self).msg@ == old(self).msg@.update(regnum as int, value),
            final(self).tag == old(self).tag,
            final(self).userData == old(self).userData,
            final(self).caps_or_badges@ == old(self).caps_or_badges@,
            final(self).receiveCNode == old(self).receiveCNode,
            final(self).receiveIndex == old(self).receiveIndex,
            final(self).receiveDepth == old(self).receiveDepth,
    {
        self.msg[regnum] = value;
    }

    /// Reads the user-data word.
    pub fn seL4_GetUserData(&self) -> (r: seL4_Word)
        ensures
            r == self.userData,
    {
        self.userData
    }

    /// Writes the user-data word; every other slot is untouched.
    pub fn seL4_SetUserData(&mut self, data: seL4_Word)
        ensures
            final(self).userData == data,
            final(self).tag == old(self).tag,
            final(self).msg@ == old(self).msg@,
            final(self).caps_or_badges@ == old(self).caps_or_badges@,
            final(self).receiveCNode == old(self).receiveCNode,
            final(self).receiveIndex == old(self).receiveIndex,
            final(self).receiveDepth == old(self).receiveDepth,
    {
        self.userData = data;
    }

    /// Reads the buffer's own location from the user-data slot, where
    /// the binding convention stores it.
    pub fn seL4_GetIPCBuffer(&self) -> (r: seL4_Word)
        ensures
            r == self.userData,
    {
        self.userData
    }

    /// Reads capability slot `index` as badge data. The index must
    /// lie within the 3 slots of the layout.
    pub fn seL4_GetBadge(&self, index: usize) -> (r: seL4_CapData)
        requires
            self.wf(),
            index < seL4_MsgMaxExtraCaps,
        ensures
            r.words[0] == self.caps_or_badges@[index as int],
    {
        seL4_CapData::from_word(self.caps_or_badges[index])
    }

    /// Reads capability slot `index` as a capability pointer.
    pub fn seL4_GetCap(&self, index: usize) -> (r: seL4_CPtr)
        requires
            self.wf(),
            index < seL4_MsgMaxExtraCaps,
        ensures
            r == self.caps_or_badges@[index as int],
    {
        self.caps_or_badges[index]
    }

    /// Writes capability slot `index`; every other slot is untouched.
    pub fn seL4_SetCap(&mut self, index: usize, cptr: seL4_CPtr)
        requires
            old(self).wf(),
            index < seL4_MsgMaxExtraCaps,
        ensures
            final(self).wf(),
            final(self).caps_or_badges@ == old(self).caps_or_badges@.update(index as int, cptr),
            final(self).tag == old(self).tag,
            final(self).msg@ == old(self).msg@,
            final(self).userData == old(self).userData,
            final(self).receiveCNode == old(self).receiveCNode,
            final(self).receiveIndex == old(self).receiveIndex,
            final(self).receiveDepth == old(self).receiveDepth,
    {
        self.caps_or_badges[index] = cptr;
    }

    /// Reads the receive-path descriptor: the CNode, the slot index
    /// within it, and the guard depth the kernel resolves with.
    pub fn seL4_GetCapReceivePath(&self) -> (r: (seL4_CPtr, seL4_CPtr, seL4_Word))
        ensures
            r.0 == self.receiveCNode,
            r.1 == self.receiveIndex,
            r.2 == self.receiveDepth,
    {
        (self.receiveCNode, self.receiveIndex, self.receiveDepth)
    }

    /// Writing message word `regnum` and reading the same slot back
    /// yields exactly the written value, at every index of the
    /// layout, and no other slot moves: the stated effect of
    /// [`seL4_IPCBuffer::seL4_SetMR`] followed by the stated result
    /// of [`seL4_IPCBuffer::seL4_GetMR`].
    pub proof fn lemma_message_word_round_trip(
        before: seL4_IPCBuffer,
        after: seL4_IPCBuffer,
        regnum: usize,
        value: seL4_Word,
    )
        requires
            before.wf(),
            regnum < seL4_MsgMaxLength,
            after.msg@ == before.msg@.update(regnum as int, value),
        ensures
            after.msg@[regnum as int] == value,
            forall|j: int|
                0 <= j < seL4_MsgMaxLength && j != regnum ==> after.msg@[j] == before.msg@[j],
    {
    }

    /// Writes the receive-path descriptor, which governs where the
    /// kernel places the capability arriving with the next blocking
    /// receive; every other slot is untouched.
    pub fn seL4_SetCapReceivePath(
        &mut self,
        receiveCNode: seL4_CPtr,
        receiveIndex: seL4_CPtr,
        receiveDepth: seL4_Word,
    )
        ensures
            final(self).receiveCNode == receiveCNode,
            final(self).receiveIndex == receiveIndex,
            final(self).receiveDepth == receiveDepth,
            final(self).tag == old(self).tag,
            final(self).msg@ == old(self).msg@,
            final(self).userData == old(self).userData,
            final(self).caps_or_badges@ == old(self).caps_or_badges@,
    {
        self.receiveCNode = receiveCNode;
        self.receiveIndex = receiveIndex;
        self.receiveDepth = receiveDepth;
    }
}

} // verus!
