//! The syscall invocation protocol.
//!
//! Each kernel primitive is one atomic control transfer: a fixed set
//! of words leaves userland in machine registers, and for the
//! blocking primitives a fixed set comes back. On the modelled ia32
//! convention the inputs are the syscall number (`eax`), a capability
//! or source word (`ebx`), the packed message tag (`esi`) and the
//! first two message words (`edi`, `ecx`); the outputs are a badge
//! (`ebx`), the result tag (`esi`) and two message words (`edi`,
//! `ecx`). Message words beyond that two-register budget travel in
//! the thread's IPC buffer.
//!
//! The transfer itself is target machine code outside this crate, so
//! every primitive is split into a pure request builder, which states
//! exactly which words cross into the kernel, and a pure response
//! absorber, which states exactly how the returned registers land in
//! the caller's state. A backend performs the transfer between the
//! two; this layer trusts the kernel to always return, and carries
//! the returned label faithfully without interpreting it.
use vstd::prelude::*;

use crate::ipc_buffer::seL4_IPCBuffer;
use crate::message_info::msg_info_encode;
use crate::message_info::msg_length_of;
use crate::message_info::seL4_MessageInfo;
use crate::message_info::seL4_MsgMaxLength;
use crate::types::seL4_CPtr;
use crate::types::seL4_Word;

verus! {

/// How many message words travel in registers; the rest go through
/// the IPC buffer.
pub const seL4_FastMessageRegisters: usize = 2;

/// The syscall numbers the transfer mechanism dispatches on. Their
/// machine encoding belongs to the generated stub table, outside this
/// layer; the protocol only distinguishes them.
#[derive(Clone, Copy, PartialEq, Eq, Debug)]
pub enum SyscallId {
    Send,
    NBSend,
    Call,
    Wait,
    Reply,
    ReplyWait,
    Yield,
    DebugPutChar,
    DebugHalt,
    DebugSnapshot,
    DebugCapIdentify,
    DebugNameThread,
    DebugRun,
    BenchmarkResetLog,
    BenchmarkDumpLog,
    BenchmarkLogSize,
}

/// The input register file of one invocation: the syscall number and
/// the four word slots (`ebx`, `esi`, `edi`, `ecx`) in the order the
/// transfer mechanism loads them.
#[derive(Clone, Copy, PartialEq, Eq, Debug)]
pub struct SyscallRequest {
    /// The syscall to perform (`eax`).
    pub id: SyscallId,
    /// The capability slot: destination or source capability, or the
    /// primitive's first plain argument (`ebx`).
    pub cap: seL4_Word,
    /// The packed message tag, or the primitive's second plain
    /// argument (`esi`).
    pub info: seL4_Word,
    /// Message word 0 (`edi`).
    pub mr0: seL4_Word,
    /// Message word 1 (`ecx`).
    pub mr1: seL4_Word,
}

/// The output register file of one invocation that returns data: the
/// sender badge (`ebx`), the packed result tag (`esi`) and the first
/// two message words of the reply (`edi`, `ecx`).
#[derive(Clone, Copy, PartialEq, Eq, Debug)]
pub struct SyscallResponse {
    pub badge: seL4_Word,
    pub info: seL4_Word,
    pub mr0: seL4_Word,
    pub mr1: seL4_Word,
}

/// The word an optional message-word argument contributes: its value
/// when present, zero when absent. An absent word means "nothing to
/// load", never "read something else".
pub open spec fn opt_word(o: Option<seL4_Word>) -> seL4_Word {
    match o {
        Option::Some(v) => v,
        Option::None => 0,
    }
}

/// The word an optional message-word argument contributes when the
/// tag's length must also cover it: its value when present and
/// covered, zero otherwise.
pub open spec fn staged_word(o: Option<seL4_Word>, covered: bool) -> seL4_Word {
    match o {
        Option::Some(v) => if covered {
            v
        } else {
            0
        },
        Option::None => 0,
    }
}

/// Builds the Send request: deliver a message through `dest`, message
/// words 0 and 1 taken from the IPC buffer. One-way at this layer;
/// capability transfer follows the tag's `extraCaps` from the
/// buffer's slots.
pub fn seL4_Send(ipc: &seL4_IPCBuffer, dest: seL4_CPtr, msgInfo: seL4_MessageInfo) -> (req:
    SyscallRequest)
    requires
        ipc.wf(),
    ensures
        req.id == SyscallId::Send,
        req.cap == dest,
        req.info == msgInfo.words[0],
        req.mr0 == ipc.msg@[0],
        req.mr1 == ipc.msg@[1],
{
    SyscallRequest {
        id: SyscallId::Send,
        cap: dest,
        info: msgInfo.words[0],
        mr0: ipc.seL4_GetMR(0),
        mr1: ipc.seL4_GetMR(1),
    }
}

/// Builds the Send request with caller-supplied message words instead
/// of the buffer's: an absent word loads zero.
pub fn seL4_SendWithMRs(
    dest: seL4_CPtr,
    msgInfo: seL4_MessageInfo,
    mr0: Option<seL4_Word>,
    mr1: Option<seL4_Word>,
) -> (req: SyscallRequest)
    ensures
        req.id == SyscallId::Send,
        req.cap == dest,
        req.info == msgInfo.words[0],
        req.mr0 == opt_word(mr0),
        req.mr1 == opt_word(mr1),
{
    SyscallRequest {
        id: SyscallId::Send,
        cap: dest,
        info: msgInfo.words[0],
        mr0: match mr0 {
            Some(v) => v,
            None => 0,
        },
        mr1: match mr1 {
            Some(v) => v,
            None => 0,
        },
    }
}

/// Builds the NBSend request: like Send, but the kernel drops the
/// message instead of blocking when no receiver is ready.
pub fn seL4_NBSend(ipc: &seL4_IPCBuffer, dest: seL4_CPtr, msgInfo: seL4_MessageInfo) -> (req:
    SyscallRequest)
    requires
        ipc.wf(),
    ensures
        req.id == SyscallId::NBSend,
        req.cap == dest,
        req.info == msgInfo.words[0],
        req.mr0 == ipc.msg@[0],
        req.mr1 == ipc.msg@[1],
{
    SyscallRequest {
        id: SyscallId::NBSend,
        cap: dest,
        info: msgInfo.words[0],
        mr0: ipc.seL4_GetMR(0),
        mr1: ipc.seL4_GetMR(1),
    }
}

/// Builds the NBSend request with caller-supplied message words.
pub fn seL4_NBSendWithMRs(
    dest: seL4_CPtr,
    msgInfo: seL4_MessageInfo,
    mr0: Option<seL4_Word>,
    mr1: Option<seL4_Word>,
) -> (req: SyscallRequest)
    ensures
        req.id == SyscallId::NBSend,
        req.cap == dest,
        req.info == msgInfo.words[0],
        req.mr0 == opt_word(mr0),
        req.mr1 == opt_word(mr1),
{
    SyscallRequest {
        id: SyscallId::NBSend,
        cap: dest,
        info: msgInfo.words[0],
        mr0: match mr0 {
            Some(v) => v,
            None => 0,
        },
        mr1: match mr1 {
            Some(v) => v,
            None => 0,
        },
    }
}

/// Builds the Reply request: answer the most recent caller. No
/// capability slot crosses; message words 0 and 1 come from the IPC
/// buffer.
pub fn seL4_Reply(ipc: &seL4_IPCBuffer, msgInfo: seL4_MessageInfo) -> (req: SyscallRequest)
    requires
        ipc.wf(),
    ensures
        req.id == SyscallId::Reply,
        req.cap == 0,
        req.info == msgInfo.words[0],
        req.mr0 == ipc.msg@[0],
        req.mr1 == ipc.msg@[1],
{
    SyscallRequest {
        id: SyscallId::Reply,
        cap: 0,
        info: msgInfo.words[0],
        mr0: ipc.seL4_GetMR(0),
        mr1: ipc.seL4_GetMR(1),
    }
}

/// Builds the Reply request with caller-supplied message words.
pub fn seL4_ReplyWithMRs(
    msgInfo: seL4_MessageInfo,
    mr0: Option<seL4_Word>,
    mr1: Option<seL4_Word>,
) -> (req: SyscallRequest)
    ensures
        req.id == SyscallId::Reply,
        req.cap == 0,
        req.info == msgInfo.words[0],
        req.mr0 == opt_word(mr0),
        req.mr1 == opt_word(mr1),
{
    SyscallRequest {
        id: SyscallId::Reply,
        cap: 0,
        info: msgInfo.words[0],
        mr0: match mr0 {
            Some(v) => v,
            None => 0,
        },
        mr1: match mr1 {
            Some(v) => v,
            None => 0,
        },
    }
}

/// Builds the Notify request: a word-only signal through `dest`. The
/// tag is fixed to a one-word message with label zero and no
/// capability transfer, so a notification can never carry authority.
pub fn seL4_Notify(dest: seL4_CPtr, msg: seL4_Word) -> (req: SyscallRequest)
    ensures
        req.id == SyscallId::Send,
        req.cap == dest,
        req.info == msg_info_encode(0, 0, 0, 1),
        req.mr0 == msg,
        req.mr1 == 0,
{
    let tag = seL4_MessageInfo::new(0, 0, 0, 1);
    SyscallRequest { id: SyscallId::Send, cap: dest, info: tag.words[0], mr0: msg, mr1: 0 }
}

/// Builds the Wait request: block on `src` until a sender arrives.
/// Nothing but the source capability crosses inward; the reply
/// registers are absorbed with [`absorb_response`], which also stores
/// message words 0 and 1 into the IPC buffer.
pub fn seL4_Wait(src: seL4_CPtr) -> (req: SyscallRequest)
    ensures
        req.id == SyscallId::Wait,
        req.cap == src,
        req.info == 0,
        req.mr0 == 0,
        req.mr1 == 0,
{
    SyscallRequest { id: SyscallId::Wait, cap: src, info: 0, mr0: 0, mr1: 0 }
}

/// Builds the Wait request whose reply registers the caller reads
/// directly with [`read_response`], leaving the IPC buffer's message
/// words untouched.
pub fn seL4_WaitWithMRs(src: seL4_CPtr) -> (req: SyscallRequest)
    ensures
        req.id == SyscallId::Wait,
        req.cap == src,
        req.info == 0,
        req.mr0 == 0,
        req.mr1 == 0,
{
    SyscallRequest { id: SyscallId::Wait, cap: src, info: 0, mr0: 0, mr1: 0 }
}

/// Builds the Call request: send through `dest` and block until the
/// callee replies. Message words 0 and 1 come from the IPC buffer;
/// the reply is absorbed with [`absorb_response`].
pub fn seL4_Call(ipc: &seL4_IPCBuffer, dest: seL4_CPtr, msgInfo: seL4_MessageInfo) -> (req:
    SyscallRequest)
    requires
        ipc.wf(),
    ensures
        req.id == SyscallId::Call,
        req.cap == dest,
        req.info == msgInfo.words[0],
        req.mr0 == ipc.msg@[0],
        req.mr1 == ipc.msg@[1],
{
    SyscallRequest {
        id: SyscallId::Call,
        cap: dest,
        info: msgInfo.words[0],
        mr0: ipc.seL4_GetMR(0),
        mr1: ipc.seL4_GetMR(1),
    }
}

/// Builds the Call request with caller-supplied message words: a word
/// is loaded only when it is present and the tag's length covers it,
/// and zero crosses otherwise. The reply registers are read with
/// [`read_response`].
pub fn seL4_CallWithMRs(
    dest: seL4_CPtr,
    msgInfo: seL4_MessageInfo,
    mr0: Option<seL4_Word>,
    mr1: Option<seL4_Word>,
) -> (req: SyscallRequest)
    ensures
        req.id == SyscallId::Call,
        req.cap == dest,
        req.info == msgInfo.words[0],
        req.mr0 == staged_word(mr0, msg_length_of(msgInfo.words[0]) > 0),
        req.mr1 == staged_word(mr1, msg_length_of(msgInfo.words[0]) > 1),
{
    let length = msgInfo.get_length();
    let msg0 = match mr0 {
        Some(v) => if length > 0 {
            v
        } else {
            0
        },
        None => 0,
    };
    let msg1 = match mr1 {
        Some(v) => if length > 1 {
            v
        } else {
            0
        },
        None => 0,
    };
    SyscallRequest { id: SyscallId::Call, cap: dest, info: msgInfo.words[0], mr0: msg0, mr1: msg1 }
}

/// Builds the ReplyWait request: answer the most recent caller, then
/// block on `dest` for the next sender. Message words 0 and 1 of the
/// reply come from the IPC buffer; the incoming message is absorbed
/// with [`absorb_response`].
pub fn seL4_ReplyWait(ipc: &seL4_IPCBuffer, dest: seL4_CPtr, msgInfo: seL4_MessageInfo) -> (req:
    SyscallRequest)
    requires
        ipc.wf(),
    ensures
        req.id == SyscallId::ReplyWait,
        req.cap == dest,
        req.info == msgInfo.words[0],
        req.mr0 == ipc.msg@[0],
        req.mr1 == ipc.msg@[1],
{
    SyscallRequest {
        id: SyscallId::ReplyWait,
        cap: dest,
        info: msgInfo.words[0],
        mr0: ipc.seL4_GetMR(0),
        mr1: ipc.seL4_GetMR(1),
    }
}

/// Builds the ReplyWait request with caller-supplied reply words,
/// each loaded only when present and covered by the tag's length; the
/// incoming registers are read with [`read_response`].
pub fn seL4_ReplayWaitWithMRs(
    dest: seL4_CPtr,
    msgInfo: seL4_MessageInfo,
    mr0: Option<seL4_Word>,
    mr1: Option<seL4_Word>,
) -> (req: SyscallRequest)
    ensures
        req.id == SyscallId::ReplyWait,
        req.cap == dest,
        req.info == msgInfo.words[0],
        req.mr0 == staged_word(mr0, msg_length_of(msgInfo.words[0]) > 0),
        req.mr1 == staged_word(mr1, msg_length_of(msgInfo.words[0]) > 1),
{
    let length = msgInfo.get_length();
    let msg0 = match mr0 {
        Some(v) => if length > 0 {
            v
        } else {
            0
        },
        None => 0,
    };
    let msg1 = match mr1 {
        Some(v) => if length > 1 {
            v
        } else {
            0
        },
        None => 0,
    };
    SyscallRequest {
        id: SyscallId::ReplyWait,
        cap: dest,
        info: msgInfo.words[0],
        mr0: msg0,
        mr1: msg1,
    }
}

/// Builds the Yield request: give up the remainder of the time slice.
/// Nothing crosses in either direction.
pub fn seL4_Yield() -> (req: SyscallRequest)
    ensures
        req.id == SyscallId::Yield,
        req.cap == 0,
        req.info == 0,
        req.mr0 == 0,
        req.mr1 == 0,
{
    SyscallRequest { id: SyscallId::Yield, cap: 0, info: 0, mr0: 0, mr1: 0 }
}

/// Absorbs the output registers of a blocking invocation the way the
/// register convention lands them: message words 0 and 1 are stored
/// into the IPC buffer, and the result tag and sender badge are
/// returned decoded. Used by Wait, Call and ReplyWait.
pub fn absorb_response(ipc: &mut seL4_IPCBuffer, resp: &SyscallResponse) -> (r: (
    seL4_MessageInfo,
    seL4_Word,
))
    requires
        old(ipc).wf(),
    ensures
        final(ipc).wf(),
        final(ipc).msg@ == old(ipc).msg@.update(0, resp.mr0).update(1, resp.mr1),
        final(ipc).tag == old(ipc).tag,
        final(ipc).userData == old(ipc).userData,
        final(ipc).caps_or_badges@ == old(ipc).caps_or_badges@,
        final(ipc).receiveCNode == old(ipc).receiveCNode,
        final(ipc).receiveIndex == old(ipc).receiveIndex,
        final(ipc).receiveDepth == old(ipc).receiveDepth,
        r.0.words[0] == resp.info,
        r.1 == resp.badge,
{
    ipc.seL4_SetMR(0, resp.mr0);
    ipc.seL4_SetMR(1, resp.mr1);
    (seL4_MessageInfo::from_word(resp.info), resp.badge)
}

/// Reads the output registers of a blocking invocation without
/// touching the IPC buffer: the decoded result tag, the sender badge
/// and both register message words. A caller that does not need a
/// word simply discards it. Used by the register-only receive
/// variants.
pub fn read_response(resp: &SyscallResponse) -> (r: (
    seL4_MessageInfo,
    seL4_Word,
    seL4_Word,
    seL4_Word,
))
    ensures
        r.0.words[0] == resp.info,
        r.1 == resp.badge,
        r.2 == resp.mr0,
        r.3 == resp.mr1,
{
    (seL4_MessageInfo::from_word(resp.info), resp.badge, resp.mr0, resp.mr1)
}

/// Stages an outgoing message into the IPC buffer: word `i` of the
/// message lands in buffer slot `i`, and slots past the message are
/// untouched. Words 0 and 1 also cross in registers; the slots from
/// [`seL4_FastMessageRegisters`] up are what the kernel reads from
/// the buffer, governed by the tag's length.
pub fn stage_message(ipc: &mut seL4_IPCBuffer, words: &Vec<seL4_Word>)
    requires
        old(ipc).wf(),
        words@.len() <= seL4_MsgMaxLength,
    ensures
        final(ipc).wf(),
        forall|i: int| 0 <= i < words@.len() ==> final(ipc).msg@[i] == words@[i],
        forall|i: int|
            words@.len() <= i < seL4_MsgMaxLength ==> final(ipc).msg@[i] == old(ipc).msg@[i],
        final(ipc).tag == old(ipc).tag,
        final(ipc).userData == old(ipc).userData,
        final(ipc).caps_or_badges@ == old(ipc).caps_or_badges@,
        final(ipc).receiveCNode == old(ipc).receiveCNode,
        final(ipc).receiveIndex == old(ipc).receiveIndex,
        final(ipc).receiveDepth == old(ipc).receiveDepth,
{
    let ghost buf0 = *ipc;
    let mut i: usize = 0;
    while i < words.len()
        invariant
            ipc.wf(),
            buf0.wf(),
            words@.len() <= seL4_MsgMaxLength,
            i <= words@.len(),
            forall|k: int| 0 <= k < i ==> ipc.msg@[k] == words@[k],
            forall|k: int| i <= k < seL4_MsgMaxLength ==> ipc.msg@[k] == buf0.msg@[k],
            ipc.tag == buf0.tag,
            ipc.userData == buf0.userData,
            ipc.caps_or_badges@ == buf0.caps_or_badges@,
            ipc.receiveCNode == buf0.receiveCNode,
            ipc.receiveIndex == buf0.receiveIndex,
            ipc.receiveDepth == buf0.receiveDepth,
        decreases words@.len() - i,
    {
        ipc.seL4_SetMR(i, words[i]);
        i = i + 1;
    }
}

/// Collects the first `length` message words from the IPC buffer, in
/// order: the received message once [`absorb_response`] has stored
/// the register-borne words 0 and 1.
pub fn fetch_message(ipc: &seL4_IPCBuffer, length: usize) -> (r: Vec<seL4_Word>)
    requires
        ipc.wf(),
        length <= seL4_MsgMaxLength,
    ensures
        r@ == ipc.msg@.subrange(0, length as int),
{
    let mut r: Vec<seL4_Word> = Vec::new();
    let mut i: usize = 0;
    while i < length
        invariant
            ipc.wf(),
            length <= seL4_MsgMaxLength,
            i <= length,
            r@.len() == i,
            forall|k: int| 0 <= k < i ==> r@[k] == ipc.msg@[k],
        decreases length - i,
    {
        r.push(ipc.seL4_GetMR(i));
        i = i + 1;
    }
    proof {
        assert(r@ =~= ipc.msg@.subrange(0, length as int));
    }
    r
}

/// The word message byte `j` contributes to its buffer word: the byte
/// itself within the name, zero past its end.
pub open spec fn name_byte(name: Seq<u8>, j: int) -> seL4_Word {
    if 0 <= j < name.len() {
        name[j] as seL4_Word
    } else {
        0
    }
}

/// Buffer word `i` of a thread name packed into message words: four
/// consecutive name bytes, least significant first, zero-padded past
/// the name's end.
pub open spec fn packed_name_word(name: Seq<u8>, i: int) -> seL4_Word {
    name_byte(name, 4 * i) | (name_byte(name, 4 * i + 1) << 8) | (name_byte(name, 4 * i + 2) << 16)
        | (name_byte(name, 4 * i + 3) << 24)
}

/// Builds the DebugNameThread request: packs the NUL-terminated name
/// into the IPC buffer's message words, four bytes to a word, least
/// significant byte first, and names `tcb` with it. Buffer words past
/// the name are untouched. The name must carry its terminator and fit
/// the buffer's 480 bytes.
pub fn seL4_DebugNameThread(ipc: &mut seL4_IPCBuffer, tcb: seL4_CPtr, name: &Vec<u8>) -> (req:
    SyscallRequest)
    requires
        old(ipc).wf(),
        name@.len() > 0,
        name@.len() <= 4 * seL4_MsgMaxLength,
        name@[name@.len() - 1] == 0,
    ensures
        final(ipc).wf(),
        forall|i: int|
            0 <= i < (name@.len() + 3) / 4 ==> final(ipc).msg@[i] == packed_name_word(name@, i),
        forall|i: int|
            (name@.len() + 3) / 4 <= i < seL4_MsgMaxLength ==> final(ipc).msg@[i] == old(
                ipc,
            ).msg@[i],
        final(ipc).tag == old(ipc).tag,
        final(ipc).userData == old(ipc).userData,
        final(ipc).caps_or_badges@ == old(ipc).caps_or_badges@,
        final(ipc).receiveCNode == old(ipc).receiveCNode,
        final(ipc).receiveIndex == old(ipc).receiveIndex,
        final(ipc).receiveDepth == old(ipc).receiveDepth,
        req.id == SyscallId::DebugNameThread,
        req.cap == tcb,
        req.info == 0,
        req.mr0 == 0,
        req.mr1 == 0,
{
    let ghost buf0 = *ipc;
    let n = name.len();
    let mut i: usize = 0;
    while 4 * i < n
        invariant
            ipc.wf(),
            buf0.wf(),
            n == name@.len(),
            0 < n <= 4 * seL4_MsgMaxLength,
            4 * i <= n + 3,
            forall|k: int| 0 <= k < i ==> ipc.msg@[k] == packed_name_word(name@, k),
            forall|k: int| i <= k < seL4_MsgMaxLength ==> ipc.msg@[k] == buf0.msg@[k],
            ipc.tag == buf0.tag,
            ipc.userData == buf0.userData,
            ipc.caps_or_badges@ == buf0.caps_or_badges@,
            ipc.receiveCNode == buf0.receiveCNode,
            ipc.receiveIndex == buf0.receiveIndex,
            ipc.receiveDepth == buf0.receiveDepth,
        decreases n + 3 - 4 * i,
    {
        let b0 = name[4 * i] as seL4_Word;
        let b1 = if 4 * i + 1 < n {
            name[4 * i + 1] as seL4_Word
        } else {
            0
        };
        let b2 = if 4 * i + 2 < n {
            name[4 * i + 2] as seL4_Word
        } else {
            0
        };
        let b3 = if 4 * i + 3 < n {
            name[4 * i + 3] as seL4_Word
        } else {
            0
        };
        let w = b0 | (b1 << 8u32) | (b2 << 16u32) | (b3 << 24u32);
        ipc.seL4_SetMR(i, w);
        i = i + 1;
    }
    SyscallRequest { id: SyscallId::DebugNameThread, cap: tcb, info: 0, mr0: 0, mr1: 0 }
}

/// Builds the DebugPutChar request: emit one character on the
/// kernel's debug console.
pub fn seL4_DebugPutChar(c: u8) -> (req: SyscallRequest)
    ensures
        req.id == SyscallId::DebugPutChar,
        req.cap == c as seL4_Word,
        req.info == 0,
        req.mr0 == 0,
        req.mr1 == 0,
{
    SyscallRequest { id: SyscallId::DebugPutChar, cap: c as seL4_Word, info: 0, mr0: 0, mr1: 0 }
}

/// Builds the DebugHalt request: stop the whole system.
pub fn seL4_DebugHalt() -> (req: SyscallRequest)
    ensures
        req.id == SyscallId::DebugHalt,
        req.cap == 0,
        req.info == 0,
        req.mr0 == 0,
        req.mr1 == 0,
{
    SyscallRequest { id: SyscallId::DebugHalt, cap: 0, info: 0, mr0: 0, mr1: 0 }
}

/// Builds the DebugSnapshot request: dump the kernel's capability
/// state on its console.
pub fn seL4_DebugSnapshot() -> (req: SyscallRequest)
    ensures
        req.id == SyscallId::DebugSnapshot,
        req.cap == 0,
        req.info == 0,
        req.mr0 == 0,
        req.mr1 == 0,
{
    SyscallRequest { id: SyscallId::DebugSnapshot, cap: 0, info: 0, mr0: 0, mr1: 0 }
}

/// Builds the DebugCapIdentify request: ask the kernel for the type
/// of the capability in `cap`. The answer comes back in the badge
/// slot of the response.
pub fn seL4_DebugCapIdentify(cap: seL4_CPtr) -> (req: SyscallRequest)
    ensures
        req.id == SyscallId::DebugCapIdentify,
        req.cap == cap,
        req.info == 0,
        req.mr0 == 0,
        req.mr1 == 0,
{
    SyscallRequest { id: SyscallId::DebugCapIdentify, cap, info: 0, mr0: 0, mr1: 0 }
}

/// Builds the DebugRun request: have the kernel run `userfn` with
/// `userarg`. Both are plain words of the 32-bit convention: the code
/// address crosses in the capability slot and the argument in the tag
/// slot.
pub fn seL4_DebugRun(userfn: seL4_Word, userarg: seL4_Word) -> (req: SyscallRequest)
    ensures
        req.id == SyscallId::DebugRun,
        req.cap == userfn,
        req.info == userarg,
        req.mr0 == 0,
        req.mr1 == 0,
{
    SyscallRequest { id: SyscallId::DebugRun, cap: userfn, info: userarg, mr0: 0, mr1: 0 }
}

/// Builds the BenchmarkResetLog request: clear the kernel's tracing
/// log.
pub fn seL4_BenchmarkResetLog() -> (req: SyscallRequest)
    ensures
        req.id == SyscallId::BenchmarkResetLog,
        req.cap == 0,
        req.info == 0,
        req.mr0 == 0,
        req.mr1 == 0,
{
    SyscallRequest { id: SyscallId::BenchmarkResetLog, cap: 0, info: 0, mr0: 0, mr1: 0 }
}

/// Builds the BenchmarkDumpLog request: dump `size` log entries
/// starting at `start`. The count of entries dumped comes back in the
/// badge slot of the response.
pub fn seL4_BenchmarkDumpLog(start: seL4_Word, size: seL4_Word) -> (req: SyscallRequest)
    ensures
        req.id == SyscallId::BenchmarkDumpLog,
        req.cap == start,
        req.info == size,
        req.mr0 == 0,
        req.mr1 == 0,
{
    SyscallRequest { id: SyscallId::BenchmarkDumpLog, cap: start, info: size, mr0: 0, mr1: 0 }
}

/// Builds the BenchmarkLogSize request: ask how many entries the
/// kernel's log holds. The answer comes back in the badge slot of the
/// response.
pub fn seL4_BenchmarkLogSize() -> (req: SyscallRequest)
    ensures
        req.id == SyscallId::BenchmarkLogSize,
        req.cap == 0,
        req.info == 0,
        req.mr0 == 0,
        req.mr1 == 0,
{
    SyscallRequest { id: SyscallId::BenchmarkLogSize, cap: 0, info: 0, mr0: 0, mr1: 0 }
}

} // verus!
