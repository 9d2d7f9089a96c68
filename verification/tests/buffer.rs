//! Tests of the IPC buffer model, the thread-local binding and the
//! boot-information singleton.
use sel4_sys::binding::BufferBinding;
use sel4_sys::bootinfo::seL4_BootInfo;
use sel4_sys::bootinfo::seL4_Cap;
use sel4_sys::bootinfo::BootInfoHolder;
use sel4_sys::bootinfo::MAX_CAPS;
use sel4_sys::cap_data::seL4_CapData;
use sel4_sys::ipc_buffer::seL4_IPCBuffer;
use sel4_sys::message_info::seL4_MessageInfo;
use sel4_sys::types::seL4_CapRights;
use sel4_sys::types::seL4_IA32_VMAttributes;
use sel4_sys::types::seL4_UserContext;

#[test]
fn fresh_buffer_is_zeroed() {
    let buf = seL4_IPCBuffer::new();
    assert_eq!(buf.seL4_GetTag().words[0], 0);
    assert_eq!(buf.seL4_GetMR(0), 0);
    assert_eq!(buf.seL4_GetMR(119), 0);
    assert_eq!(buf.seL4_GetUserData(), 0);
    assert_eq!(buf.seL4_GetCap(2), 0);
    assert_eq!(buf.seL4_GetCapReceivePath(), (0, 0, 0));
}

#[test]
fn message_word_round_trip_at_last_index() {
    let mut buf = seL4_IPCBuffer::new();
    buf.seL4_SetMR(119, 0xCAFE_F00D);
    assert_eq!(buf.seL4_GetMR(119), 0xCAFE_F00D);
    // The neighbouring slot is untouched.
    assert_eq!(buf.seL4_GetMR(118), 0);
    // Index 120 is out of the layout: the accessors' contracts
    // exclude it, so no verified caller can reach a 121st word.
}

#[test]
fn message_word_writes_are_independent() {
    let mut buf = seL4_IPCBuffer::new();
    buf.seL4_SetMR(0, 11);
    buf.seL4_SetMR(1, 22);
    buf.seL4_SetMR(2, 33);
    assert_eq!(buf.seL4_GetMR(0), 11);
    assert_eq!(buf.seL4_GetMR(1), 22);
    assert_eq!(buf.seL4_GetMR(2), 33);
}

#[test]
fn tag_slot_round_trip() {
    let mut buf = seL4_IPCBuffer::new();
    let tag = seL4_MessageInfo::new(9, 0, 1, 4);
    buf.seL4_SetTag(tag);
    assert_eq!(buf.seL4_GetTag(), tag);
    assert_eq!(buf.seL4_GetTag().get_label(), 9);
}

#[test]
fn user_data_holds_buffer_location() {
    let mut buf = seL4_IPCBuffer::new();
    buf.seL4_SetUserData(0x1000_0000);
    assert_eq!(buf.seL4_GetUserData(), 0x1000_0000);
    assert_eq!(buf.seL4_GetIPCBuffer(), 0x1000_0000);
}

#[test]
fn cap_slots_round_trip() {
    let mut buf = seL4_IPCBuffer::new();
    buf.seL4_SetCap(0, 100);
    buf.seL4_SetCap(2, 300);
    assert_eq!(buf.seL4_GetCap(0), 100);
    assert_eq!(buf.seL4_GetCap(1), 0);
    assert_eq!(buf.seL4_GetCap(2), 300);
    let badge: seL4_CapData = buf.seL4_GetBadge(2);
    assert_eq!(badge.get_badge(), 300);
}

#[test]
fn receive_path_round_trip() {
    let mut buf = seL4_IPCBuffer::new();
    buf.seL4_SetCapReceivePath(8, 17, 32);
    assert_eq!(buf.seL4_GetCapReceivePath(), (8, 17, 32));
    // Setting the path leaves the message words alone.
    assert_eq!(buf.seL4_GetMR(0), 0);
}

#[test]
fn binding_starts_unbound() {
    let binding = BufferBinding::new();
    assert!(binding.get_buffer().is_none());
}

#[test]
fn binding_returns_bound_location() {
    let mut binding = BufferBinding::new();
    binding.bind(0x2000_0400);
    assert_eq!(binding.get_buffer(), Some(0x2000_0400));
}

#[test]
fn boot_info_absent_before_init() {
    let holder = BootInfoHolder::new();
    assert!(holder.get_boot_info().is_none());
}

#[test]
fn boot_info_read_after_init() {
    let mut holder = BootInfoHolder::new();
    let mut bi = seL4_BootInfo::new();
    bi.nodeID = 0;
    bi.numNodes = 1;
    bi.initThreadDomain = 5;
    bi.empty.start = 12;
    bi.empty.end = 4096;
    holder.init_boot_info(bi.clone());
    let seen = holder.get_boot_info().expect("initialised just above");
    assert_eq!(seen.numNodes, 1);
    assert_eq!(seen.initThreadDomain, 5);
    assert_eq!(seen.empty.start, 12);
    assert_eq!(seen.empty.end, 4096);
    assert_eq!(seen.untypedPaddrList.len(), MAX_CAPS);
    assert_eq!(*seen, bi);
}

#[test]
fn well_known_slots_in_kernel_order() {
    assert_eq!(seL4_Cap::seL4_CapNull.slot(), 0);
    assert_eq!(seL4_Cap::seL4_CapInitThreadTCB.slot(), 1);
    assert_eq!(seL4_Cap::seL4_CapIOPort.slot(), 7);
    assert_eq!(seL4_Cap::seL4_CapInitThreadIPCBuffer.slot(), 10);
    assert_eq!(seL4_Cap::seL4_CapDomain.slot(), 11);
}

#[test]
fn cap_rights_bit_masks() {
    assert_eq!(seL4_CapRights::CanWrite.bits(), 0x01);
    assert_eq!(seL4_CapRights::CanRead.bits(), 0x02);
    assert_eq!(seL4_CapRights::CanGrant.bits(), 0x04);
    let all = seL4_CapRights::AllRights.bits();
    assert_eq!(
        all,
        seL4_CapRights::CanWrite.bits() | seL4_CapRights::CanRead.bits()
            | seL4_CapRights::CanGrant.bits()
    );
}

#[test]
fn vm_attribute_words() {
    assert_eq!(seL4_IA32_VMAttributes::WriteBack.value(), 0);
    assert_eq!(seL4_IA32_VMAttributes::WriteThrough.value(), 1);
    assert_eq!(seL4_IA32_VMAttributes::CacheDisabled.value(), 2);
    assert_eq!(seL4_IA32_VMAttributes::Uncacheable.value(), 3);
    assert_eq!(seL4_IA32_VMAttributes::WriteCombining.value(), 4);
}

#[test]
fn user_context_carries_registers() {
    let ctx = seL4_UserContext {
        eip: 1,
        esp: 2,
        eflags: 3,
        eax: 4,
        ebx: 5,
        ecx: 6,
        edx: 7,
        esi: 8,
        edi: 9,
        ebp: 10,
        tls_base: 11,
        fs: 12,
        gs: 13,
    };
    assert_eq!(ctx.eip, 1);
    assert_eq!(ctx.gs, 13);
    let copy = ctx;
    assert_eq!(copy, ctx);
}
