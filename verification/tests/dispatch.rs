use axvm::barrier::SyncBarrier;
use axvm::decode::mmio_inst_len;
use axvm::device_list::{VmExit, PLIC_BASE};
use axvm::err::HvError;
use axvm::vcpu::{VCpu, VCpuState, GPR_A0, GPR_A1};
use axvm::vm::{AxVM, AxVMConfig, SyncPoll};

const GUEST_ENTRY: usize = 0x9020_0000;
const SUPERVISOR_HSTATUS: usize = 1 << 8;

// sw a2, 0(a0) : full-width word store from register 12.
const INST_SW_A2: u32 = 0x00C5_2023;
// lw a2, 0(a0) : full-width word load into register 12.
const INST_LW_A2: u32 = 0x0005_2603;
// c.sw s1, 0(s0) : compressed word store from register 9.
const INST_C_SW_S1: u32 = 0xC004;
// A valid instruction that is no word access: addi a0, a0, 1.
const INST_ADDI: u32 = 0x0015_0513;

fn two_cpu_vm() -> AxVM {
    let config = AxVMConfig { cpu_count: 2, bsp_entry: GUEST_ENTRY, ap_entry: GUEST_ENTRY };
    AxVM::new(config, 0, 0x8800_0000).unwrap()
}

#[test]
fn construction_shape() {
    let vm = two_cpu_vm();
    assert_eq!(vm.id(), 0);
    assert_eq!(vm.ept_root(), 0x8800_0000);
    assert_eq!(vm.vcpu_list().len(), 2);
    assert_eq!(vm.vcpu(0).unwrap().state, VCpuState::Ready);
    assert_eq!(vm.vcpu(0).unwrap().sepc, GUEST_ENTRY);
    assert_eq!(vm.vcpu(1).unwrap().state, VCpuState::Free);
    assert!(vm.vcpu(2).is_none());
}

#[test]
fn construction_rejects_zero_cpus() {
    let config = AxVMConfig { cpu_count: 0, bsp_entry: GUEST_ENTRY, ap_entry: GUEST_ENTRY };
    assert!(matches!(AxVM::new(config, 0, 0), Err(HvError::InvalidInput)));
}

#[test]
fn boot_needs_hardware_support() {
    let mut vm = two_cpu_vm();
    assert_eq!(vm.boot(false), Err(HvError::Unsupported));
    assert_eq!(vm.boot(true), Ok(()));
    assert_eq!(vm.vcpu(0).unwrap().ept_root, 0x8800_0000);
}

#[test]
fn run_vcpu_rejects_unknown_id() {
    let mut vm = two_cpu_vm();
    assert_eq!(vm.run_vcpu(7), Err(HvError::InvalidInput));
}

#[test]
fn mmio_store_hits_register_file_and_advances_pc() {
    let mut vm = two_cpu_vm();
    vm.vcpu_list[0].hstatus = SUPERVISOR_HSTATUS;
    vm.vcpu_list[0].htinst = INST_SW_A2;
    vm.vcpu_list[0].gprs[12] = 0xDEAD_BEEF;
    let fault = PLIC_BASE + 0x20;
    assert_eq!(vm.handle_vmexit(0, VmExit::NestedPageFault { addr: fault }, 0), Ok(()));
    assert_eq!(vm.get_device_list().plic.read_u32(fault), 0xDEAD_BEEF);
    assert_eq!(vm.vcpu(0).unwrap().sepc, GUEST_ENTRY + 4);
}

#[test]
fn mmio_load_reads_register_file_back() {
    let mut vm = two_cpu_vm();
    vm.vcpu_list[0].hstatus = SUPERVISOR_HSTATUS;
    vm.vcpu_list[0].htinst = INST_SW_A2;
    vm.vcpu_list[0].gprs[12] = 0x1234_5678;
    let fault = PLIC_BASE + 0x40;
    assert_eq!(vm.handle_vmexit(0, VmExit::NestedPageFault { addr: fault }, 0), Ok(()));
    vm.vcpu_list[0].htinst = INST_LW_A2;
    vm.vcpu_list[0].gprs[12] = 0;
    assert_eq!(vm.handle_vmexit(0, VmExit::NestedPageFault { addr: fault }, 0), Ok(()));
    assert_eq!(vm.vcpu(0).unwrap().gprs[12], 0x1234_5678);
    assert_eq!(vm.vcpu(0).unwrap().sepc, GUEST_ENTRY + 8);
}

#[test]
fn mmio_compressed_store_advances_pc_by_two() {
    let mut vm = two_cpu_vm();
    vm.vcpu_list[0].hstatus = SUPERVISOR_HSTATUS;
    // The hardware snapshot was not populated: the instruction comes from
    // the fetched fallback.
    vm.vcpu_list[0].htinst = 0;
    vm.vcpu_list[0].gprs[9] = 0x77;
    let fault = PLIC_BASE + 0x60;
    assert_eq!(
        vm.handle_vmexit(0, VmExit::NestedPageFault { addr: fault }, INST_C_SW_S1),
        Ok(())
    );
    assert_eq!(vm.get_device_list().plic.read_u32(fault), 0x77);
    assert_eq!(vm.vcpu(0).unwrap().sepc, GUEST_ENTRY + 2);
}

#[test]
fn fault_outside_windows_is_bad_address_and_mutates_nothing() {
    let mut vm = two_cpu_vm();
    vm.vcpu_list[0].hstatus = SUPERVISOR_HSTATUS;
    vm.vcpu_list[0].htinst = INST_SW_A2;
    vm.vcpu_list[0].gprs[12] = 0xAB;
    let before_pc = vm.vcpu(0).unwrap().sepc;
    assert_eq!(
        vm.handle_vmexit(0, VmExit::NestedPageFault { addr: 0x1000 }, 0),
        Err(HvError::BadAddress)
    );
    assert_eq!(vm.vcpu(0).unwrap().sepc, before_pc);
    assert_eq!(vm.vcpu(0).unwrap().gprs[12], 0xAB);
    assert_eq!(vm.get_device_list().plic.read_u32(PLIC_BASE), 0);
}

#[test]
fn non_word_instruction_is_bad_address() {
    let mut vm = two_cpu_vm();
    vm.vcpu_list[0].hstatus = SUPERVISOR_HSTATUS;
    vm.vcpu_list[0].htinst = INST_ADDI;
    assert_eq!(
        vm.handle_vmexit(0, VmExit::NestedPageFault { addr: PLIC_BASE }, 0),
        Err(HvError::BadAddress)
    );
}

#[test]
fn undecodable_instruction_is_invalid_data() {
    let mut vm = two_cpu_vm();
    vm.vcpu_list[0].hstatus = SUPERVISOR_HSTATUS;
    // Low two bits 11 announce a four-byte instruction; the custom opcode
    // space is one the decoder rejects.
    vm.vcpu_list[0].htinst = 0x0000_000B;
    assert_eq!(
        vm.handle_vmexit(0, VmExit::NestedPageFault { addr: PLIC_BASE }, 0),
        Err(HvError::InvalidData)
    );
}

#[test]
fn user_level_fault_is_unsupported() {
    let mut vm = two_cpu_vm();
    vm.vcpu_list[0].hstatus = 0;
    vm.vcpu_list[0].htinst = INST_SW_A2;
    assert_eq!(
        vm.handle_vmexit(0, VmExit::NestedPageFault { addr: PLIC_BASE }, 0),
        Err(HvError::Unsupported)
    );
}

#[test]
fn external_interrupt_latches_claim_and_flags_pending() {
    let mut vm = two_cpu_vm();
    assert_eq!(vm.handle_vmexit(0, VmExit::ExternalInterrupt { irq: 9 }, 0), Ok(()));
    assert!(vm.vcpu(0).unwrap().ext_interrupt_pending);
    let plic = &mut vm.device_list;
    assert_eq!(plic.plic.claim_and_complete(1), 9);
    assert_eq!(plic.plic.claim_and_complete(1), 0);
}

#[test]
fn zero_interrupt_claim_is_fatal() {
    let mut vm = two_cpu_vm();
    assert_eq!(
        vm.handle_vmexit(0, VmExit::ExternalInterrupt { irq: 0 }, 0),
        Err(HvError::BadState)
    );
    assert!(!vm.vcpu(0).unwrap().ext_interrupt_pending);
}

#[test]
fn hart_start_promotes_free_target() {
    // The end-to-end bring-up shape: the boot CPU starts ready; a dynamic
    // processor-start trap with target id 1, start address 0x9020_0000 and
    // opaque 0 leaves virtual CPU 1 ready, aimed and with its arguments set.
    let mut vm = two_cpu_vm();
    assert_eq!(vm.vcpu(0).unwrap().state, VCpuState::Ready);
    assert_eq!(
        vm.handle_vmexit(
            0,
            VmExit::HartStart { hartid: 1, start_addr: 0x9020_0000, opaque: 0 },
            0,
        ),
        Ok(())
    );
    let target = vm.vcpu(1).unwrap();
    assert_eq!(target.sepc, 0x9020_0000);
    assert_eq!(target.gprs[GPR_A0], 1);
    assert_eq!(target.gprs[GPR_A1], 0);
    assert_eq!(target.state, VCpuState::Ready);
    // The physical core waiting on id 1 now gets to proceed.
    assert_eq!(vm.sync_vcpu(1), Ok(SyncPoll::Proceed));
    assert_eq!(vm.vcpu(1).unwrap().state, VCpuState::Running);
}

#[test]
fn hart_start_rejects_running_target() {
    let mut vm = two_cpu_vm();
    assert_eq!(vm.sync_vcpu(0), Ok(SyncPoll::Proceed));
    let pc_before = vm.vcpu(0).unwrap().sepc;
    assert_eq!(
        vm.handle_vmexit(
            1,
            VmExit::HartStart { hartid: 0, start_addr: 0x4000_0000, opaque: 7 },
            0,
        ),
        Err(HvError::BadState)
    );
    assert_eq!(vm.vcpu(0).unwrap().sepc, pc_before);
    assert_eq!(vm.vcpu(0).unwrap().gprs[GPR_A0], 0);
    assert_eq!(vm.vcpu(0).unwrap().state, VCpuState::Running);
}

#[test]
fn hart_start_rejects_unknown_target() {
    let mut vm = two_cpu_vm();
    assert_eq!(
        vm.handle_vmexit(0, VmExit::HartStart { hartid: 9, start_addr: 0, opaque: 0 }, 0),
        Err(HvError::InvalidInput)
    );
}

#[test]
fn sync_vcpu_rejects_second_binder() {
    let mut vm = two_cpu_vm();
    assert_eq!(vm.sync_vcpu(0), Ok(SyncPoll::Proceed));
    assert_eq!(vm.sync_vcpu(0), Err(HvError::BadState));
}

#[test]
fn sync_vcpu_waits_on_free_target() {
    let mut vm = two_cpu_vm();
    assert_eq!(vm.sync_vcpu(1), Ok(SyncPoll::Wait));
    assert_eq!(vm.vcpu(1).unwrap().state, VCpuState::Free);
}

#[test]
fn other_exit_reasons_are_ignored() {
    let mut vm = two_cpu_vm();
    let pc = vm.vcpu(0).unwrap().sepc;
    assert_eq!(vm.handle_vmexit(0, VmExit::Other, 0), Ok(()));
    assert_eq!(vm.vcpu(0).unwrap().sepc, pc);
}

#[test]
fn lifecycle_rejects_backward_moves() {
    let mut v = VCpu::new(0, GUEST_ENTRY);
    assert_eq!(v.state, VCpuState::Ready);
    assert_eq!(
        v.transition_state(VCpuState::Running, VCpuState::Ready),
        Err(HvError::BadState)
    );
    assert_eq!(v.transition_state(VCpuState::Free, VCpuState::Running), Err(HvError::BadState));
    assert_eq!(v.transition_state(VCpuState::Ready, VCpuState::Running), Ok(()));
    assert_eq!(v.state, VCpuState::Running);
    assert_eq!(
        v.transition_state(VCpuState::Running, VCpuState::Running),
        Err(HvError::BadState)
    );
}

#[test]
fn instruction_length_narrows_to_word_sizes() {
    assert_eq!(mmio_inst_len(INST_SW_A2), Some(4));
    assert_eq!(mmio_inst_len(INST_C_SW_S1), Some(2));
    // Bits announcing a six-byte instruction are not served.
    assert_eq!(mmio_inst_len(0x001F), None);
}

#[test]
fn claim_complete_address_formula() {
    let vm = two_cpu_vm();
    assert_eq!(vm.get_device_list().plic.claim_complete_addr(1), PLIC_BASE + 0x20_0004 + 0x1000);
}

#[test]
fn barrier_opens_only_when_all_arrive() {
    let mut b = SyncBarrier::new(2);
    assert!(!b.released());
    b.arrive();
    assert!(!b.released());
    b.arrive();
    assert!(b.released());
}
