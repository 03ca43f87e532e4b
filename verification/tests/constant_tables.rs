use hypervisor::consts::irq::IRQ_INFO_ERROR_VALID;
use hypervisor::consts::irq::IRQ_INFO_EXT_IRQ;
use hypervisor::consts::irq::IRQ_INFO_HARD_EXC;
use hypervisor::consts::irq::IRQ_INFO_NMI;
use hypervisor::consts::irq::IRQ_INFO_VALID;
use hypervisor::consts::vmcs::VMCS_CTRL_CPU_BASED;
use hypervisor::consts::vmcs::VMCS_CTRL_EPTP;
use hypervisor::consts::vmcs::VMCS_CTRL_PIN_BASED;
use hypervisor::consts::vmcs::VMCS_CTRL_TSC_OFFSET;
use hypervisor::consts::vmcs::VMCS_GUEST_CR0;
use hypervisor::consts::vmcs::VMCS_GUEST_CS;
use hypervisor::consts::vmcs::VMCS_GUEST_LINK_POINTER;
use hypervisor::consts::vmcs::VMCS_GUEST_RFLAGS;
use hypervisor::consts::vmcs::VMCS_GUEST_RIP;
use hypervisor::consts::vmcs::VMCS_GUEST_RSP;
use hypervisor::consts::vmcs::VMCS_HOST_RIP;
use hypervisor::consts::vmcs::VMCS_MAX;
use hypervisor::consts::vmcs::VMCS_RO_EXIT_QUALIFIC;
use hypervisor::consts::vmcs::VMCS_RO_EXIT_REASON;
use hypervisor::consts::vmcs::VMCS_VPID;
use hypervisor::consts::vmx_cap::CPU_BASED2_EPT;
use hypervisor::consts::vmx_cap::CPU_BASED_HLT;
use hypervisor::consts::vmx_cap::CPU_BASED_SECONDARY_CTLS;
use hypervisor::consts::vmx_cap::PIN_BASED_INTR;
use hypervisor::consts::vmx_cap::PIN_BASED_PREEMPTION_TIMER;
use hypervisor::consts::vmx_cap::VMENTRY_GUEST_IA32E;
use hypervisor::consts::vmx_cap::VMENTRY_LOAD_EFER;
use hypervisor::consts::vmx_cap::VMEXIT_ACK_INTR;
use hypervisor::consts::vmx_exit::VMX_REASON_EPT_VIOLATION;
use hypervisor::consts::vmx_exit::VMX_REASON_EXC_NMI;
use hypervisor::consts::vmx_exit::VMX_REASON_HLT;
use hypervisor::consts::vmx_exit::VMX_REASON_IRQ;
use hypervisor::consts::vmx_exit::VMX_REASON_VMCALL;
use hypervisor::consts::vmx_exit::VMX_REASON_XRSTORS;
use hypervisor::consts::VMX_BASIC_TRUE_CTLS;

#[test]
fn vmcs_field_ids() {
    assert_eq!(VMCS_VPID, 0x00000000);
    assert_eq!(VMCS_GUEST_CS, 0x00000802);
    assert_eq!(VMCS_CTRL_TSC_OFFSET, 0x00002010);
    assert_eq!(VMCS_CTRL_EPTP, 0x0000201a);
    assert_eq!(VMCS_GUEST_LINK_POINTER, 0x00002800);
    assert_eq!(VMCS_CTRL_PIN_BASED, 0x00004000);
    assert_eq!(VMCS_CTRL_CPU_BASED, 0x00004002);
    assert_eq!(VMCS_RO_EXIT_REASON, 0x00004402);
    assert_eq!(VMCS_RO_EXIT_QUALIFIC, 0x00006400);
    assert_eq!(VMCS_GUEST_CR0, 0x00006800);
    assert_eq!(VMCS_GUEST_RSP, 0x0000681c);
    assert_eq!(VMCS_GUEST_RIP, 0x0000681e);
    assert_eq!(VMCS_GUEST_RFLAGS, 0x00006820);
    assert_eq!(VMCS_HOST_RIP, 0x00006c16);
    assert_eq!(VMCS_MAX, 0x00006c18);
}

#[test]
fn vmx_capability_bits() {
    assert_eq!(PIN_BASED_INTR, 1 << 0);
    assert_eq!(PIN_BASED_PREEMPTION_TIMER, 1 << 6);
    assert_eq!(CPU_BASED_HLT, 1 << 7);
    assert_eq!(CPU_BASED_SECONDARY_CTLS, 1 << 31);
    assert_eq!(CPU_BASED2_EPT, 1 << 1);
    assert_eq!(VMEXIT_ACK_INTR, 1 << 15);
    assert_eq!(VMENTRY_GUEST_IA32E, 1 << 9);
    assert_eq!(VMENTRY_LOAD_EFER, 1 << 15);
    assert_eq!(VMX_BASIC_TRUE_CTLS, 1 << 55);
}

#[test]
fn vmx_exit_reasons() {
    assert_eq!(VMX_REASON_EXC_NMI, 0);
    assert_eq!(VMX_REASON_IRQ, 1);
    assert_eq!(VMX_REASON_HLT, 12);
    assert_eq!(VMX_REASON_VMCALL, 18);
    assert_eq!(VMX_REASON_EPT_VIOLATION, 48);
    assert_eq!(VMX_REASON_XRSTORS, 64);
}

#[test]
fn irq_info_codes() {
    assert_eq!(IRQ_INFO_EXT_IRQ, 0 << 8);
    assert_eq!(IRQ_INFO_NMI, 2 << 8);
    assert_eq!(IRQ_INFO_HARD_EXC, 3 << 8);
    assert_eq!(IRQ_INFO_ERROR_VALID, 1 << 11);
    assert_eq!(IRQ_INFO_VALID, 1 << 31);
}
