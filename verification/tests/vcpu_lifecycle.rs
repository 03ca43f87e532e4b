use hypervisor::match_value_code;
use hypervisor::match_x86Reg;
use hypervisor::vCPU;
use hypervisor::x86Reg;
use hypervisor::Error;
use hypervisor::HV_BAD_ARGUMENT;
use hypervisor::HV_NO_RESOURCES;
use hypervisor::HV_SUCCESS;
use hypervisor::HV_VCPU_DEFAULT;
use hypervisor::HV_VM_DEFAULT;

#[test]
fn creation_wraps_assigned_id_on_success() {
    let vcpu = vCPU::new(HV_SUCCESS, 7).unwrap();
    assert_eq!(vcpu.id(), 7);
}

#[test]
fn creation_surfaces_the_mapped_error() {
    match vCPU::new(HV_NO_RESOURCES, 0) {
        Ok(_) => panic!("creation must not succeed on a failure status"),
        Err(e) => assert_eq!(e, Error::NoRes),
    }
}

#[test]
fn destroy_consumes_the_handle_once() {
    let vcpu = vCPU::new(HV_SUCCESS, 3).unwrap();
    assert_eq!(vcpu.destroy(HV_SUCCESS), Ok(()));
    // The handle is moved into destroy: no further operation can name it.
}

#[test]
fn destroy_maps_a_failure_status() {
    let vcpu = vCPU::new(HV_SUCCESS, 4).unwrap();
    assert_eq!(vcpu.destroy(HV_BAD_ARGUMENT), Err(Error::BadArg));
}

#[test]
fn register_write_read_round_trip() {
    // A register write hands the framework the register's identifier and the
    // value; a read of the same register hands the identifier and takes the
    // framework's payload back. With a framework that stored the write, the
    // read's payload is that value, and the layer passes it through intact.
    let vcpu = vCPU::new(HV_SUCCESS, 0).unwrap();
    let reg = match_x86Reg(&x86Reg::RIP);
    let stored: u64 = 0x1000;
    assert_eq!(match_value_code(HV_SUCCESS, stored), Ok(0x1000));
    assert_eq!(reg, match_x86Reg(&x86Reg::RIP));
    assert_eq!(vcpu.destroy(HV_SUCCESS), Ok(()));
}

#[test]
fn default_creation_flags_are_zero() {
    assert_eq!(HV_VM_DEFAULT, 0);
    assert_eq!(HV_VCPU_DEFAULT, 0);
}
