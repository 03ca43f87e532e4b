use hypervisor::match_error_code;
use hypervisor::match_value_code;
use hypervisor::Error;
use hypervisor::HV_BAD_ARGUMENT;
use hypervisor::HV_BUSY;
use hypervisor::HV_ERROR;
use hypervisor::HV_NO_DEVICE;
use hypervisor::HV_NO_RESOURCES;
use hypervisor::HV_SUCCESS;
use hypervisor::HV_UNSUPPORTED;

#[test]
fn success_code_is_ok() {
    assert_eq!(match_error_code(HV_SUCCESS), Ok(()));
    assert_eq!(match_error_code(0), Ok(()));
}

#[test]
fn each_documented_code_maps_to_its_outcome() {
    assert_eq!(match_error_code(HV_ERROR), Err(Error::Error));
    assert_eq!(match_error_code(HV_BUSY), Err(Error::Busy));
    assert_eq!(match_error_code(HV_BAD_ARGUMENT), Err(Error::BadArg));
    assert_eq!(match_error_code(HV_NO_RESOURCES), Err(Error::NoRes));
    assert_eq!(match_error_code(HV_NO_DEVICE), Err(Error::NoDev));
    assert_eq!(match_error_code(HV_UNSUPPORTED), Err(Error::Unsupp));
    assert_eq!(match_error_code(0xfae94001), Err(Error::Error));
    assert_eq!(match_error_code(0xfae94002), Err(Error::Busy));
    assert_eq!(match_error_code(0xfae94003), Err(Error::BadArg));
    assert_eq!(match_error_code(0xfae94005), Err(Error::NoRes));
    assert_eq!(match_error_code(0xfae94006), Err(Error::NoDev));
    assert_eq!(match_error_code(0xfae9400f), Err(Error::Unsupp));
}

#[test]
fn unknown_codes_map_to_generic_error() {
    assert_eq!(match_error_code(1), Err(Error::Error));
    assert_eq!(match_error_code(0xfae94004), Err(Error::Error));
    assert_eq!(match_error_code(0xfae94007), Err(Error::Error));
    assert_eq!(match_error_code(0xdeadbeef), Err(Error::Error));
    assert_eq!(match_error_code(u32::MAX), Err(Error::Error));
}

#[test]
fn value_passes_through_on_success() {
    assert_eq!(match_value_code(HV_SUCCESS, 0x1000), Ok(0x1000));
    assert_eq!(match_value_code(HV_SUCCESS, 0), Ok(0));
    assert_eq!(match_value_code(HV_SUCCESS, u64::MAX), Ok(u64::MAX));
}

#[test]
fn value_is_dropped_on_failure() {
    assert_eq!(match_value_code(HV_BUSY, 5), Err(Error::Busy));
    assert_eq!(match_value_code(HV_UNSUPPORTED, u64::MAX), Err(Error::Unsupp));
    assert_eq!(match_value_code(0xdeadbeef, 1), Err(Error::Error));
}

#[test]
fn error_descriptions() {
    assert_eq!(Error::Success.description(), "Success");
    assert_eq!(Error::Error.description(), "Error");
    assert_eq!(Error::Busy.description(), "Busy");
    assert_eq!(Error::BadArg.description(), "Bad argument");
    assert_eq!(Error::NoRes.description(), "No resources");
    assert_eq!(Error::NoDev.description(), "No device");
    assert_eq!(Error::Unsupp.description(), "Unsupported");
}
