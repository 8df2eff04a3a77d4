use hv::check_return;
use hv::Error;
use hv::HV_BAD_ARGUMENT;
use hv::HV_BUSY;
use hv::HV_ERROR;
use hv::HV_NO_DEVICE;
use hv::HV_NO_RESOURCES;
use hv::HV_SUCCESS;
use hv::HV_UNSUPPORTED;

#[test]
fn documented_codes_map_to_their_variants() {
    assert_eq!(Error::from_code(HV_ERROR), Error::Unsuccessful);
    assert_eq!(Error::from_code(HV_BUSY), Error::Busy);
    assert_eq!(Error::from_code(HV_BAD_ARGUMENT), Error::BadArgument);
    assert_eq!(Error::from_code(HV_NO_RESOURCES), Error::NoResources);
    assert_eq!(Error::from_code(HV_NO_DEVICE), Error::NoDevice);
    assert_eq!(Error::from_code(HV_UNSUPPORTED), Error::Unsupported);
}

#[test]
fn documented_codes_have_their_raw_values() {
    assert_eq!(HV_SUCCESS, 0);
    assert_eq!(HV_ERROR, 0xfae9_4001);
    assert_eq!(HV_BUSY, 0xfae9_4002);
    assert_eq!(HV_BAD_ARGUMENT, 0xfae9_4003);
    assert_eq!(HV_NO_RESOURCES, 0xfae9_4005);
    assert_eq!(HV_NO_DEVICE, 0xfae9_4006);
    assert_eq!(HV_UNSUPPORTED, 0xfae9_400f);
}

#[test]
fn unmapped_codes_fall_back_to_unknown() {
    assert_eq!(Error::from_code(7), Error::Unknown(7));
    assert_eq!(Error::from_code(0xfae9_4004), Error::Unknown(0xfae9_4004));
    assert_eq!(Error::from_code(0xfae9_4007), Error::Unknown(0xfae9_4007));
    assert_eq!(Error::from_code(u32::MAX), Error::Unknown(u32::MAX));
    // The success code is not an error code, so it too lands in the
    // catch-all when translated directly.
    assert_eq!(Error::from_code(HV_SUCCESS), Error::Unknown(0));
}

#[test]
fn code_round_trips_through_the_translation() {
    let codes = [
        HV_ERROR,
        HV_BUSY,
        HV_BAD_ARGUMENT,
        HV_NO_RESOURCES,
        HV_NO_DEVICE,
        HV_UNSUPPORTED,
        0,
        7,
        0xfae9_4004,
        u32::MAX,
    ];
    for c in codes {
        assert_eq!(Error::from_code(c).code(), c);
    }
    let errors = [
        Error::Unsuccessful,
        Error::Busy,
        Error::BadArgument,
        Error::NoResources,
        Error::NoDevice,
        Error::Unsupported,
        Error::Unknown(12345),
    ];
    for e in errors {
        assert_eq!(Error::from_code(e.code()), e);
    }
}

#[test]
fn check_return_accepts_only_success() {
    assert!(check_return(HV_SUCCESS).is_ok());
    assert_eq!(check_return(HV_ERROR), Err(Error::Unsuccessful));
    assert_eq!(check_return(HV_BUSY), Err(Error::Busy));
    assert_eq!(check_return(99), Err(Error::Unknown(99)));
}

#[test]
fn messages_match_the_documented_wording() {
    assert_eq!(
        Error::Unsuccessful.message(),
        "The operation was unsuccessful"
    );
    assert_eq!(
        Error::Busy.message(),
        "The operation was unsuccessful because the owning resource was busy"
    );
    assert_eq!(
        Error::BadArgument.message(),
        "The operation was unsuccessful because the function call had an invalid argument"
    );
    assert_eq!(
        Error::NoResources.message(),
        "The operation was unsuccessful because the host had no resources available to complete the request"
    );
    assert_eq!(
        Error::NoDevice.message(),
        "The operation was unsuccessful because no VM or vCPU was available"
    );
    assert_eq!(
        Error::Unsupported.message(),
        "The operation requested isn't supported by the hypervisor"
    );
}

#[test]
fn unknown_message_prints_the_code_as_signed_decimal() {
    assert_eq!(Error::Unknown(0).message(), "Error code: 0");
    assert_eq!(Error::Unknown(7).message(), "Error code: 7");
    assert_eq!(Error::Unknown(12345).message(), "Error code: 12345");
    assert_eq!(
        Error::Unknown(2147483647).message(),
        "Error code: 2147483647"
    );
    assert_eq!(
        Error::Unknown(0x8000_0000).message(),
        "Error code: -2147483648"
    );
    assert_eq!(Error::Unknown(u32::MAX).message(), "Error code: -1");
    // 0xfae94004 read back as a signed 32-bit value.
    assert_eq!(
        Error::Unknown(0xfae9_4004).message(),
        format!("Error code: {}", 0xfae9_4004_u32 as i32)
    );
}
