use gc_x::sink::{
    code_to_result, Client, Error, Target, VIGEM_ERROR_BUS_NOT_FOUND, VIGEM_ERROR_CALLBACK_NOT_FOUND,
    VIGEM_ERROR_NONE, VIGEM_ERROR_NOT_SUPPORTED, VIGEM_ERROR_NO_FREE_SLOT, VIGEM_ERROR_TARGET_NOT_PLUGGED_IN,
};

#[test]
fn status_codes_map_to_errors() {
    assert!(Error::new(VIGEM_ERROR_NONE) == Error::NoError);
    assert!(Error::new(VIGEM_ERROR_BUS_NOT_FOUND) == Error::BusNotFound);
    assert!(Error::new(VIGEM_ERROR_CALLBACK_NOT_FOUND) == Error::CallbackNotFound);
    assert!(Error::new(VIGEM_ERROR_NOT_SUPPORTED) == Error::NotSupported);
    assert!(Error::new(0xE0000015) == Error::InvalidParameter);
}

#[test]
fn into_result_splits_success() {
    assert!(Error::NoError.into_result().is_ok());
    assert!(Error::NoFreeSlot.into_result() == Err(Error::NoFreeSlot));
    assert!(code_to_result(VIGEM_ERROR_NONE).is_ok());
    assert!(code_to_result(VIGEM_ERROR_NO_FREE_SLOT) == Err(Error::NoFreeSlot));
}

#[test]
fn messages() {
    assert_eq!(Error::BusNotFound.message(), "bus not found");
    assert_eq!(Error::XusbUserIndexOutOfRange.message(), "xusb user index out of range");
}

#[test]
fn client_connect() {
    let mut c = Client::new(9);
    assert!(c.connect(VIGEM_ERROR_BUS_NOT_FOUND) == Err(Error::BusNotFound));
    assert!(!c.connected);
    assert!(c.connect(VIGEM_ERROR_NONE).is_ok());
    assert!(c.connected);
    c.disconnect();
    assert!(!c.connected);
}

#[test]
fn target_lifecycle() {
    let c = Client::new(9);
    let mut t = Target::new();
    assert!(t.update(VIGEM_ERROR_NONE) == Err(Error::TargetUninitialized));
    assert!(t.register_notification(VIGEM_ERROR_NONE).is_err());
    assert!(t.user_index(VIGEM_ERROR_NONE, 1) == Err(Error::TargetUninitialized));
    assert!(c.add_target(&mut t, VIGEM_ERROR_NO_FREE_SLOT, 4) == Err(Error::NoFreeSlot));
    assert!(t.client.is_none());
    assert!(c.add_target(&mut t, VIGEM_ERROR_NONE, 4).is_ok());
    assert_eq!(t.client, Some(9));
    assert_eq!(t.index(), 4);
    assert!(t.update(VIGEM_ERROR_NONE).is_ok());
    assert!(t.update(VIGEM_ERROR_TARGET_NOT_PLUGGED_IN) == Err(Error::TargetNotPluggedIn));
    assert_eq!(t.register_notification(VIGEM_ERROR_NONE).unwrap().target, 4);
    assert!(t.user_index(VIGEM_ERROR_NONE, 258) == Ok(2));
    assert!(c.remove_target(&mut t, VIGEM_ERROR_NONE).is_ok());
    assert!(t.client.is_none());
}

#[test]
fn release_detaches_owned_targets_only() {
    let c = Client::new(3);
    let mut t = Target::new();
    c.add_target(&mut t, VIGEM_ERROR_NONE, 1).unwrap();
    assert_eq!(t.release(), Some(3));
    assert_eq!(t.release(), None);
    let mut r = Target::new_ref(1);
    assert!(r.is_ref);
    assert_eq!(r.release(), None);
}
