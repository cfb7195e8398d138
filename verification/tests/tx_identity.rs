use tps6699x::registers::tx_identity::{
    TxIdentity, TxIdentityProductTypeDfp, TxIdentityProductTypeUfp, TxIdentityVdoCount, ADDR, LEN,
};

#[test]
fn default_is_all_zero() {
    let id = TxIdentity::default();
    assert_eq!(ADDR, 0x47);
    assert_eq!(LEN, 49);
    assert_eq!(id.as_bytes(), &[0u8; LEN]);
    assert_eq!(id.number_valid_vdos(), TxIdentityVdoCount::Nak);
    assert_eq!(id.vendor_id(), 0);
    assert_eq!(id.product_type_dfp(), TxIdentityProductTypeDfp::UndefinedDfp);
    assert!(!id.modal_operation_supported());
    assert_eq!(id.product_type_ufp(), TxIdentityProductTypeUfp::UndefinedUfp);
    assert!(!id.usb_communication_capable_as_device());
    assert!(!id.usb_communication_capable_as_host());
    assert_eq!(id.certification_test_id(), 0);
    assert_eq!(id.bcd_device(), 0);
    assert_eq!(id.usb_product_id(), 0);
    assert_eq!(id.ufp1_vdo(), 0);
    assert_eq!(id.dfp1_vdo(), 0);
}

#[test]
fn fields_stand_at_their_bits() {
    let mut id = TxIdentity::default();
    id.set_number_valid_vdos(TxIdentityVdoCount::Ack5Vdos);
    assert_eq!(id.as_bytes()[0], 0x05);
    id.set_vendor_id(0x0451);
    assert_eq!(&id.as_bytes()[1..3], &[0x51, 0x04]);
    id.set_product_type_dfp(TxIdentityProductTypeDfp::PowerBrick);
    assert_eq!(&id.as_bytes()[3..5], &[0x80, 0x01]);
    id.set_modal_operation_supported(true);
    assert_eq!(id.as_bytes()[4], 0x05);
    id.set_product_type_ufp(TxIdentityProductTypeUfp::Psd);
    assert_eq!(id.as_bytes()[4], 0x1D);
    id.set_usb_communication_capable_as_device(true);
    assert_eq!(id.as_bytes()[4], 0x5D);
    id.set_usb_communication_capable_as_host(true);
    assert_eq!(id.as_bytes()[4], 0xDD);
    id.set_certification_test_id(0x11223344);
    assert_eq!(&id.as_bytes()[5..9], &[0x44, 0x33, 0x22, 0x11]);
    id.set_bcd_device(0xA1B2);
    assert_eq!(&id.as_bytes()[9..11], &[0xB2, 0xA1]);
    id.set_usb_product_id(0xC3D4);
    assert_eq!(&id.as_bytes()[11..13], &[0xD4, 0xC3]);
    id.set_ufp1_vdo(0x01020304);
    assert_eq!(&id.as_bytes()[13..17], &[0x04, 0x03, 0x02, 0x01]);
    id.set_dfp1_vdo(0xF1F2F3F4);
    assert_eq!(&id.as_bytes()[21..25], &[0xF4, 0xF3, 0xF2, 0xF1]);
    assert_eq!(&id.as_bytes()[17..21], &[0u8; 4]);
    assert_eq!(&id.as_bytes()[25..], &[0u8; 24]);

    assert_eq!(id.number_valid_vdos(), TxIdentityVdoCount::Ack5Vdos);
    assert_eq!(id.vendor_id(), 0x0451);
    assert_eq!(id.product_type_dfp(), TxIdentityProductTypeDfp::PowerBrick);
    assert!(id.modal_operation_supported());
    assert_eq!(id.product_type_ufp(), TxIdentityProductTypeUfp::Psd);
    assert!(id.usb_communication_capable_as_device());
    assert!(id.usb_communication_capable_as_host());
    assert_eq!(id.certification_test_id(), 0x11223344);
    assert_eq!(id.bcd_device(), 0xA1B2);
    assert_eq!(id.usb_product_id(), 0xC3D4);
    assert_eq!(id.ufp1_vdo(), 0x01020304);
    assert_eq!(id.dfp1_vdo(), 0xF1F2F3F4);
}

#[test]
fn setters_chain() {
    let mut id = TxIdentity::default();
    id.set_vendor_id(0xBEEF).set_usb_product_id(0x1234).set_modal_operation_supported(true);
    assert_eq!(id.vendor_id(), 0xBEEF);
    assert_eq!(id.usb_product_id(), 0x1234);
    assert!(id.modal_operation_supported());
}

#[test]
fn setters_leave_other_bits_alone() {
    let mut id = TxIdentity::from([0xFFu8; LEN]);
    id.set_number_valid_vdos(TxIdentityVdoCount::Nak);
    assert_eq!(id.as_bytes()[0], 0xF8);
    id.set_product_type_dfp(TxIdentityProductTypeDfp::UndefinedDfp);
    assert_eq!(&id.as_bytes()[3..5], &[0x7F, 0xFC]);
    id.set_product_type_ufp(TxIdentityProductTypeUfp::UndefinedUfp);
    assert_eq!(id.as_bytes()[4], 0xC4);
    id.set_modal_operation_supported(false);
    assert_eq!(id.as_bytes()[4], 0xC0);
    id.set_usb_communication_capable_as_device(false);
    assert_eq!(id.as_bytes()[4], 0x80);
    id.set_usb_communication_capable_as_host(false);
    assert_eq!(id.as_bytes()[4], 0x00);
    id.set_vendor_id(0);
    id.set_certification_test_id(0);
    let bytes: [u8; LEN] = id.into();
    assert_eq!(&bytes[..9], &[0xF8, 0, 0, 0x7F, 0, 0, 0, 0, 0]);
    assert_eq!(&bytes[9..], &[0xFF; 40]);
}

#[test]
fn reserved_values() {
    assert_eq!(TxIdentityVdoCount::from(7), TxIdentityVdoCount::Reserved(7));
    assert_eq!(TxIdentityVdoCount::from(0x0E), TxIdentityVdoCount::Ack6Vdos);
    assert_eq!(TxIdentityVdoCount::from(0xFB), TxIdentityVdoCount::Ack3Vdos);
    assert_eq!(u8::from(TxIdentityVdoCount::Reserved(7)), 7);
    assert_eq!(u8::from(TxIdentityVdoCount::Busy), 1);
    assert_eq!(TxIdentityProductTypeDfp::from(4), TxIdentityProductTypeDfp::Amc);
    assert_eq!(TxIdentityProductTypeDfp::from(5), TxIdentityProductTypeDfp::Reserved(5));
    assert_eq!(u8::from(TxIdentityProductTypeDfp::PdUsbHost), 2);
    assert_eq!(TxIdentityProductTypeUfp::from(3), TxIdentityProductTypeUfp::Psd);
    assert_eq!(TxIdentityProductTypeUfp::from(4), TxIdentityProductTypeUfp::Reserved(4));
    assert_eq!(TxIdentityProductTypeUfp::from(0x12), TxIdentityProductTypeUfp::PdUsbPeripheral);
    assert_eq!(u8::from(TxIdentityProductTypeUfp::Reserved(6)), 6);

    let mut id = TxIdentity::default();
    // only the low three bits of a reserved value are stored
    id.set_product_type_dfp(TxIdentityProductTypeDfp::Reserved(0xFE));
    assert_eq!(&id.as_bytes()[3..5], &[0x00, 0x03]);
    assert_eq!(id.product_type_dfp(), TxIdentityProductTypeDfp::Reserved(6));
    assert!(!id.modal_operation_supported());
    id.set_number_valid_vdos(TxIdentityVdoCount::Reserved(0xFF));
    assert_eq!(id.as_bytes()[0], 0x07);
    assert_eq!(id.number_valid_vdos(), TxIdentityVdoCount::Reserved(7));
}
