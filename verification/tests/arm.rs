use airfrog::arm::ap::{idr_ahb_ap_known, Idr, IDR_AHB_AP_CORTEX_M0_VALUE};
use airfrog::arm::dp::{target_sel_rp2040_core0, CtrlStat, IdCode};
use airfrog::arm::map::{Csw, Tar};

#[test]
fn idcode_fields_and_text() {
    let id = IdCode::new(0x2BA0_1477);
    assert_eq!(id.designer_id(), 0x23B);
    assert_eq!(id.part_number(), 0xBA);
    assert_eq!(id.version(), 1);
    assert_eq!(id.revision(), 2);
    assert!(id.is_valid());
    assert_eq!(id.designer_name(), "ARM Ltd");
    assert_eq!(id.part_description(), "ARM Debug Port v1");
    assert_eq!(id.display(false), "0x2BA01477");
    assert_eq!(id.display(true), "0x2BA01477 ARM Debug Port v1");
    assert_eq!(id.to_lower_hex(), "0x2ba01477");
    assert_eq!(IdCode::new(0x2BA0_1476).display(true), "Invalid IDCODE: 0x2BA01476 (LSB not set)");
}

#[test]
fn ctrl_stat_setters_change_only_their_field() {
    let mut cs = CtrlStat::from(0u32);
    cs.set_cdbgpwrupreq(true);
    cs.set_csyspwrupreq(true);
    assert!(cs.cdbgpwrupreq());
    assert!(cs.csyspwrupreq());
    assert_eq!(u32::from(cs), 0x5000_0000);
    cs.set_trncnt(0xFFF);
    assert_eq!(cs.trncnt(), 0xFFF);
    cs.set_cdbgpwrupreq(false);
    assert!(!cs.cdbgpwrupreq());
    assert!(cs.csyspwrupreq());
}

#[test]
fn csw_default_and_fields() {
    let csw = Csw::default();
    assert_eq!(csw.value(), 0x2200_0042);
    let mut c = Csw::from(0u32);
    c.set_size(2);
    c.set_addrinc(1);
    assert_eq!(c.size(), 2);
    assert_eq!(c.addrinc(), 1);
    let mut t = Tar::from(0u32);
    t.set_target_address(0x2000_0000);
    assert_eq!(t.target_address(), 0x2000_0000);
}

#[test]
fn access_port_ids() {
    let idr = Idr::new(IDR_AHB_AP_CORTEX_M0_VALUE);
    assert_eq!(idr.revision(), 0);
    assert_eq!(idr_ahb_ap_known()[0].revision(), 0);
    assert_eq!(u32::from(target_sel_rp2040_core0()), 0x0100_2927);
}

#[test]
fn ctrl_stat_texts() {
    assert_eq!(CtrlStat::from(0x22u32).error_states(), "Errors: STICKYORUN, STICKYERR");
    assert_eq!(CtrlStat::from(0x40u32).error_states(), "No errors (READOK)");
    assert_eq!(CtrlStat::from(0u32).error_states(), "No errors");
    assert_eq!(CtrlStat::from(0x5F04u32).transaction_state(), "Mode: Verify, Count: 5, Mask: 0xf");
    assert_eq!(CtrlStat::from(0x3000_0000u32).power_states(), "Debug: REQ/ACK, System: off/nak");
    assert_eq!(u32::from(CtrlStat::from(0x22u32)), 0x22);
}

#[test]
fn csw_texts() {
    assert_eq!(Csw::from(0x8000_00C0u32).status_flags(), "Flags: DEVICE_EN, TR_IN_PROG, DBG_SW_ENABLE");
    assert_eq!(Csw::from(0u32).status_flags(), "No flags set");
    assert_eq!(Csw::from(0x12u32).transfer_config(), "Size: 32-bit, AddrInc: Single");
    assert_eq!(Csw::from(0x37u32).transfer_config(), "Size: Reserved, AddrInc: Reserved");
}
