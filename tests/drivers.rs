use foc_core::adc::{buf_to_ch, ch_to_volts, decode, Ltc1408_12};
use foc_core::drv::{
    board_configuration, read_frame, reply_data, write_frame, CsaControl, DriveControl,
    DriverCheck, Drv8323rs, GateHs, Lock, PwmMode, SinkCurrent, SourceCurrent, Status1, Status2,
    DRV_INIT_READS,
};
use foc_core::sbus::{decode_frame, sync_offset, FrameError};

#[test]
fn test_bit_pattern() {
    let control = DriveControl::new().with_pwm_mode(PwmMode::_3x);

    let bits = control.into_bytes();

    println!("bits: {:?}", bits);

    assert_eq!(bits, [0b0000_0000, 0b0010_0000])
}

#[test]
fn frames_carry_address_and_data() {
    assert_eq!(read_frame(6), [0xB0, 0x00]);
    assert_eq!(Status1::read_frame(), [0x80, 0x00]);
    assert_eq!(Status2::read_frame(), [0x88, 0x00]);
    assert_eq!(write_frame(2, 0x7FF), [0x17, 0xFF]);
    assert_eq!(reply_data([0xFF, 0xFF]), 0x7FF);
}

#[test]
fn board_configuration_words() {
    let (drive, gate_hs, gate_ls, ocp, csa) = board_configuration();
    assert_eq!(drive.into_bytes(), [0x00, 0x80]);
    assert_eq!(drive.write_frame(), [0x10, 0x80]);
    assert_eq!(gate_hs.into_bytes(), [0x03, 0x33]);
    assert_eq!(gate_ls.into_bytes(), [0x00, 0x33]);
    assert_eq!(ocp.into_bytes(), [0x01, 0x11]);
    assert_eq!(csa.into_bytes(), [0x02, 0x40]);
    assert_eq!(csa.write_frame(), [0x32, 0x40]);
}

#[test]
fn register_fields_land_on_their_bits() {
    let gate = GateHs::new()
        .with_lock(Lock::Lock)
        .with_idrivep_hs(SourceCurrent::_1000)
        .with_idriven_hs(SinkCurrent::_20);
    assert_eq!(gate.into_bytes(), [0x06, 0xF0]);
    let csa = CsaControl::new().with_csa_fet(true).with_csa_cal_c(true);
    assert_eq!(csa.data(), 0x404);
}

#[test]
fn status_bits_decode_verbatim() {
    let s1 = Status1::from_bytes([0x04, 0x01]);
    assert!(s1.fault && s1.vds_lc);
    assert!(!s1.vds_ocp && !s1.gdf && !s1.uvlo && !s1.otsd && !s1.vds_hc);
    let s2 = Status2::from_bytes([0x01, 0x80]);
    assert!(s2.otw && s2.sc_oc);
    assert!(!s2.sa_oc && !s2.cp_uv && !s2.vgs_lc);
}

#[test]
fn driver_check_counts_mismatches() {
    let mut check = DriverCheck::new();
    check.record([0x02, 0x83]);
    check.record([0x02, 0x83]);
    assert!(check.passed());
    check.record([0x00, 0x00]);
    assert!(!check.passed());
    assert_eq!(check.failures(), 1);
    let mut full = DriverCheck::new();
    let mut n = 0;
    while full.wants_more() {
        full.record([0x02, 0x83]);
        n += 1;
    }
    assert_eq!(n, DRV_INIT_READS);
    assert!(full.passed());
}

#[test]
fn driver_holds_its_bus() {
    let mut drv = Drv8323rs::new(5u8);
    *drv.bus() += 1;
    assert_eq!(*drv.bus(), 6);
}

#[test]
fn adc_codes_and_volts() {
    assert_eq!(buf_to_ch(0xFF, 0xFF), 4095);
    assert_eq!(buf_to_ch(0x01, 0x04), 65);
    assert_eq!(buf_to_ch(0xC0, 0x03), 0);
    assert_eq!(ch_to_volts(4096 / 2), 81920);
    let mut buf = [0u8; 12];
    buf[2] = 0x20;
    buf[3] = 0x00;
    let v = decode(buf);
    assert_eq!(v, [0, 2048 * 40, 0, 0, 0, 0]);
}

#[test]
fn adc_channel_count_is_checked() {
    assert!(Ltc1408_12::new((), 0).is_none());
    assert!(Ltc1408_12::new((), 7).is_none());
    assert_eq!(Ltc1408_12::new((), 5).unwrap().read_len(), 10);
}

fn sample_frame() -> [u8; 25] {
    let mut buf = [0u8; 25];
    let head = [0x0F, 0xFF, 0x47, 0x1F];
    buf[..4].copy_from_slice(&head);
    buf[21] = 0x40;
    buf[22] = 0x9A;
    buf[23] = 0x04;
    buf
}

#[test]
fn sbus_frame_decodes_channels_and_flags() {
    let data = decode_frame(sample_frame()).unwrap();
    assert_eq!(data.ch1(), 2047);
    assert_eq!(data.ch2(), 1000);
    assert_eq!(data.ch5(), 0);
    assert_eq!(data.ch16(), 1234);
    assert!(data.frame_lost);
    assert!(!data.dig_ch1 && !data.dig_ch2 && !data.failsafe_activated);
}

#[test]
fn sbus_frame_without_sync_is_refused() {
    let mut buf = sample_frame();
    buf[0] = 0xF0;
    assert_eq!(decode_frame(buf).err(), Some(FrameError::FrameSync));
    assert_eq!(sync_offset(buf), Some(0));
    let mut tail = sample_frame();
    tail[24] = 0x01;
    assert!(decode_frame(tail).is_err());
    assert_eq!(sync_offset(tail), None);
}

#[test]
fn receiver_and_converter_hold_their_bus() {
    let mut sbus = foc_core::sbus::Sbus::new(1u32);
    *sbus.bus() += 1;
    assert_eq!(*sbus.bus(), 2);
    let mut adc = Ltc1408_12::new(9u32, 6).unwrap();
    *adc.bus() += 1;
    assert_eq!(*adc.bus(), 10);
    assert_eq!(adc.read_len(), 12);
}
