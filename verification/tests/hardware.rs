use emu::cpu::hardware::get_unmasked_address;
use emu::cpu::hardware::interrupt_control::InterruptControl;
use emu::cpu::hardware::timers::Timers;

#[test]
fn unmasked_address_folds_mirrors() {
    assert_eq!(
        get_unmasked_address(0x05FF_FD34, 0x00FF_FF00, 0xFF00_00FF, 8, 4),
        0x0500_0134
    );
    assert_eq!(
        get_unmasked_address(0x0613_1345, 0x00FF_0000, 0xFF00_FFFF, 16, 2),
        0x0601_1345
    );
    assert_eq!(
        get_unmasked_address(0x0700_0534, 0x00FF_FF00, 0xFF00_00FF, 8, 4),
        0x0700_0134
    );
}

#[test]
fn interrupt_request_write_acknowledges() {
    let mut registers = InterruptControl::default();
    registers.interrupt_request = 0b0011_0000_0000_0101;
    assert!(registers.write(0x0400_0202, 0b0000_0100));
    assert_eq!(registers.interrupt_request, 0b0011_0000_0000_0001);
    assert!(registers.write(0x0400_0203, 0b0001_0000));
    assert_eq!(registers.interrupt_request, 0b0010_0000_0000_0001);
    assert!(!registers.write(0x0400_0206, 1));
    assert_eq!(registers.read(0x0400_0206), None);
    assert_eq!(registers.read(0x0400_0202), Some(0b0000_0001));
}

#[test]
fn timer_control_starts_from_reload() {
    let mut timers = Timers::default();
    timers.set_reload(2, 0xFF00);
    assert_eq!(timers.tm2cnt_l, 0);
    timers.set_control(2, 0x0080);
    assert_eq!(timers.tm2cnt_l, 0xFF00);
    assert_eq!(timers.tm2cnt_h, 0x0080);
    timers.set_reload(2, 0x0001);
    timers.set_control(2, 0x0081);
    assert_eq!(timers.tm2cnt_l, 0xFF00);
    timers.set_control(3, 0x0040);
    assert_eq!(timers.tm3cnt_l, 0);
}
