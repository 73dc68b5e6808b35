use sparreal_kernel::util::boot::{boot_debug_hex, stdout_reg, StdoutReg};

#[test]
fn test_hex_fmt() {
    let mut out = String::new();
    boot_debug_hex(&mut out, 0x12345678);
    println!("{}", out);
    assert_eq!(out, "0x12345678");
}

#[test]
fn hex_of_zero_is_a_single_digit() {
    let mut out = String::new();
    boot_debug_hex(&mut out, 0);
    assert_eq!(out, "0x0");
}

#[test]
fn hex_uses_lower_case_and_no_leading_zeros() {
    let mut out = String::from("at ");
    boot_debug_hex(&mut out, 0xFFFF_0000_4800_0ABC);
    assert_eq!(out, "at 0xffff000048000abc");
    let mut small = String::new();
    boot_debug_hex(&mut small, 0x0f);
    assert_eq!(small, "0xf");
}

#[test]
fn console_window_from_its_register_entry() {
    assert_eq!(
        stdout_reg(0x0900_0000, Some(0x1000)),
        Some(StdoutReg { reg: 0x0900_0000, size: 0x1000 })
    );
    assert_eq!(stdout_reg(0x0900_0000, None), Some(StdoutReg { reg: 0x0900_0000, size: 0 }));
    assert_eq!(
        stdout_reg(u64::MAX, Some(1)),
        Some(StdoutReg { reg: usize::MAX, size: 1 })
    );
}
