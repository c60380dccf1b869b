use memtest_vulkan::control::{IOBuffer, MostlyZeroArr, U64HexDebug};
use memtest_vulkan::format::{append_decimal, append_upper_hex};

#[test]
fn addresses_are_shown_in_upper_case_hex() {
    assert_eq!(U64HexDebug(0).fmt(), "0x0");
    assert_eq!(U64HexDebug(9).fmt(), "0x9");
    assert_eq!(U64HexDebug(10).fmt(), "0xA");
    assert_eq!(U64HexDebug(0xADBAC).fmt(), "0xADBAC");
    assert_eq!(U64HexDebug(0x1000_0000).fmt(), "0x10000000");
    assert_eq!(U64HexDebug(u64::MAX).fmt(), "0xFFFFFFFFFFFFFFFF");
    for &address in [1u64, 15, 16, 255, 256, 0xDEAD_BEEF, 0x0123_4567_89AB_CDEF].iter() {
        assert_eq!(U64HexDebug(address).fmt(), format!("0x{:X}", address));
    }
}

#[test]
fn numbers_are_appended_without_leading_zeros() {
    let mut text = String::from("n=");
    append_decimal(&mut text, 0);
    text.push(' ');
    append_decimal(&mut text, 4_294_967_295);
    text.push(' ');
    append_decimal(&mut text, u64::MAX);
    text.push(' ');
    append_upper_hex(&mut text, 0xC0FFEE);
    assert_eq!(text, "n=0 4294967295 18446744073709551615 C0FFEE");
    for &n in [7u64, 10, 99, 100, 1_000_000, 16_777_472].iter() {
        let mut text = String::new();
        append_decimal(&mut text, n);
        assert_eq!(text, format!("{}", n));
    }
}

#[test]
fn an_empty_histogram_is_all_zeroes() {
    assert_eq!(MostlyZeroArr::zeroed().fmt(), "[32 zeroes]");
}

#[test]
fn a_histogram_lists_its_counters_other_than_zero() {
    let mut counters = [0u32; 32];
    counters[2] = 1;
    assert_eq!(MostlyZeroArr(counters).fmt(), "[[2]=1, 31 zeroes]");
    counters[0] = 4_000_000_000;
    counters[31] = 17;
    assert_eq!(MostlyZeroArr(counters).fmt(), "[[0]=4000000000, [2]=1, [31]=17, 29 zeroes]");
    let full = MostlyZeroArr([3u32; 32]).fmt();
    assert!(full.starts_with("[[0]=3, [1]=3, "));
    assert!(full.ends_with("[31]=3, 0 zeroes]"));
}

#[test]
fn a_histogram_is_appended_to_what_is_there() {
    let mut text = String::from("counts: ");
    MostlyZeroArr::zeroed().append_to(&mut text);
    assert_eq!(text, "counts: [32 zeroes]");
}

#[test]
fn the_control_structure_is_shown_field_by_field() {
    let mut io = IOBuffer::default();
    io.prepare_next_iter_write();
    assert_eq!(
        io.fmt(),
        "IOBuffer { single_bit_err_idx: [32 zeroes], err_bits_count: [32 zeroes], \
         max_bad_idx: 0, min_bad_idx: 4294967295, write_do: 1, read_do: 0, iteration: 1, \
         done_iter_or_status: 0, value_calc_param: 16777472 }"
    );
    io.continue_iter_read(1);
    io.single_bit_err_idx.0[2] = 1;
    io.err_bits_count.0[1] = 1;
    io.max_bad_idx = 177_899;
    io.min_bad_idx = 177_899;
    io.done_iter_or_status = u32::MAX;
    assert_eq!(
        io.fmt(),
        "IOBuffer { single_bit_err_idx: [[2]=1, 31 zeroes], err_bits_count: [[1]=1, 31 zeroes], \
         max_bad_idx: 177899, min_bad_idx: 177899, write_do: 0, read_do: 1, iteration: 1, \
         done_iter_or_status: 4294967295, value_calc_param: 16777472 }"
    );
}
