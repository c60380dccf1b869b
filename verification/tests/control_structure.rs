use memtest_vulkan::control::{IOBuffer, MostlyZeroArr, PassStatus, U64HexDebug};
use memtest_vulkan::params::{ERROR_STATUS, IO_BUFFER_WORDS};

fn sample() -> IOBuffer {
    let mut single = [0u32; 32];
    single[2] = 7;
    single[31] = 1;
    let mut widths = [0u32; 32];
    widths[1] = 8;
    widths[0] = 3;
    IOBuffer {
        single_bit_err_idx: MostlyZeroArr(single),
        err_bits_count: MostlyZeroArr(widths),
        max_bad_idx: 900,
        min_bad_idx: 100,
        write_do: 1,
        read_do: 0,
        iteration: 41,
        done_iter_or_status: ERROR_STATUS,
        value_calc_param: 12345,
    }
}

#[test]
fn a_new_structure_is_all_zero() {
    let io = IOBuffer::default();
    assert_eq!(io.to_words(), [0u32; IO_BUFFER_WORDS]);
    assert_eq!(MostlyZeroArr::default().0, [0u32; 32]);
    assert_eq!(MostlyZeroArr::zeroed().0, [0u32; 32]);
    assert_eq!(U64HexDebug::default().0, 0);
}

#[test]
fn first_write_sweep_is_iteration_one() {
    let mut io = IOBuffer::default();
    io.prepare_next_iter_write();
    assert_eq!(io.iteration, 1);
    assert_eq!(io.write_do, 1);
    assert_eq!(io.read_do, 0);
    assert_eq!(io.max_bad_idx, 0);
    assert_eq!(io.min_bad_idx, u32::MAX);
    assert_eq!(io.done_iter_or_status, 0);
    assert_eq!(io.value_calc_param, 0x0100_0100);
    assert_eq!(io.single_bit_err_idx.0, [0u32; 32]);
    assert_eq!(io.err_bits_count.0, [0u32; 32]);
}

#[test]
fn next_write_sweep_resets_everything_but_the_iteration() {
    let mut io = sample();
    io.read_do = 1;
    io.prepare_next_iter_write();
    assert_eq!(io.iteration, 42);
    assert_eq!(io.write_do, 1);
    assert_eq!(io.read_do, 0);
    assert_eq!(io.max_bad_idx, 0);
    assert_eq!(io.min_bad_idx, u32::MAX);
    assert_eq!(io.done_iter_or_status, 0);
    assert_eq!(io.value_calc_param, 42u32.wrapping_mul(0x0100_0100));
    assert_eq!(io.single_bit_err_idx.0, [0u32; 32]);
    assert_eq!(io.err_bits_count.0, [0u32; 32]);
}

#[test]
fn iteration_seed_wraps() {
    let mut io = IOBuffer::default();
    io.iteration = 0x1FF;
    io.prepare_next_iter_write();
    assert_eq!(io.iteration, 0x200);
    assert_eq!(io.value_calc_param, 0x0002_0000);
    io.iteration = u32::MAX - 1;
    io.prepare_next_iter_write();
    assert_eq!(io.iteration, u32::MAX);
    assert_eq!(io.value_calc_param, 0xFEFF_FF00);
}

#[test]
fn switching_to_read_keeps_the_aggregates() {
    let mut io = sample();
    io.continue_iter_read(1);
    assert_eq!(io.write_do, 0);
    assert_eq!(io.read_do, 1);
    assert_eq!(io.value_calc_param, 41u32.wrapping_mul(0x0100_0100));
    let kept = sample();
    assert_eq!(io.iteration, kept.iteration);
    assert_eq!(io.max_bad_idx, kept.max_bad_idx);
    assert_eq!(io.min_bad_idx, kept.min_bad_idx);
    assert_eq!(io.done_iter_or_status, kept.done_iter_or_status);
    assert_eq!(io.single_bit_err_idx.0, kept.single_bit_err_idx.0);
    assert_eq!(io.err_bits_count.0, kept.err_bits_count.0);
    io.continue_iter_read(7);
    assert_eq!(io.read_do, 7);
}

#[test]
fn seed_for_starting_window_follows_the_iteration() {
    let mut io = sample();
    io.set_calc_param_for_starting_window();
    assert_eq!(io.value_calc_param, 41u32.wrapping_mul(0x0100_0100));
    let mut expected = sample().to_words();
    expected[70] = 41u32.wrapping_mul(0x0100_0100);
    assert_eq!(io.to_words(), expected);
}

#[test]
fn resetting_errors_keeps_mode_iteration_and_seed() {
    let mut io = sample();
    io.reset_errors();
    assert_eq!(io.single_bit_err_idx.0, [0u32; 32]);
    assert_eq!(io.err_bits_count.0, [0u32; 32]);
    assert_eq!(io.max_bad_idx, 0);
    assert_eq!(io.min_bad_idx, u32::MAX);
    assert_eq!(io.done_iter_or_status, 0);
    assert!(io.min_bad_idx > io.max_bad_idx);
    assert_eq!(io.write_do, 1);
    assert_eq!(io.read_do, 0);
    assert_eq!(io.iteration, 41);
    assert_eq!(io.value_calc_param, 12345);
}

#[test]
fn window_terms_accumulate() {
    let mut io = IOBuffer::default();
    io.prepare_next_iter_write();
    io.add_window_term(0);
    assert_eq!(io.value_calc_param, 0x0100_0100);
    io.add_window_term(1);
    assert_eq!(io.value_calc_param, 0x0100_0100 + 0x81);
    io.add_window_term(2);
    assert_eq!(io.value_calc_param, 0x0100_0100 + 0x81 * 3);
    io.add_window_term(3);
    assert_eq!(io.value_calc_param, 0x0100_0100 + 0x81 * 6);
    assert_eq!(io.iteration, 1);
    assert_eq!(io.write_do, 1);
}

#[test]
fn window_terms_wrap() {
    let mut io = IOBuffer::default();
    io.value_calc_param = u32::MAX;
    io.add_window_term(1);
    assert_eq!(io.value_calc_param, 0x80);
    io.value_calc_param = 0;
    io.add_window_term(0x1_0000_0001);
    assert_eq!(io.value_calc_param, 0x81);
    io.value_calc_param = 0;
    io.add_window_term(u64::MAX);
    assert_eq!(io.value_calc_param, 0u32.wrapping_sub(0x81));
}

#[test]
fn status_is_read_three_ways() {
    let mut io = sample();
    io.iteration = 5;
    io.done_iter_or_status = 5;
    assert_eq!(io.pass_status(), PassStatus::Clean);
    io.done_iter_or_status = ERROR_STATUS;
    assert_eq!(io.pass_status(), PassStatus::Faulty);
    io.done_iter_or_status = 0;
    assert_eq!(io.pass_status(), PassStatus::Unconfirmed);
    io.done_iter_or_status = 4;
    assert_eq!(io.pass_status(), PassStatus::Unconfirmed);
}

#[test]
fn a_confirmed_pass_has_no_error_addresses() {
    let mut io = sample();
    io.done_iter_or_status = io.iteration;
    assert!(io.get_error_addresses(0).is_none());
    assert!(io.get_error_addresses(u64::MAX).is_none());
}

#[test]
fn error_addresses_span_the_bad_elements() {
    let io = sample();
    let range = io.get_error_addresses(0x1000).unwrap();
    assert_eq!(range.start().0, 0x1000 + 100 * 4);
    assert_eq!(range.end().0, 0x1000 + 900 * 4 + 3);
}

#[test]
fn an_unconfirmed_pass_reports_the_sentinels() {
    let mut io = IOBuffer::default();
    io.prepare_next_iter_write();
    io.continue_iter_read(1);
    io.reset_errors();
    assert_eq!(io.pass_status(), PassStatus::Unconfirmed);
    let range = io.get_error_addresses(0).unwrap();
    assert_eq!(range.start().0, u32::MAX as u64 * 4);
    assert_eq!(range.end().0, 3);
    assert!(range.start().0 > range.end().0);
}

#[test]
fn error_addresses_fit_up_to_the_last_byte() {
    let mut io = sample();
    io.min_bad_idx = 0;
    io.max_bad_idx = 0;
    assert!(io.error_addresses_fit(u64::MAX - 3));
    assert!(!io.error_addresses_fit(u64::MAX - 2));
    let range = io.get_error_addresses(u64::MAX - 3).unwrap();
    assert_eq!(range.start().0, u64::MAX - 3);
    assert_eq!(range.end().0, u64::MAX);
    io.min_bad_idx = 2;
    io.max_bad_idx = 1;
    assert!(io.error_addresses_fit(u64::MAX - 8));
    assert!(!io.error_addresses_fit(u64::MAX - 7));
}

#[test]
fn layout_is_two_histograms_then_seven_words() {
    assert_eq!(IO_BUFFER_WORDS, 71);
    let words = sample().to_words();
    assert_eq!(words[2], 7);
    assert_eq!(words[31], 1);
    assert_eq!(words[32], 3);
    assert_eq!(words[33], 8);
    assert_eq!(words[64..], [900, 100, 1, 0, 41, ERROR_STATUS, 12345]);
    assert_eq!(words.iter().filter(|&&w| w != 0).count(), 10);
}

#[test]
fn layout_round_trips() {
    let io = sample();
    let back = IOBuffer::from_words(&io.to_words());
    assert_eq!(back.to_words(), io.to_words());
    assert_eq!(back.single_bit_err_idx.0, io.single_bit_err_idx.0);
    assert_eq!(back.err_bits_count.0, io.err_bits_count.0);
    assert_eq!(back.value_calc_param, 12345);
    let mut words = [0u32; IO_BUFFER_WORDS];
    for (i, word) in words.iter_mut().enumerate() {
        *word = 1000 + i as u32;
    }
    let io = IOBuffer::from_words(&words);
    assert_eq!(io.single_bit_err_idx.0[0], 1000);
    assert_eq!(io.single_bit_err_idx.0[31], 1031);
    assert_eq!(io.err_bits_count.0[0], 1032);
    assert_eq!(io.err_bits_count.0[31], 1063);
    assert_eq!(io.max_bad_idx, 1064);
    assert_eq!(io.min_bad_idx, 1065);
    assert_eq!(io.write_do, 1066);
    assert_eq!(io.read_do, 1067);
    assert_eq!(io.iteration, 1068);
    assert_eq!(io.done_iter_or_status, 1069);
    assert_eq!(io.value_calc_param, 1070);
    assert_eq!(io.to_words(), words);
}
