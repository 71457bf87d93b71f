use snes_apu::apu::Apu;
use snes_apu::apu::DEFAULT_IPL_ROM;
use snes_apu::cores::RampDsp;
use snes_apu::cores::SleepingSmp;
use snes_apu::dsp::Dsp;

fn reset() -> Apu<RampDsp> {
    Apu::new(RampDsp::new())
}

#[test]
fn cold_reset_read() {
    let mut apu = reset();
    assert_eq!(apu.read_u8(0xffc0), 0xcd);
}

#[test]
fn cold_reset_maps_the_whole_boot_rom() {
    let mut apu = reset();
    for i in 0..64u16 {
        assert_eq!(apu.read_u8(0xffc0 + i), DEFAULT_IPL_ROM[i as usize]);
    }
    assert_eq!(apu.read_u8(0xffbf), 0);
    assert_eq!(apu.read_u8(0xffff), 0xff);
}

#[test]
fn cold_reset_ram_is_zero() {
    let mut apu = reset();
    assert_eq!(apu.read_u8(0x0000), 0);
    assert_eq!(apu.read_u8(0x00ef), 0);
    assert_eq!(apu.read_u8(0x0100), 0);
    assert_eq!(apu.read_u8(0x8000), 0);
    assert_eq!(apu.read_u8(0xffbf), 0);
}

#[test]
fn disable_ipl_rom() {
    let mut apu = reset();
    apu.write_u8(0x00f1, 0x00);
    assert_eq!(apu.read_u8(0xffc0), 0x00);
}

#[test]
fn control_bit_seven_maps_the_boot_rom_again() {
    let mut apu = reset();
    apu.write_u8(0x00f1, 0x00);
    assert_eq!(apu.read_u8(0xffc1), 0x00);
    apu.write_u8(0x00f1, 0x80);
    assert_eq!(apu.read_u8(0xffc1), 0xef);
}

#[test]
fn writes_under_the_boot_rom_reach_ram() {
    let mut apu = reset();
    apu.write_u8(0xffc0, 0x12);
    apu.write_u8(0xffff, 0x34);
    assert_eq!(apu.read_u8(0xffc0), 0xcd);
    assert_eq!(apu.read_u8(0xffff), 0xff);
    apu.write_u8(0x00f1, 0x7f & !0x30);
    assert_eq!(apu.read_u8(0xffc0), 0x12);
    assert_eq!(apu.read_u8(0xffff), 0x34);
}

#[test]
fn unmapped_boot_rom_reads_ram_for_every_control_value() {
    for value in 0..=255u8 {
        let mut apu = reset();
        apu.write_u8(0xffd0, 0x5a);
        apu.write_u8(0x00f1, value & !0x80);
        assert_eq!(apu.read_u8(0xffd0), 0x5a);
        assert_eq!(apu.read_u8(0xffc0), 0x00);
    }
}

#[test]
fn ram_reads_back_what_was_written() {
    let mut apu = reset();
    let addresses: [u16; 8] = [0x0000, 0x00ef, 0x00f4, 0x00f9, 0x0100, 0x1234, 0xffbf, 0x8000];
    for (i, address) in addresses.iter().enumerate() {
        apu.write_u8(*address, 0x40 + i as u8);
    }
    for (i, address) in addresses.iter().enumerate() {
        assert_eq!(apu.read_u8(*address), 0x40 + i as u8);
    }
}

#[test]
fn ram_reads_back_over_the_whole_address_space() {
    let mut apu = reset();
    apu.write_u8(0x00f1, 0x00);
    for address in 0..=0xffffu16 {
        if (0x00f0..=0x00ff).contains(&address) {
            continue;
        }
        apu.write_u8(address, (address as u8) ^ 0xa5);
    }
    for address in 0..=0xffffu16 {
        if (0x00f0..=0x00ff).contains(&address) {
            continue;
        }
        assert_eq!(apu.read_u8(address), (address as u8) ^ 0xa5);
    }
}

#[test]
fn test_and_control_registers_read_zero() {
    let mut apu = reset();
    assert_eq!(apu.read_u8(0x00f0), 0);
    assert_eq!(apu.read_u8(0x00f1), 0);
    for value in [0x00u8, 0x01, 0x80, 0xb7, 0xff] {
        apu.write_u8(0x00f0, value);
        apu.write_u8(0x00f1, value);
        assert_eq!(apu.read_u8(0x00f0), 0);
        assert_eq!(apu.read_u8(0x00f1), 0);
    }
}

#[test]
fn test_register_write_changes_nothing() {
    let mut apu = reset();
    apu.write_u8(0x00f0, 0xff);
    assert_eq!(apu.read_u8(0xffc0), 0xcd);
    assert_eq!(apu.read_u8(0x00f2), 0);
    assert_eq!(apu.read_u8(0x00fd), 0);
    apu.set_test_reg(0x0a);
    assert_eq!(apu.read_u8(0x00f0), 0);
}

#[test]
fn dsp_address_reads_back() {
    let mut apu = reset();
    assert_eq!(apu.read_u8(0x00f2), 0);
    for value in 0..=255u8 {
        apu.write_u8(0x00f2, value);
        assert_eq!(apu.read_u8(0x00f2), value);
    }
}

#[test]
fn dsp_register_window() {
    let mut apu = reset();
    apu.write_u8(0x00f2, 0x4c);
    apu.write_u8(0x00f3, 0x01);
    assert_eq!(apu.dsp().get_register(0x4c), 0x01);
    assert_eq!(apu.read_u8(0x00f3), 0x01);
}

#[test]
fn dsp_register_window_follows_the_address() {
    let mut apu = reset();
    for address in 0..128u8 {
        apu.write_u8(0x00f2, address);
        apu.write_u8(0x00f3, address ^ 0xff);
    }
    for address in 0..128u8 {
        apu.write_u8(0x00f2, address);
        assert_eq!(apu.read_u8(0x00f3), address ^ 0xff);
        assert_eq!(apu.dsp().get_register(address), address ^ 0xff);
    }
}

#[test]
fn dsp_window_write_leaves_ram_alone() {
    let mut apu = reset();
    apu.write_u8(0x00f2, 0x10);
    apu.write_u8(0x00f3, 0x77);
    apu.write_u8(0x00f2, 0x11);
    assert_eq!(apu.read_u8(0x00f3), 0);
    assert_eq!(apu.read_u8(0x0010), 0);
}

#[test]
fn control_register_mailbox_clear() {
    let mut apu = reset();
    apu.write_u8(0x00f4, 0xaa);
    apu.write_u8(0x00f5, 0xbb);
    assert_eq!(apu.read_u8(0x00f4), 0xaa);
    assert_eq!(apu.read_u8(0x00f5), 0xbb);
    apu.write_u8(0x00f1, 0x10);
    assert_eq!(apu.read_u8(0x00f4), 0);
    assert_eq!(apu.read_u8(0x00f5), 0);
}

#[test]
fn control_register_clears_each_mailbox_pair_by_its_bit() {
    let mut apu = reset();
    for (i, address) in [0x00f4u16, 0x00f5, 0x00f6, 0x00f7].iter().enumerate() {
        apu.write_u8(*address, 0xa0 + i as u8);
    }
    apu.write_u8(0x00f1, 0x8f);
    assert_eq!(apu.read_u8(0x00f4), 0xa0);
    assert_eq!(apu.read_u8(0x00f5), 0xa1);
    assert_eq!(apu.read_u8(0x00f6), 0xa2);
    assert_eq!(apu.read_u8(0x00f7), 0xa3);
    apu.write_u8(0x00f1, 0x20);
    assert_eq!(apu.read_u8(0x00f4), 0xa0);
    assert_eq!(apu.read_u8(0x00f5), 0xa1);
    assert_eq!(apu.read_u8(0x00f6), 0);
    assert_eq!(apu.read_u8(0x00f7), 0);
    apu.set_control_reg(0x10);
    assert_eq!(apu.read_u8(0x00f4), 0);
    assert_eq!(apu.read_u8(0x00f5), 0);
}

#[test]
fn timer_targets_are_write_only() {
    let mut apu = reset();
    for address in [0x00fau16, 0x00fb, 0x00fc] {
        apu.write_u8(address, 0x55);
        assert_eq!(apu.read_u8(address), 0);
    }
}

#[test]
fn timer_zero_counts_through_the_bus() {
    let mut apu = reset();
    apu.write_u8(0x00fa, 2);
    apu.write_u8(0x00f1, 0x01);
    // Four internal ticks of 256 cycles each, after the one cycle that
    // fills the accumulator: two rounds with target two.
    apu.cpu_cycles_callback(256 * 4 + 1);
    assert_eq!(apu.read_u8(0x00fe), 0);
    assert_eq!(apu.read_u8(0x00ff), 0);
    assert_eq!(apu.read_u8(0x00fd), 2);
    assert_eq!(apu.read_u8(0x00fd), 0);
}

#[test]
fn each_timer_has_its_start_bit_and_resolution() {
    let mut apu = reset();
    apu.write_u8(0x00fa, 1);
    apu.write_u8(0x00fb, 1);
    apu.write_u8(0x00fc, 1);
    apu.write_u8(0x00f1, 0x06);
    // Timer 2 ticks every 32 cycles, timer 1 every 256, timer 0 is stopped.
    apu.cpu_cycles_callback(32 * 8 + 1);
    assert_eq!(apu.read_u8(0x00fd), 0);
    assert_eq!(apu.read_u8(0x00fe), 1);
    assert_eq!(apu.read_u8(0x00ff), 8);
    assert_eq!(apu.read_u8(0x00fe), 0);
    assert_eq!(apu.read_u8(0x00ff), 0);
}

#[test]
fn counter_writes_are_ignored() {
    let mut apu = reset();
    apu.write_u8(0x00fa, 1);
    apu.write_u8(0x00f1, 0x01);
    apu.cpu_cycles_callback(256 * 3 + 1);
    apu.write_u8(0x00fd, 0x0f);
    apu.write_u8(0x00fe, 0x0f);
    apu.write_u8(0x00ff, 0x0f);
    assert_eq!(apu.read_u8(0x00fd), 3);
    assert_eq!(apu.read_u8(0x00fe), 0);
    assert_eq!(apu.read_u8(0x00ff), 0);
    assert_eq!(apu.read_u8(0x00fd), 0);
}

#[test]
fn counter_survives_other_accesses() {
    let mut apu = reset();
    apu.write_u8(0x00fa, 1);
    apu.write_u8(0x00f1, 0x01);
    apu.cpu_cycles_callback(256 * 2 + 1);
    apu.read_u8(0x00fe);
    apu.read_u8(0x00f3);
    apu.read_u8(0x1234);
    apu.write_u8(0x00fa, 9);
    apu.write_u8(0x00f1, 0x01);
    apu.write_u8(0x1234, 1);
    assert_eq!(apu.read_u8(0x00fd), 2);
}

#[test]
fn cycles_reach_the_signal_processor() {
    let mut apu = reset();
    apu.cpu_cycles_callback(63);
    assert_eq!(apu.dsp().output_len(), 0);
    apu.cpu_cycles_callback(1);
    assert_eq!(apu.dsp().output_len(), 1);
    apu.cpu_cycles_callback(64 * 5 + 10);
    assert_eq!(apu.dsp().output_len(), 6);
}

#[test]
fn render_fills_the_buffer() {
    let mut apu = reset();
    let mut smp = SleepingSmp::new();
    let mut buffer = [(-1i16, -1i16); 5];
    apu.render(&mut smp, &mut buffer);
    assert_eq!(buffer, [(0, 0), (1, 1), (2, 2), (3, 3), (4, 4)]);
    assert_eq!(apu.dsp().output_len(), 0);
}

#[test]
fn render_continues_where_it_stopped() {
    let mut apu = reset();
    let mut smp = SleepingSmp::new();
    let mut first = [(-1i16, -1i16); 3];
    let mut second = [(-1i16, -1i16); 4];
    apu.render(&mut smp, &mut first);
    apu.render(&mut smp, &mut second);
    assert_eq!(first, [(0, 0), (1, 1), (2, 2)]);
    assert_eq!(second, [(3, 3), (4, 4), (5, 5), (6, 6)]);
}

#[test]
fn render_takes_queued_samples_first_and_leaves_the_surplus() {
    let mut apu = reset();
    let mut smp = SleepingSmp::new();
    apu.write_u8(0x00fc, 1);
    apu.write_u8(0x00f1, 0x04);
    apu.cpu_cycles_callback(64 * 10);
    assert_eq!(apu.dsp().output_len(), 10);
    assert_eq!(apu.read_u8(0x00ff), 3);

    // Enough is queued: the processor does not run, so timer 2 stands.
    let mut buffer = [(-1i16, -1i16); 4];
    apu.render(&mut smp, &mut buffer);
    assert_eq!(buffer, [(0, 0), (1, 1), (2, 2), (3, 3)]);
    assert_eq!(apu.dsp().output_len(), 6);
    assert_eq!(apu.read_u8(0x00ff), 0);

    // Six are queued and seven are wanted: the processor runs for 7 * 64
    // cycles, which queues seven more and gives timer 2 fourteen ticks.
    let mut buffer = [(-1i16, -1i16); 7];
    apu.render(&mut smp, &mut buffer);
    assert_eq!(buffer, [(4, 4), (5, 5), (6, 6), (7, 7), (8, 8), (9, 9), (10, 10)]);
    assert_eq!(apu.dsp().output_len(), 6);
    assert_eq!(apu.read_u8(0x00ff), 14);
}

#[test]
fn render_runs_the_processor_for_64_cycles_per_sample() {
    let mut apu = reset();
    let mut smp = SleepingSmp::new();
    apu.write_u8(0x00fc, 1);
    apu.write_u8(0x00f1, 0x04);
    let mut buffer = [(0i16, 0i16); 16];
    apu.render(&mut smp, &mut buffer);
    // 1024 cycles: 31 internal ticks of timer 2, of which four bits show.
    assert_eq!(apu.read_u8(0x00ff), 15);
}

#[test]
fn render_of_an_empty_buffer_does_nothing() {
    let mut apu = reset();
    let mut smp = SleepingSmp::new();
    apu.cpu_cycles_callback(64 * 2);
    let mut buffer: [(i16, i16); 0] = [];
    apu.render(&mut smp, &mut buffer);
    assert_eq!(apu.dsp().output_len(), 2);
}

#[test]
fn drain_output_moves_the_oldest_samples() {
    let mut apu = reset();
    apu.cpu_cycles_callback(64 * 3);
    let mut buffer = [(-1i16, -1i16); 2];
    apu.drain_output(&mut buffer);
    assert_eq!(buffer, [(0, 0), (1, 1)]);
    assert_eq!(apu.dsp().output_len(), 1);
}

#[test]
fn ramp_wraps_at_the_top_of_the_range() {
    let mut apu = reset();
    let mut smp = SleepingSmp::new();
    let mut buffer = vec![(0i16, 0i16); 0x8001];
    apu.render(&mut smp, &mut buffer);
    assert_eq!(buffer[0x7fff], (i16::MAX, i16::MAX));
    assert_eq!(buffer[0x8000], (i16::MIN, i16::MIN));
}

fn set_echo_region(apu: &mut Apu<RampDsp>, start_page: u8, delay: u8) {
    apu.write_u8(0x00f2, 0x6d);
    apu.write_u8(0x00f3, start_page);
    apu.write_u8(0x00f2, 0x7d);
    apu.write_u8(0x00f3, delay);
}

#[test]
fn clear_echo_buffer_fills_the_region() {
    let mut apu = reset();
    set_echo_region(&mut apu, 0x10, 0x01);
    assert_eq!(apu.dsp().get_echo_start_address(), 0x1000);
    assert_eq!(apu.dsp().calculate_echo_length(), 0x800);
    apu.clear_echo_buffer();
    assert_eq!(apu.read_u8(0x0fff), 0x00);
    assert_eq!(apu.read_u8(0x1000), 0xff);
    assert_eq!(apu.read_u8(0x1400), 0xff);
    assert_eq!(apu.read_u8(0x17ff), 0xff);
    assert_eq!(apu.read_u8(0x1800), 0x00);
}

#[test]
fn clear_echo_buffer_stops_at_the_end_of_ram() {
    let mut apu = reset();
    set_echo_region(&mut apu, 0xff, 0x0f);
    assert_eq!(apu.dsp().get_echo_start_address(), 0xff00);
    assert_eq!(apu.dsp().calculate_echo_length(), 0x7800);
    apu.clear_echo_buffer();
    assert_eq!(apu.read_u8(0x0000), 0x00);
    assert_eq!(apu.read_u8(0xfeff), 0x00);
    assert_eq!(apu.read_u8(0xff00), 0xff);
    assert_eq!(apu.read_u8(0xffbf), 0xff);
    assert_eq!(apu.read_u8(0xffc0), 0xcd);
    apu.write_u8(0x00f1, 0x00);
    assert_eq!(apu.read_u8(0xffc0), 0xff);
    assert_eq!(apu.read_u8(0xfffe), 0xff);
}

#[test]
fn clear_echo_buffer_of_no_length_changes_nothing() {
    let mut apu = reset();
    apu.write_u8(0x2000, 0x11);
    set_echo_region(&mut apu, 0x20, 0x00);
    apu.clear_echo_buffer();
    assert_eq!(apu.read_u8(0x2000), 0x11);
    assert_eq!(apu.read_u8(0x2001), 0x00);
}

#[test]
fn clear_echo_buffer_overwrites_the_register_page_in_ram_only() {
    let mut apu = reset();
    apu.write_u8(0x00f2, 0x33);
    set_echo_region(&mut apu, 0x00, 0x01);
    apu.clear_echo_buffer();
    assert_eq!(apu.read_u8(0x00ef), 0xff);
    assert_eq!(apu.read_u8(0x00f4), 0xff);
    assert_eq!(apu.read_u8(0x00f1), 0);
    assert_eq!(apu.read_u8(0x00f2), 0x7d);
    assert_eq!(apu.read_u8(0x00fa), 0);
    assert_eq!(apu.read_u8(0x00fd), 0);
}
