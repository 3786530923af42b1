use chudtendo::emulator::apu::{
    duty_high, noise_divisor, tick_envelope, tick_length, ApuThread, NoiseChannel, PulseChannel,
    WaveChannel, CPU_CLOCK, SAMPLE_RATE,
};
use chudtendo::emulator::component::{HardwareMode, MasterClock, ReadResult, SharedApuState};

fn test_apu() -> ApuThread {
    ApuThread::new(MasterClock::new(), SharedApuState::new())
}

fn read(apu: &ApuThread, address: u16) -> u8 {
    match apu.read_register(address) {
        ReadResult::Ready(value) => value,
        ReadResult::NoData => panic!("no data at {:#06x}", address),
    }
}

#[test]
fn powered_off_apu_reads_nr52_as_unused_bits_only() {
    let apu = test_apu();
    assert_eq!(read(&apu, 0xff26), 0x70);
}

#[test]
fn powering_on_sets_nr52_bit7() {
    let mut apu = test_apu();
    apu.write_register(0xff26, 0x80);
    assert!(apu.master_enable);
    assert_eq!(read(&apu, 0xff26), 0xf0);
}

#[test]
fn register_reads_or_in_the_write_only_bits() {
    let mut apu = test_apu();
    apu.write_register(0xff26, 0x80);
    apu.write_register(0xff11, 0x80);
    assert_eq!(read(&apu, 0xff11), 0xbf);
    apu.write_register(0xff10, 0x00);
    assert_eq!(read(&apu, 0xff10), 0x80);
    assert_eq!(read(&apu, 0xff15), 0xff);
    assert_eq!(read(&apu, 0xff27), 0xff);
}

#[test]
fn non_apu_addresses_give_no_data() {
    let apu = test_apu();
    assert_eq!(apu.read_register(0xff40), ReadResult::NoData);
}

#[test]
fn cgb_ignores_register_writes_while_powered_off() {
    let mut apu = test_apu();
    apu.write_register(0xff12, 0xf0);
    assert_eq!(read(&apu, 0xff12), 0x00);
    apu.write_register(0xff11, 0x3f);
    assert_eq!(apu.channel1.length_timer, 0);
}

#[test]
fn dmg_loads_length_counters_while_powered_off() {
    let mut apu = test_apu();
    apu.hardware_mode = HardwareMode::DmgCompatibility;
    apu.write_register(0xff11, 0x3f);
    assert_eq!(apu.channel1.length_timer, 1);
    apu.write_register(0xff1b, 0x10);
    assert_eq!(apu.channel3.length_timer, 0xf0);
    assert_eq!(read(&apu, 0xff11), 0x3f);
}

#[test]
fn trigger_with_dac_on_enables_channel1() {
    let mut apu = test_apu();
    apu.write_register(0xff26, 0x80);
    apu.write_register(0xff12, 0xf0);
    apu.write_register(0xff13, 0x00);
    apu.write_register(0xff14, 0x87);
    assert!(apu.channel1.enabled);
    assert_eq!(apu.channel1.volume, 15);
    assert_eq!(apu.channel1.length_timer, 64);
    assert_eq!(apu.channel1.period, 0x700);
    assert_eq!(apu.channel1.period_timer, (2048 - 0x700) * 4);
    assert_eq!(read(&apu, 0xff26), 0xf1);
}

#[test]
fn trigger_with_dac_off_leaves_channel2_off() {
    let mut apu = test_apu();
    apu.write_register(0xff26, 0x80);
    apu.write_register(0xff17, 0x00);
    apu.write_register(0xff19, 0x80);
    assert!(!apu.channel2.enabled);
    assert_eq!(read(&apu, 0xff26), 0xf0);
}

#[test]
fn turning_the_dac_off_stops_a_playing_channel() {
    let mut apu = test_apu();
    apu.write_register(0xff26, 0x80);
    apu.write_register(0xff12, 0xf0);
    apu.write_register(0xff14, 0x80);
    assert!(apu.channel1.enabled);
    apu.write_register(0xff12, 0x00);
    assert!(!apu.channel1.enabled);
}

#[test]
fn noise_trigger_resets_the_shift_register() {
    let mut apu = test_apu();
    apu.write_register(0xff26, 0x80);
    apu.write_register(0xff21, 0xf0);
    apu.write_register(0xff22, 0x21);
    apu.channel4.lfsr = 0x1234;
    apu.write_register(0xff23, 0x80);
    assert!(apu.channel4.enabled);
    assert_eq!(apu.channel4.lfsr, 0x7fff);
    assert_eq!(apu.channel4.period_timer, 16 << 2);
}

#[test]
fn wave_trigger_restarts_at_sample_zero() {
    let mut apu = test_apu();
    apu.write_register(0xff26, 0x80);
    apu.write_register(0xff1a, 0x80);
    apu.write_register(0xff1d, 0x00);
    apu.write_register(0xff1e, 0x87);
    assert!(apu.channel3.enabled);
    assert_eq!(apu.channel3.sample_index, 0);
    assert_eq!(apu.channel3.length_timer, 256);
    assert_eq!(apu.channel3.period_timer, (2048 - 0x700) * 2 + 6);
}

#[test]
fn powering_off_clears_registers_but_keeps_wave_ram() {
    let mut apu = test_apu();
    apu.write_register(0xff26, 0x80);
    apu.write_register(0xff30, 0x5a);
    apu.write_register(0xff24, 0x77);
    apu.write_register(0xff12, 0xf0);
    apu.write_register(0xff14, 0x80);
    apu.write_register(0xff26, 0x00);
    assert!(!apu.master_enable);
    assert_eq!(apu.nr50, 0);
    assert_eq!(read(&apu, 0xff24), 0x00);
    assert_eq!(read(&apu, 0xff12), 0x00);
    assert_eq!(read(&apu, 0xff26), 0x70);
    assert_eq!(read(&apu, 0xff30), 0x5a);
    assert!(!apu.channel1.enabled);
}

#[test]
fn wave_ram_reads_back_what_was_written_while_channel3_is_off() {
    let mut apu = test_apu();
    apu.write_register(0xff30, 0xab);
    apu.write_register(0xff3f, 0xcd);
    assert_eq!(read(&apu, 0xff30), 0xab);
    assert_eq!(read(&apu, 0xff3f), 0xcd);
}

#[test]
fn duty_patterns_match_the_four_waveforms() {
    let expected = [
        [false, false, false, false, false, false, false, true],
        [true, false, false, false, false, false, false, true],
        [true, false, false, false, false, true, true, true],
        [false, true, true, true, true, true, true, false],
    ];
    for duty in 0..4u8 {
        for position in 0..8u8 {
            assert_eq!(duty_high(duty, position), expected[duty as usize][position as usize]);
        }
    }
}

#[test]
fn noise_divisor_and_period() {
    assert_eq!(noise_divisor(0), 8);
    assert_eq!(noise_divisor(3), 48);
    let mut noise = NoiseChannel::new();
    assert_eq!(noise.noise_period(), 8);
    noise.divisor_code = 3;
    noise.clock_shift = 2;
    assert_eq!(noise.noise_period(), 192);
    noise.clock_shift = 16;
    assert_eq!(noise.noise_period(), 0);
}

#[test]
fn noise_lfsr_steps_on_expiry() {
    let mut noise = NoiseChannel::new();
    noise.period_timer = 1;
    noise.lfsr = 0x7fff;
    noise.tick_period();
    assert_eq!(noise.lfsr, 0x3fff);
    assert_eq!(noise.period_timer, 8);
    noise.width_mode = true;
    noise.period_timer = 1;
    noise.lfsr = 0x0001;
    noise.tick_period();
    assert_eq!(noise.lfsr, 0x4040);
}

#[test]
fn pulse_period_timer_steps_the_duty_position() {
    let mut pulse = PulseChannel::new();
    pulse.period = 2047;
    pulse.period_timer = 1;
    pulse.tick_period();
    assert_eq!(pulse.duty_position, 1);
    assert_eq!(pulse.period_timer, 4);
    pulse.period_timer = 3;
    pulse.tick_period();
    assert_eq!(pulse.duty_position, 1);
    assert_eq!(pulse.period_timer, 2);
}

#[test]
fn wave_channel_reads_high_nibble_then_low_nibble() {
    let mut wave = WaveChannel::new();
    let mut ram = [0u8; 16];
    ram[0] = 0x12;
    ram[1] = 0x34;
    wave.period = 2047;
    wave.sample_index = 1;
    wave.period_timer = 1;
    wave.tick_period(&ram);
    assert_eq!(wave.sample_index, 2);
    assert_eq!(wave.sample_buffer, 0x3);
    assert!(wave.just_accessed_ram);
    wave.period_timer = 1;
    wave.tick_period(&ram);
    assert_eq!(wave.sample_index, 3);
    assert_eq!(wave.sample_buffer, 0x4);
    assert_eq!(wave.period_timer, 2);
}

#[test]
fn dac_input_follows_output_level() {
    let mut wave = WaveChannel::new();
    wave.enabled = true;
    wave.dac_enabled = true;
    wave.sample_buffer = 0xc;
    wave.output_level = 0;
    assert_eq!(wave.dac_input(), Some(0));
    wave.output_level = 1;
    assert_eq!(wave.dac_input(), Some(0xc));
    wave.output_level = 2;
    assert_eq!(wave.dac_input(), Some(0x6));
    wave.output_level = 3;
    assert_eq!(wave.dac_input(), Some(0x3));
    wave.dac_enabled = false;
    assert_eq!(wave.dac_input(), None);
}

#[test]
fn length_counter_stops_the_channel_at_zero() {
    let mut length = 2u16;
    let mut enabled = true;
    tick_length(&mut length, true, &mut enabled);
    assert_eq!(length, 1);
    assert!(enabled);
    tick_length(&mut length, true, &mut enabled);
    assert_eq!(length, 0);
    assert!(!enabled);
    tick_length(&mut length, true, &mut enabled);
    assert_eq!(length, 0);

    let mut untouched = 5u16;
    let mut on = true;
    tick_length(&mut untouched, false, &mut on);
    assert_eq!(untouched, 5);
    assert!(on);
}

#[test]
fn envelope_steps_volume_and_saturates() {
    let mut volume = 14u8;
    let mut timer = 1u8;
    tick_envelope(&mut volume, true, 3, &mut timer);
    assert_eq!(volume, 15);
    assert_eq!(timer, 3);
    timer = 1;
    tick_envelope(&mut volume, true, 3, &mut timer);
    assert_eq!(volume, 15);
    tick_envelope(&mut volume, false, 3, &mut timer);
    assert_eq!(volume, 15);
    assert_eq!(timer, 2);

    let mut quiet = 0u8;
    let mut t = 1u8;
    tick_envelope(&mut quiet, false, 2, &mut t);
    assert_eq!(quiet, 0);
    let mut frozen = 7u8;
    let mut ft = 1u8;
    tick_envelope(&mut frozen, true, 0, &mut ft);
    assert_eq!(frozen, 7);
    assert_eq!(ft, 1);
}

#[test]
fn powered_off_apu_only_advances_its_clock() {
    let mut apu = test_apu();
    let samples = apu.chase_to(1000);
    assert!(samples.is_empty());
    assert_eq!(apu.cycles, 1000);
    assert_eq!(apu.samples_emitted, 0);
}

#[test]
fn samples_come_out_at_the_sample_rate() {
    let mut apu = test_apu();
    apu.write_register(0xff26, 0x80);
    let cycles = CPU_CLOCK as u64 / 10;
    let samples = apu.chase_to(cycles);
    let expected = cycles * SAMPLE_RATE as u64 / CPU_CLOCK as u64;
    assert_eq!(samples.len() as u64, expected);
    assert_eq!(apu.samples_emitted, expected);
    assert_eq!(apu.cycles, cycles);
}

#[test]
fn save_state_round_trips_into_a_fresh_apu() {
    let mut apu = test_apu();
    apu.write_register(0xff26, 0x80);
    apu.write_register(0xff24, 0x77);
    apu.write_register(0xff25, 0xf3);
    apu.write_register(0xff30, 0x9c);
    apu.write_register(0xff12, 0xa3);
    apu.write_register(0xff13, 0x42);
    apu.write_register(0xff14, 0x85);
    apu.chase_to(12_345);
    let state = apu.create_save_state();

    let mut other = test_apu();
    other.apply_save_state(state);
    assert_eq!(other.master_enable, apu.master_enable);
    assert_eq!(other.nr50, 0x77);
    assert_eq!(other.nr51, 0xf3);
    assert_eq!(other.registers, apu.registers);
    assert_eq!(other.wave_ram, apu.wave_ram);
    assert_eq!(other.channel1, apu.channel1);
    assert_eq!(other.channel3, apu.channel3);
    assert_eq!(other.channel4, apu.channel4);
    assert_eq!(other.cycles, 12_345);
    assert_eq!(other.samples_emitted, apu.samples_emitted);
    assert_eq!(other.shared.registers, apu.registers);
    for address in 0xff10..=0xff3fu16 {
        assert_eq!(other.read_register(address), apu.read_register(address));
    }
}
