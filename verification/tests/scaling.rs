use mcp3008::types::{clock_rate_hz, resolve_v_ref, Channel, Params, Vdd, Volt, Vref};
use mcp3008::worker::{command_frame, conversion_event, decode_sample, scale_sample};
use mcp3008::types::Event;

#[test]
fn clock_rate_follows_rail() {
    assert_eq!(clock_rate_hz(Vdd::Positive3v3), 1_350_000);
    assert_eq!(clock_rate_hz(Vdd::Positive5v), 3_600_000);
}

#[test]
fn default_reference_follows_rail() {
    let low = Params { voltage_drain: Vdd::Positive3v3, voltage_ref: Vref::EqualToVdd };
    assert_eq!(resolve_v_ref(&low), Volt { microvolts: 3_300_000 });
    let high = Params { voltage_drain: Vdd::Positive5v, voltage_ref: Vref::EqualToVdd };
    assert_eq!(resolve_v_ref(&high), Volt { microvolts: 5_000_000 });
}

#[test]
fn explicit_reference_wins() {
    let voltage = Volt { microvolts: 1_234_567 };
    let low = Params {
        voltage_drain: Vdd::Positive3v3,
        voltage_ref: Vref::Other { voltage },
    };
    assert_eq!(resolve_v_ref(&low), voltage);
    let high = Params {
        voltage_drain: Vdd::Positive5v,
        voltage_ref: Vref::Other { voltage },
    };
    assert_eq!(resolve_v_ref(&high), voltage);
}

#[test]
fn command_frames_are_bit_exact() {
    let vectors: [(Channel, u8); 8] = [
        (Channel::Ch0, 0b1000_0000),
        (Channel::Ch1, 0b1001_0000),
        (Channel::Ch2, 0b1010_0000),
        (Channel::Ch3, 0b1011_0000),
        (Channel::Ch4, 0b1100_0000),
        (Channel::Ch5, 0b1101_0000),
        (Channel::Ch6, 0b1110_0000),
        (Channel::Ch7, 0b1111_0000),
    ];
    for (channel, byte1) in vectors {
        assert_eq!(command_frame(channel), [0b0000_0001, byte1, 0b0000_0000]);
    }
}

#[test]
fn decode_concatenates_ten_bits() {
    assert_eq!(decode_sample(&[0x00, 0x00, 0x00]), 0);
    assert_eq!(decode_sample(&[0x00, 0x03, 0xff]), 1023);
    assert_eq!(decode_sample(&[0x00, 0x01, 0x00]), 256);
    assert_eq!(decode_sample(&[0x00, 0x02, 0x01]), 513);
    // Only the low two bits of the second byte count.
    assert_eq!(decode_sample(&[0xff, 0xfc, 0x00]), 0);
    assert_eq!(decode_sample(&[0xab, 0xf7, 0x10]), 3 * 256 + 16);
}

#[test]
fn scale_zero_code_is_zero_volts() {
    let v_ref = Volt { microvolts: 3_300_000 };
    assert_eq!(scale_sample(0, v_ref), Volt { microvolts: 0 });
}

#[test]
fn scale_full_code_reaches_top_step() {
    let v_ref = Volt { microvolts: 3_300_000 };
    let top = scale_sample(1023, v_ref);
    // 1023 * 3_300_000 / 1024, rounded down: one 1024th short of the
    // reference, never above it.
    assert_eq!(top, Volt { microvolts: 3_296_777 });
    assert!(top.microvolts <= v_ref.microvolts);
    assert!(v_ref.microvolts - top.microvolts <= v_ref.microvolts / 1024 + 1);
}

#[test]
fn scale_midpoint_is_exact() {
    let v_ref = Volt { microvolts: 5_000_000 };
    assert_eq!(scale_sample(512, v_ref), Volt { microvolts: 2_500_000 });
}

#[test]
fn scale_is_monotonic_over_the_code_space() {
    let v_ref = Volt { microvolts: 3_300_000 };
    let mut previous: u64 = 0;
    let mut sample: u16 = 0;
    while sample < 1024 {
        let scaled = scale_sample(sample, v_ref).microvolts;
        assert!(previous <= scaled);
        previous = scaled;
        sample += 1;
    }
}

#[test]
fn conversion_event_reports_the_requested_channel() {
    let v_ref = Volt { microvolts: 2_048_000 };
    let event = conversion_event(Channel::Ch5, &[0x00, 0x03, 0xff], v_ref);
    match event {
        Event::ChannelRead { channel, value } => {
            assert_eq!(channel, Channel::Ch5);
            // 1023 * 2_048_000 / 1024 == 1023 * 2000.
            assert_eq!(value, Volt { microvolts: 2_046_000 });
        }
        _ => panic!("a conversion must yield a channel reading"),
    }
}
