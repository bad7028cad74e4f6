use st7789_display::peripherals::{Duty, Led};
use st7789_display::spi_pio::{DataFormat, SequencerConfig, Spi9Bit};

fn drain(spi: &mut Spi9Bit) -> Vec<u32> {
    let mut words = Vec::new();
    while let Some(word) = spi.poll(false) {
        words.push(word);
    }
    words
}

#[test]
fn data_word_has_the_flag_set() {
    let mut spi = Spi9Bit::new();
    spi.write_data(0x00);
    spi.write_data(0xff);
    spi.write_data(0xab);
    assert_eq!(drain(&mut spi), vec![0x8000_0000, 0xff80_0000, 0x8000_0000 | (0xab << 23)]);
}

#[test]
fn command_word_has_the_flag_clear() {
    let mut spi = Spi9Bit::new();
    spi.write_command(0x00);
    spi.write_command(0xff);
    spi.write_command(0x2c);
    assert_eq!(drain(&mut spi), vec![0, 0x7f80_0000, 0x2c << 23]);
}

#[test]
fn top_nine_bits_are_flag_and_byte() {
    for val in 0..=255u8 {
        let mut spi = Spi9Bit::new();
        spi.write_command(val);
        spi.write_data(val);
        let words = drain(&mut spi);
        assert_eq!(words[0] >> 23, val as u32);
        assert_eq!(words[1] >> 23, 0x100 | val as u32);
        assert_eq!(words[0] & 0x007f_ffff, 0);
        assert_eq!(words[1] & 0x007f_ffff, 0);
    }
}

#[test]
fn send_commands_queues_each_byte() {
    let mut spi = Spi9Bit::new();
    assert!(spi.send_commands(DataFormat::U8(vec![0x2a, 0x2b])).is_ok());
    assert_eq!(spi.pending(), 2);
    assert_eq!(drain(&mut spi), vec![0x2a << 23, 0x2b << 23]);
    assert!(spi.send_commands(DataFormat::U8(Vec::new())).is_ok());
    assert_eq!(spi.pending(), 0);
}

#[test]
fn send_data_queues_bytes_as_data() {
    let mut spi = Spi9Bit::new();
    spi.write_command(0x36);
    assert!(spi.send_data(DataFormat::U8(vec![0x60, 0x01])).is_ok());
    assert_eq!(drain(&mut spi), vec![0x36 << 23, 0x8000_0000 | (0x60 << 23), 0x8000_0000 | (1 << 23)]);
}

#[test]
fn send_data_splits_pixels_high_byte_first() {
    let mut spi = Spi9Bit::new();
    assert!(spi.send_data(DataFormat::U16BEIter(vec![0x1234, 0x00ff])).is_ok());
    assert_eq!(
        drain(&mut spi),
        vec![
            0x8000_0000 | (0x12 << 23),
            0x8000_0000 | (0x34 << 23),
            0x8000_0000,
            0x8000_0000 | (0xff << 23),
        ]
    );
}

#[test]
fn poll_holds_words_back_while_the_queue_is_full() {
    let mut spi = Spi9Bit::new();
    assert_eq!(spi.poll(false), None);
    spi.write_data(1);
    spi.write_data(2);
    assert_eq!(spi.poll(true), None);
    assert_eq!(spi.pending(), 2);
    assert_eq!(spi.poll(false), Some(0x8000_0000 | (1 << 23)));
    assert_eq!(spi.poll(true), None);
    assert_eq!(spi.poll(false), Some(0x8000_0000 | (2 << 23)));
    assert_eq!(spi.poll(false), None);
    assert_eq!(spi.pending(), 0);
}

#[test]
fn sequencer_set_up() {
    assert_eq!(
        Spi9Bit::config(),
        SequencerConfig {
            pins_are_outputs: true,
            shift_msb_first: true,
            shift_threshold: 9,
            auto_fill: false,
            tx_only: true,
            clock_divider: 1,
        }
    );
}

#[test]
fn led_toggles_back_to_its_brightness() {
    let mut led = Led::new();
    assert!(!led.is_on());
    assert_eq!(led.brightness(), 100);
    assert_eq!(led.toggle(), Duty::Percent(100));
    assert!(led.is_on());
    assert_eq!(led.toggle(), Duty::FullyOff);
    assert!(!led.is_on());
    assert_eq!(led.set_brightness(50), Duty::Percent(50));
    assert!(!led.is_on());
    assert_eq!(led.toggle(), Duty::Percent(50));
    assert_eq!(led.set_brightness(0), Duty::Percent(0));
    assert_eq!(led.toggle(), Duty::FullyOff);
    assert_eq!(led.toggle(), Duty::Percent(0));
}

#[test]
fn duty_compare_value_is_the_percentage_of_top() {
    assert_eq!(Duty::Percent(50).compare_value(65535), 32767);
    assert_eq!(Duty::Percent(100).compare_value(65535), 65535);
    assert_eq!(Duty::Percent(0).compare_value(65535), 0);
    assert_eq!(Duty::Percent(1).compare_value(99), 0);
    assert_eq!(Duty::Percent(33).compare_value(1000), 330);
    assert_eq!(Duty::FullyOff.compare_value(65535), 0);
}
