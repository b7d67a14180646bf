//! PWM selectors, analog clock control, and the synchronous audio
//! interface.

use imxrt_hal::analog::pll4;
use imxrt_hal::dma::peripheral::{Destination, Source};
use imxrt_hal::analog::{pll2, pll3, CcmAnalog};
use imxrt_hal::flexpwm::{
    turn_off, turn_on, Channel, ClockSelect, LoadMode, Mask, PairOperation, Prescaler, ValueRegister,
    SM,
};
use imxrt_hal::lpuart::Lpuart;
use imxrt_hal::sai::{
    Sai, SaiByteOrder, SaiClockPolarity, SaiConfig, SaiError, SaiFrameSyncMode, SaiMasterSlave,
    SaiRegisterBlock, TakeRxChannel, TakeTxChannel, TxPins,
};

fn ccm_with_everything_clear() -> CcmAnalog {
    CcmAnalog {
        usb1_enable: false,
        usb1_power: false,
        usb1_bypass: true,
        usb1_en_usb_clks: false,
        audio_div_select: 0,
        audio_enable: false,
        audio_powerdown: true,
        audio_bypass: true,
        audio_num: 0,
        audio_denom: 1,
    }
}

#[test]
fn prescaler_dividers_are_powers_of_two() {
    assert_eq!(Prescaler::Prescaler1.divider(), 1);
    assert_eq!(Prescaler::Prescaler2.divider(), 2);
    assert_eq!(Prescaler::Prescaler4.divider(), 4);
    assert_eq!(Prescaler::Prescaler8.divider(), 8);
    assert_eq!(Prescaler::Prescaler16.divider(), 16);
    assert_eq!(Prescaler::Prescaler32.divider(), 32);
    assert_eq!(Prescaler::Prescaler64.divider(), 64);
    assert_eq!(Prescaler::Prescaler128.divider(), 128);
}

#[test]
fn submodule_masks_select_single_bits() {
    assert_eq!(SM::SM0.mask().bits(), 0b0001);
    assert_eq!(SM::SM1.mask().bits(), 0b0010);
    assert_eq!(SM::SM2.mask().bits(), 0b0100);
    assert_eq!(SM::SM3.mask().bits(), 0b1000);
    assert_eq!(Mask::from(SM::SM2).bits(), 0b0100);
    assert_eq!(SM::SM0.mask().union(SM::SM3.mask()).bits(), 0b1001);
    assert_eq!(Mask::from_bits_truncate(0xFF).bits(), 0x0F);
}

#[test]
fn reload_modes_set_the_advertised_cycles() {
    assert_eq!(
        LoadMode::reload_full(),
        LoadMode::ReloadCycle { full: true, half: false }
    );
    assert_eq!(
        LoadMode::reload_half(),
        LoadMode::ReloadCycle { full: false, half: true }
    );
    assert_eq!(
        LoadMode::reload_both(),
        LoadMode::ReloadCycle { full: true, half: true }
    );
    assert_ne!(LoadMode::reload_full(), LoadMode::Immediate);
}

#[test]
fn turn_on_and_off_map_channels_to_value_registers() {
    assert_eq!(turn_on(Channel::A), ValueRegister::Val2);
    assert_eq!(turn_off(Channel::A), ValueRegister::Val3);
    assert_eq!(turn_on(Channel::B), ValueRegister::Val4);
    assert_eq!(turn_off(Channel::B), ValueRegister::Val5);
    assert_eq!(PairOperation::Independent, PairOperation::Independent);
    assert_ne!(ClockSelect::Ipg, ClockSelect::External);
}

#[test]
fn pll_frequencies_and_dividers() {
    assert_eq!(pll2::FREQUENCY, 528_000_000);
    assert_eq!(pll3::FREQUENCY, 480_000_000);
    assert_eq!(pll3::MIN_FRAC, 12);
    assert_eq!(pll3::MAX_FRAC, 35);
    assert_eq!(pll4::MIN_FRAC, 12);
    assert_eq!(pll4::MAX_FRAC, 35);
}

#[test]
fn usb_pll_restart_brings_the_pll_up() {
    let mut ccm = ccm_with_everything_clear();
    pll3::restart(&mut ccm);
    assert!(ccm.usb1_enable);
    assert!(ccm.usb1_power);
    assert!(ccm.usb1_lock());
    assert!(!ccm.usb1_bypass);
    assert!(ccm.usb1_en_usb_clks);
}

#[test]
fn audio_pll_restart_programs_the_dividers() {
    let mut ccm = ccm_with_everything_clear();
    pll4::restart(&mut ccm, 30, 72, 100);
    assert_eq!(ccm.audio_div_select, 30);
    assert_eq!(ccm.audio_num, 72);
    assert_eq!(ccm.audio_denom, 100);
    assert!(ccm.audio_enable);
    assert!(!ccm.audio_powerdown);
    assert!(ccm.audio_lock());
    assert!(!ccm.audio_bypass);
    // 24MHz * 30 + 24MHz * 72 / 100
    assert_eq!(pll4::clock_rate(&ccm), 737_280_000);
}

#[test]
fn audio_pll_clock_rate_without_a_fraction() {
    let mut ccm = ccm_with_everything_clear();
    pll4::restart(&mut ccm, 28, 0, 1);
    assert_eq!(pll4::clock_rate(&ccm), 672_000_000);
}

#[test]
fn i2s_config_fills_the_advertised_fields() {
    let config = SaiConfig::i2s(16, 0b01);
    assert_eq!(config.serial_data.byte_order, SaiByteOrder::MSB);
    assert_eq!(config.serial_data.word_length, 16);
    assert_eq!(config.serial_data.frame_length, 2);
    assert_eq!(config.frame_sync.sync_width, 16);
    assert!(config.frame_sync.sync_early);
    assert_eq!(config.frame_sync.polarity, SaiClockPolarity::ActiveLow);
    assert!(!config.bit_clock.src_swap);
    assert!(!config.bit_clock.input_delay);
    assert_eq!(config.master_slave, SaiMasterSlave::Master);
    assert_eq!(config.sync_mode, SaiFrameSyncMode::Async);
    assert_eq!(config.start_channel, 0);
    assert_eq!(config.end_channel, 0);
    assert_eq!(config.channel_mask, 0b01);
    assert_eq!(config.channels, 0);
}

fn dirty_sai_registers() -> SaiRegisterBlock {
    SaiRegisterBlock {
        tx_software_reset: true,
        tcr2: 0xFFFF_FFFF,
        tcr3: 0x1234,
        tcr4: 0x5678,
        tcr5: 0x9ABC,
        tmr: 0xDEF0,
        rx_software_reset: true,
        rcr2: 0x1111,
        rcr3: 0x2222,
        rcr4: 0x3333,
        rcr5: 0x4444,
        rmr: 0x5555,
    }
}

#[test]
fn sai_init_resets_both_directions() {
    let sai: Sai<1> = Sai::init(dirty_sai_registers(), 44_100, &SaiConfig::i2s(32, 0b1));
    let _ = sai;
}

#[test]
fn sai_handles_are_taken_at_most_once() {
    let mut sai: Sai<1> = Sai::init(dirty_sai_registers(), 48_000, &SaiConfig::i2s(16, 0b1));

    let pins = TxPins { sync: (), bclk: () };
    assert!(sai.take_tx::<(), (), _>(pins).is_ok());
    let pins = TxPins { sync: (), bclk: () };
    assert_eq!(
        sai.take_tx::<(), (), _>(pins).err(),
        Some(SaiError::ChannelTaken)
    );

    assert!(sai.take_rx::<(), (), _>(()).is_ok());
    assert_eq!(sai.take_rx::<(), (), _>(()).err(), Some(SaiError::ChannelTaken));
}

#[test]
fn sai_channels_are_taken_at_most_once() {
    let mut sai: Sai<1> = Sai::init(dirty_sai_registers(), 48_000, &SaiConfig::i2s(16, 0b1));

    let tx_channel = TakeTxChannel::<(), 1, 1>::take_channel(&mut sai, ());
    assert!(tx_channel.is_ok());
    assert!(matches!(
        TakeTxChannel::<(), 1, 1>::take_channel(&mut sai, ()),
        Err(SaiError::ChannelTaken)
    ));

    let rx_channel = TakeRxChannel::<(), 1, 1>::take_channel(&mut sai, ());
    assert!(rx_channel.is_ok());
    assert!(matches!(
        TakeRxChannel::<(), 1, 1>::take_channel(&mut sai, ()),
        Err(SaiError::ChannelTaken)
    ));
}

#[test]
fn sai_fifos_move_words_in_order() {
    let mut sai: Sai<1> = Sai::init(dirty_sai_registers(), 48_000, &SaiConfig::i2s(32, 0b1));

    let mut tx = TakeTxChannel::<(), 1, 1>::take_channel(&mut sai, ()).ok().unwrap();
    assert_eq!(tx.fifo_level(), 0);
    tx.write_word(100);
    tx.write_word(200);
    assert_eq!(tx.fifo_level(), 2);
    assert_eq!(tx.shift_out(), 100);
    assert_eq!(tx.shift_out(), 200);
    assert_eq!(tx.fifo_level(), 0);

    let mut rx = TakeRxChannel::<(), 1, 1>::take_channel(&mut sai, ()).ok().unwrap();
    rx.shift_in(7);
    rx.shift_in(9);
    assert_eq!(rx.fifo_level(), 2);
    assert_eq!(rx.read_word(), 7);
    assert_eq!(rx.read_word(), 9);
}

#[test]
fn uart_register_addresses_and_signals_follow_the_instance() {
    let uart = Lpuart::new(1);
    assert_eq!(uart.data(), 0x4018_401C);
    assert_eq!(Source::source_signal(&uart), 3);
    assert_eq!(Destination::destination_signal(&uart), 2);
    let uart = Lpuart::new(8);
    assert_eq!(uart.data(), 0x401A_001C);
    assert_eq!(Source::source_signal(&uart), 73);
    assert_eq!(Destination::destination_signal(&uart), 72);
}
