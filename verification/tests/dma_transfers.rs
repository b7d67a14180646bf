//! The DMA transfer protocol, driven end to end against the UART endpoint
//! and the registry.

use imxrt_hal::adc::DmaSource;
use imxrt_hal::dma::channel::ChannelConfiguration;
use imxrt_hal::dma::peripheral;
use imxrt_hal::dma::peripheral::{ConfigurationError, Poll};
use imxrt_hal::dma::registry::ChannelRegistry;
use imxrt_hal::dma::CHANNEL_COUNT;
use imxrt_hal::lpuart::Lpuart;

#[test]
fn registry_hands_out_each_channel_exactly_once() {
    let mut registry = ChannelRegistry::new(CHANNEL_COUNT);
    assert_eq!(registry.channel_count(), 32);

    let first = registry.take_channel(7).expect("first take succeeds");
    assert_eq!(first.index(), 7);

    // Taking the same index twice without an intervening release fails.
    assert!(registry.take_channel(7).is_none());

    // Other lanes are unaffected, and out-of-range probes fail quietly.
    assert!(registry.take_channel(8).is_some());
    assert!(registry.take_channel(CHANNEL_COUNT).is_none());
}

#[test]
fn registry_channels_start_reset() {
    let mut registry = ChannelRegistry::new(4);
    let channel = registry.take_channel(3).unwrap();
    assert_eq!(channel.index(), 3);
    assert!(!channel.is_enabled());
    assert!(!channel.is_complete());
    assert!(!channel.is_hardware_signaling());
    assert!(!channel.has_error());
    assert_eq!(channel.minor_loops_retired(), 0);
    assert_eq!(channel.minor_loop_bytes(), 0);
    assert_eq!(channel.transfer_iterations(), 0);
    assert_eq!(channel.channel_configuration(), ChannelConfiguration::Off);
}

#[test]
fn channel_configuration_reads_back() {
    let mut registry = ChannelRegistry::new(1);
    let mut channel = registry.take_channel(0).unwrap();

    channel.set_channel_configuration(ChannelConfiguration::Enable { signal: 41 });
    channel.set_minor_loop_bytes(4);
    channel.set_transfer_iterations(9);
    channel.set_disable_on_completion(true);
    channel.set_interrupt_on_completion(true);

    assert_eq!(
        channel.channel_configuration(),
        ChannelConfiguration::Enable { signal: 41 }
    );
    assert_eq!(channel.minor_loop_bytes(), 4);
    assert_eq!(channel.transfer_iterations(), 9);

    channel.reset();
    assert_eq!(channel.channel_configuration(), ChannelConfiguration::Off);
    assert_eq!(channel.minor_loop_bytes(), 0);
    assert_eq!(channel.transfer_iterations(), 0);
}

#[test]
fn write_transfer_completes_after_every_service_request() {
    let mut registry = ChannelRegistry::new(CHANNEL_COUNT);
    let mut channel = registry.take_channel(0).unwrap();
    channel.set_minor_loop_bytes(1);

    let mut uart = Lpuart::new(2);
    let data: Vec<u8> = vec![0xA0, 0xA1, 0xA2, 0xA3];
    let mut task = uart.dma_write(channel, data).expect("configuration is valid");

    // Nothing is armed until the first poll.
    assert!(!uart.is_dma_transmit_enabled());
    assert!(matches!(task.poll(&mut uart), Poll::Pending));
    assert!(uart.is_dma_transmit_enabled());

    // One minor loop retires per service request; completion is reported
    // only after all four have retired.
    for expected in 0..4u16 {
        assert_eq!(task.minor_loops_retired(), expected);
        assert!(matches!(task.poll(&mut uart), Poll::Pending));
        task.service(&mut uart);
    }
    assert_eq!(task.minor_loops_retired(), 4);
    assert!(matches!(task.poll(&mut uart), Poll::Complete));

    let (channel, buffer) = task.release();
    assert_eq!(uart.transmitted_data(), &vec![0xA0, 0xA1, 0xA2, 0xA3]);
    assert_eq!(buffer, vec![0xA0, 0xA1, 0xA2, 0xA3]);
    assert!(!channel.is_enabled());
    assert!(!channel.is_complete());
    assert_eq!(channel.minor_loops_retired(), 4);
}

#[test]
fn polling_a_completed_transfer_again_has_no_side_effects() {
    let mut registry = ChannelRegistry::new(CHANNEL_COUNT);
    let mut channel = registry.take_channel(1).unwrap();
    channel.set_minor_loop_bytes(1);

    let mut uart = Lpuart::new(1);
    let mut task = uart.dma_write(channel, vec![1, 2]).unwrap();
    assert!(matches!(task.poll(&mut uart), Poll::Pending));
    task.service(&mut uart);
    task.service(&mut uart);

    // First observation clears the sticky flag and disables the request.
    assert!(matches!(task.poll(&mut uart), Poll::Complete));
    assert!(!uart.is_dma_transmit_enabled());

    // A second poll reports completion again without re-disabling the
    // request line or touching the log.
    assert!(matches!(task.poll(&mut uart), Poll::Complete));
    assert!(!uart.is_dma_transmit_enabled());
    assert_eq!(uart.transmitted_data(), &vec![1, 2]);
    assert_eq!(task.minor_loops_retired(), 2);
}

#[test]
fn abandoning_after_arming_disables_channel_and_request() {
    let mut registry = ChannelRegistry::new(CHANNEL_COUNT);
    let mut channel = registry.take_channel(2).unwrap();
    channel.set_minor_loop_bytes(1);

    let mut uart = Lpuart::new(3);
    let mut task = uart.dma_write(channel, vec![9, 8, 7]).unwrap();
    assert!(matches!(task.poll(&mut uart), Poll::Pending));
    assert!(uart.is_dma_transmit_enabled());

    let (channel, buffer) = task.cancel(&mut uart);
    assert!(!channel.is_enabled());
    assert!(!channel.is_hardware_signaling());
    assert!(!uart.is_dma_transmit_enabled());
    assert_eq!(buffer, vec![9, 8, 7]);
    assert!(uart.transmitted_data().is_empty());
}

#[test]
fn abandoning_mid_transfer_disables_channel_and_request() {
    let mut registry = ChannelRegistry::new(CHANNEL_COUNT);
    let mut channel = registry.take_channel(3).unwrap();
    channel.set_minor_loop_bytes(1);

    let mut uart = Lpuart::new(4);
    let mut task = uart.dma_write(channel, vec![5, 6, 7, 8]).unwrap();
    assert!(matches!(task.poll(&mut uart), Poll::Pending));
    task.service(&mut uart);
    task.service(&mut uart);

    let (channel, buffer) = task.cancel(&mut uart);
    assert!(!channel.is_enabled());
    assert!(!channel.is_hardware_signaling());
    assert!(!uart.is_dma_transmit_enabled());
    assert_eq!(channel.minor_loops_retired(), 2);
    assert_eq!(uart.transmitted_data(), &vec![5, 6]);
    assert_eq!(buffer, vec![5, 6, 7, 8]);
}

#[test]
fn abandoning_right_before_completion_disables_channel_and_request() {
    let mut registry = ChannelRegistry::new(CHANNEL_COUNT);
    let mut channel = registry.take_channel(4).unwrap();
    channel.set_minor_loop_bytes(1);

    let mut uart = Lpuart::new(5);
    let mut task = uart.dma_write(channel, vec![1, 2, 3]).unwrap();
    assert!(matches!(task.poll(&mut uart), Poll::Pending));
    task.service(&mut uart);
    task.service(&mut uart);
    task.service(&mut uart);

    // The hardware finished, but completion was never observed: the guard
    // still leaves everything disabled.
    let (channel, _buffer) = task.cancel(&mut uart);
    assert!(!channel.is_enabled());
    assert!(!channel.is_hardware_signaling());
    assert!(!uart.is_dma_transmit_enabled());
}

#[test]
fn abandoning_before_arming_leaves_request_disabled() {
    let mut registry = ChannelRegistry::new(CHANNEL_COUNT);
    let mut channel = registry.take_channel(5).unwrap();
    channel.set_minor_loop_bytes(1);

    let mut uart = Lpuart::new(6);
    let task = uart.dma_write(channel, vec![1]).unwrap();
    let (channel, buffer) = task.cancel(&mut uart);
    assert!(!channel.is_enabled());
    assert!(!uart.is_dma_transmit_enabled());
    assert_eq!(buffer, vec![1]);
}

#[test]
fn empty_buffer_is_rejected_before_arming() {
    let mut registry = ChannelRegistry::new(CHANNEL_COUNT);
    let mut channel = registry.take_channel(6).unwrap();
    channel.set_minor_loop_bytes(1);

    let mut uart = Lpuart::new(7);
    let (error, channel, buffer) = uart
        .dma_write(channel, Vec::new())
        .err()
        .expect("an empty buffer is a configuration error");
    assert_eq!(error, ConfigurationError::EmptyBuffer);
    assert!(buffer.is_empty());
    // No hardware state was touched.
    assert!(!channel.is_enabled());
    assert!(!uart.is_dma_transmit_enabled());
    assert_eq!(channel.channel_configuration(), ChannelConfiguration::Off);

    let (error, _channel, _buffer) = uart.dma_read(channel, Vec::new()).err().unwrap();
    assert_eq!(error, ConfigurationError::EmptyBuffer);
    assert!(!uart.is_dma_receive_enabled());
}

#[test]
fn element_width_mismatch_is_rejected_before_arming() {
    let mut registry = ChannelRegistry::new(CHANNEL_COUNT);
    let mut channel = registry.take_channel(9).unwrap();
    // A four-byte minor loop cannot carry the UART's one-byte elements.
    channel.set_minor_loop_bytes(4);

    let mut uart = Lpuart::new(8);
    let (error, channel, buffer) = uart.dma_write(channel, vec![1, 2, 3]).err().unwrap();
    assert_eq!(error, ConfigurationError::ElementWidthMismatch);
    assert_eq!(buffer, vec![1, 2, 3]);
    assert!(!channel.is_enabled());
    assert!(!uart.is_dma_transmit_enabled());
    assert_eq!(channel.channel_configuration(), ChannelConfiguration::Off);

    let (error, _channel, _buffer) = uart.dma_read(channel, vec![0, 0]).err().unwrap();
    assert_eq!(error, ConfigurationError::ElementWidthMismatch);
    assert!(!uart.is_dma_receive_enabled());
}

#[test]
fn read_transfer_fills_the_buffer_from_the_wire() {
    let mut registry = ChannelRegistry::new(CHANNEL_COUNT);
    let mut channel = registry.take_channel(10).unwrap();
    channel.set_minor_loop_bytes(1);

    let mut uart = Lpuart::new(1);
    for byte in [0x11, 0x22, 0x33] {
        uart.stage_receive_data(byte);
    }

    let mut task = uart.dma_read(channel, vec![0, 0, 0]).unwrap();
    assert!(!uart.is_dma_receive_enabled());
    assert!(matches!(task.poll(&mut uart), Poll::Pending));
    assert!(uart.is_dma_receive_enabled());

    task.service(&mut uart);
    task.service(&mut uart);
    assert!(matches!(task.poll(&mut uart), Poll::Pending));
    task.service(&mut uart);
    assert!(matches!(task.poll(&mut uart), Poll::Complete));
    assert!(!uart.is_dma_receive_enabled());

    let (channel, buffer) = task.release();
    assert_eq!(buffer, vec![0x11, 0x22, 0x33]);
    assert!(!channel.is_enabled());
}

#[test]
fn abandoned_read_keeps_received_prefix() {
    let mut registry = ChannelRegistry::new(CHANNEL_COUNT);
    let mut channel = registry.take_channel(11).unwrap();
    channel.set_minor_loop_bytes(1);

    let mut uart = Lpuart::new(1);
    uart.stage_receive_data(0xEE);
    uart.stage_receive_data(0xFF);

    let mut task = uart.dma_read(channel, vec![0, 0, 0, 0]).unwrap();
    assert!(matches!(task.poll(&mut uart), Poll::Pending));
    task.service(&mut uart);
    task.service(&mut uart);

    let (channel, buffer) = task.cancel(&mut uart);
    assert_eq!(buffer, vec![0xEE, 0xFF, 0, 0]);
    assert!(!channel.is_enabled());
    assert!(!uart.is_dma_receive_enabled());
}

#[test]
fn channel_reuse_reprograms_in_place() {
    let mut registry = ChannelRegistry::new(CHANNEL_COUNT);
    let mut channel = registry.take_channel(12).unwrap();
    channel.set_minor_loop_bytes(1);

    let mut uart = Lpuart::new(2);
    let mut task = uart.dma_write(channel, vec![1]).unwrap();
    assert!(matches!(task.poll(&mut uart), Poll::Pending));
    task.service(&mut uart);
    assert!(matches!(task.poll(&mut uart), Poll::Complete));
    let (channel, _buffer) = task.release();

    // The same lane carries a second transfer without going back to the
    // registry.
    let mut task = uart.dma_write(channel, vec![2, 3]).unwrap();
    assert!(matches!(task.poll(&mut uart), Poll::Pending));
    task.service(&mut uart);
    task.service(&mut uart);
    assert!(matches!(task.poll(&mut uart), Poll::Complete));
    let (_channel, _buffer) = task.release();

    assert_eq!(uart.transmitted_data(), &vec![1, 2, 3]);
}

#[test]
fn completion_asserts_the_interrupt_when_requested() {
    let mut registry = ChannelRegistry::new(CHANNEL_COUNT);
    let mut channel = registry.take_channel(20).unwrap();

    // Drive the lane directly, as an interrupt-driven caller would.
    channel.set_channel_configuration(ChannelConfiguration::Enable { signal: 2 });
    channel.set_minor_loop_bytes(1);
    channel.set_transfer_iterations(2);
    channel.set_interrupt_on_completion(true);
    channel.enable();
    assert!(!channel.is_interrupt_asserted());

    channel.retire_minor_loop();
    assert!(channel.is_hardware_signaling());
    assert!(!channel.is_interrupt_asserted());
    channel.retire_minor_loop();

    // The sticky flag raises the interrupt; clearing the flag retires it.
    assert!(channel.is_complete());
    assert!(channel.is_interrupt_asserted());
    assert!(!channel.is_hardware_signaling());
    channel.clear_complete();
    assert!(!channel.is_interrupt_asserted());
    assert!(!channel.is_complete());
}

#[test]
fn error_flag_reads_and_clears() {
    let mut registry = ChannelRegistry::new(CHANNEL_COUNT);
    let mut channel = registry.take_channel(21).unwrap();
    assert!(!channel.has_error());
    channel.clear_error();
    assert!(!channel.has_error());
}

#[test]
fn adc_conversions_stream_through_a_half_word_read() {
    let mut registry = ChannelRegistry::new(CHANNEL_COUNT);
    let mut channel = registry.take_channel(22).unwrap();
    // Half-word elements: two bytes per service request.
    channel.set_minor_loop_bytes(2);

    let mut adc = DmaSource::new(1);
    assert_eq!(adc.r0(), 0x400C_4024);
    adc.stage_conversion(1001);
    adc.stage_conversion(1002);
    adc.stage_conversion(1003);

    let mut task = peripheral::read(channel, &adc, vec![0u16, 0, 0]).ok().unwrap();
    assert!(matches!(task.poll(&mut adc), Poll::Pending));
    assert!(adc.is_dma_enabled());
    task.service(&mut adc);
    task.service(&mut adc);
    task.service(&mut adc);
    assert!(matches!(task.poll(&mut adc), Poll::Complete));
    assert!(!adc.is_dma_enabled());

    let (_channel, buffer) = task.release();
    assert_eq!(buffer, vec![1001, 1002, 1003]);
}
