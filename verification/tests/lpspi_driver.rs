//! The SPI driver: framed transactions, the error ladder, and full-duplex
//! loopback transfers.

use imxrt_hal::dma::peripheral::{ConfigurationError, Poll};
use imxrt_hal::dma::registry::ChannelRegistry;
use imxrt_hal::dma::CHANNEL_COUNT;
use imxrt_hal::lpspi::{Lpspi, LpspiError, Transaction, MAX_FRAME_WORDS};

#[test]
fn bus_transaction_frames_words_into_bits() {
    let spi = Lpspi::new(1);
    let transaction = spi.bus_transaction(2).unwrap();
    assert_eq!(
        transaction,
        Transaction {
            frame_size: 64,
            receive_data_mask: false,
            transmit_data_mask: false,
        }
    );
    assert_eq!(spi.bus_transaction(MAX_FRAME_WORDS).unwrap().frame_size, 4096);
    assert_eq!(spi.bus_transaction(0), Err(LpspiError::NoData));
    assert_eq!(
        spi.bus_transaction(MAX_FRAME_WORDS + 1),
        Err(LpspiError::FrameSize)
    );
}

#[test]
fn spi_write_enqueues_receive_masked_transaction() {
    let mut registry = ChannelRegistry::new(CHANNEL_COUNT);
    let mut channel = registry.take_channel(0).unwrap();
    channel.set_minor_loop_bytes(4);

    let mut spi = Lpspi::new(3);
    let mut task = spi.dma_write(channel, vec![10, 20, 30]).unwrap();
    assert_eq!(
        spi.enqueued_transactions(),
        &vec![Transaction {
            frame_size: 96,
            receive_data_mask: true,
            transmit_data_mask: false,
        }]
    );

    assert!(matches!(task.poll(&mut spi), Poll::Pending));
    task.service(&mut spi);
    task.service(&mut spi);
    task.service(&mut spi);
    assert!(matches!(task.poll(&mut spi), Poll::Complete));
    assert!(!spi.is_dma_transmit_enabled());

    let (channel, buffer) = task.release();
    assert_eq!(spi.transmitted_data(), &vec![10, 20, 30]);
    assert_eq!(buffer, vec![10, 20, 30]);
    assert!(!channel.is_enabled());
}

#[test]
fn spi_read_enqueues_transmit_masked_transaction() {
    let mut registry = ChannelRegistry::new(CHANNEL_COUNT);
    let mut channel = registry.take_channel(1).unwrap();
    channel.set_minor_loop_bytes(4);

    let mut spi = Lpspi::new(2);
    spi.stage_receive_data(7);
    spi.stage_receive_data(8);

    let mut task = spi.dma_read(channel, vec![0, 0]).unwrap();
    assert_eq!(
        spi.enqueued_transactions(),
        &vec![Transaction {
            frame_size: 64,
            receive_data_mask: false,
            transmit_data_mask: true,
        }]
    );

    assert!(matches!(task.poll(&mut spi), Poll::Pending));
    task.service(&mut spi);
    task.service(&mut spi);
    assert!(matches!(task.poll(&mut spi), Poll::Complete));

    let (_channel, buffer) = task.release();
    assert_eq!(buffer, vec![7, 8]);
}

#[test]
fn spi_errors_surface_before_any_state_changes() {
    let mut registry = ChannelRegistry::new(CHANNEL_COUNT);
    let mut channel = registry.take_channel(2).unwrap();
    channel.set_minor_loop_bytes(4);

    let mut spi = Lpspi::new(1);

    // No data.
    let (error, channel, _buffer) = spi.dma_write(channel, Vec::new()).err().unwrap();
    assert_eq!(error, LpspiError::NoData);

    // Frame too long for the frame-size field.
    let (error, channel, _buffer) = spi
        .dma_write(channel, vec![0; MAX_FRAME_WORDS + 1])
        .err()
        .unwrap();
    assert_eq!(error, LpspiError::FrameSize);

    // Full command queue.
    spi.set_transmit_fifo_full(true);
    let (error, channel, buffer) = spi.dma_write(channel, vec![1, 2]).err().unwrap();
    assert_eq!(error, LpspiError::Busy);
    assert_eq!(buffer, vec![1, 2]);
    spi.set_transmit_fifo_full(false);

    // Nothing was enqueued or armed by any failed attempt.
    assert!(spi.enqueued_transactions().is_empty());
    assert!(!spi.is_dma_transmit_enabled());
    assert!(!channel.is_enabled());
}

#[test]
fn spi_width_mismatch_is_rejected_at_construction() {
    let mut registry = ChannelRegistry::new(CHANNEL_COUNT);
    let mut channel = registry.take_channel(3).unwrap();
    // A two-byte minor loop cannot carry the SPI's four-byte words.
    channel.set_minor_loop_bytes(2);

    let mut spi = Lpspi::new(1);
    let (error, channel, _buffer) = spi.dma_write(channel, vec![1]).err().unwrap();
    assert_eq!(
        error,
        LpspiError::Dma(ConfigurationError::ElementWidthMismatch)
    );
    let (error, _channel, _buffer) = spi.dma_read(channel, vec![1]).err().unwrap();
    assert_eq!(
        error,
        LpspiError::Dma(ConfigurationError::ElementWidthMismatch)
    );
    assert!(spi.enqueued_transactions().is_empty());
}

#[test]
fn full_duplex_round_trip_reproduces_the_buffer() {
    let mut registry = ChannelRegistry::new(CHANNEL_COUNT);
    let mut rx = registry.take_channel(13).unwrap();
    let mut tx = registry.take_channel(14).unwrap();
    rx.set_minor_loop_bytes(4);
    tx.set_minor_loop_bytes(4);

    let mut spi = Lpspi::new(4);
    let mut task = spi.dma_full_duplex(rx, tx, vec![1, 2, 3, 4, 5]).unwrap();
    assert_eq!(
        spi.enqueued_transactions(),
        &vec![Transaction {
            frame_size: 160,
            receive_data_mask: false,
            transmit_data_mask: false,
        }]
    );

    assert!(matches!(task.poll(&mut spi), Poll::Pending));
    assert!(spi.is_dma_transmit_enabled());
    assert!(spi.is_dma_receive_enabled());

    // The engine interleaves directions; a read of each buffer slot always
    // precedes the write that overwrites it.
    task.service_transmit(&mut spi);
    task.service_receive(&mut spi);
    task.service_transmit(&mut spi);
    task.service_transmit(&mut spi);
    assert!(matches!(task.poll(&mut spi), Poll::Pending));
    task.service_receive(&mut spi);
    task.service_transmit(&mut spi);
    task.service_transmit(&mut spi);
    task.service_receive(&mut spi);
    task.service_receive(&mut spi);
    task.service_receive(&mut spi);

    assert!(matches!(task.poll(&mut spi), Poll::Complete));
    assert!(!spi.is_dma_transmit_enabled());
    assert!(!spi.is_dma_receive_enabled());

    let (rx, tx, buffer) = task.release();
    assert_eq!(buffer, vec![1, 2, 3, 4, 5]);
    assert_eq!(spi.transmitted_data(), &vec![1, 2, 3, 4, 5]);
    assert!(!rx.is_enabled());
    assert!(!tx.is_enabled());
    assert_eq!(rx.minor_loops_retired(), 5);
    assert_eq!(tx.minor_loops_retired(), 5);
}

#[test]
fn full_duplex_abandonment_halts_both_directions() {
    let mut registry = ChannelRegistry::new(CHANNEL_COUNT);
    let mut rx = registry.take_channel(15).unwrap();
    let mut tx = registry.take_channel(16).unwrap();
    rx.set_minor_loop_bytes(4);
    tx.set_minor_loop_bytes(4);

    let mut spi = Lpspi::new(4);
    let mut task = spi.dma_full_duplex(rx, tx, vec![6, 7, 8]).unwrap();
    assert!(matches!(task.poll(&mut spi), Poll::Pending));
    task.service_transmit(&mut spi);
    task.service_transmit(&mut spi);
    task.service_receive(&mut spi);

    let (rx, tx, buffer) = task.cancel(&mut spi);
    assert!(!rx.is_enabled());
    assert!(!tx.is_enabled());
    assert!(!rx.is_hardware_signaling());
    assert!(!tx.is_hardware_signaling());
    assert!(!spi.is_dma_transmit_enabled());
    assert!(!spi.is_dma_receive_enabled());
    assert_eq!(buffer, vec![6, 7, 8]);
    assert_eq!(spi.transmitted_data(), &vec![6, 7]);
}

#[test]
fn full_duplex_width_mismatch_names_either_channel() {
    let mut registry = ChannelRegistry::new(CHANNEL_COUNT);
    let mut rx = registry.take_channel(17).unwrap();
    let mut tx = registry.take_channel(18).unwrap();
    rx.set_minor_loop_bytes(4);
    tx.set_minor_loop_bytes(1);

    let mut spi = Lpspi::new(1);
    let (error, rx, mut tx, _buffer) =
        spi.dma_full_duplex(rx, tx, vec![1, 2]).err().unwrap();
    assert_eq!(
        error,
        LpspiError::Dma(ConfigurationError::ElementWidthMismatch)
    );

    tx.set_minor_loop_bytes(4);
    assert!(spi.dma_full_duplex(rx, tx, vec![1, 2]).is_ok());
}

#[test]
fn spi_register_addresses_follow_the_instance() {
    let spi = Lpspi::new(1);
    assert_eq!(spi.rdr(), 0x4039_4074);
    assert_eq!(spi.tdr(), 0x4039_4064);
    let spi = Lpspi::new(4);
    assert_eq!(spi.rdr(), 0x403A_0074);
    assert_eq!(spi.tdr(), 0x403A_0064);
}
