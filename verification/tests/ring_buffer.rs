use a2dp_source::audio_pipeline::RingBuffer;

#[test]
fn test_new_buffer_empty() {
    let buffer: RingBuffer<u8, 16> = RingBuffer::new();
    assert!(buffer.is_empty());
    assert!(!buffer.is_full());
    assert_eq!(buffer.available_read(), 0);
    assert_eq!(buffer.available_write(), 15); // N-1 because one slot is sentinel
}

#[test]
fn test_write_read_single() {
    let mut buffer: RingBuffer<u8, 16> = RingBuffer::new();

    let written = buffer.write(&[42]);
    assert_eq!(written, 1);
    assert_eq!(buffer.available_read(), 1);

    let mut out = [0u8; 1];
    let read = buffer.read(&mut out);
    assert_eq!(read, 1);
    assert_eq!(out[0], 42);
    assert!(buffer.is_empty());
}

#[test]
fn test_write_read_multiple() {
    let mut buffer: RingBuffer<u8, 16> = RingBuffer::new();

    let data = [1, 2, 3, 4, 5];
    let written = buffer.write(&data);
    assert_eq!(written, 5);

    let mut out = [0u8; 5];
    let read = buffer.read(&mut out);
    assert_eq!(read, 5);
    assert_eq!(out, data);
}

#[test]
fn test_write_full() {
    let mut buffer: RingBuffer<u8, 8> = RingBuffer::new();

    // Try to write more than capacity
    let data = [1, 2, 3, 4, 5, 6, 7, 8, 9, 10];
    let written = buffer.write(&data);
    assert_eq!(written, 7); // N-1 = 7

    assert!(buffer.is_full());
    assert_eq!(buffer.available_write(), 0);
}

#[test]
fn test_read_empty() {
    let mut buffer: RingBuffer<u8, 16> = RingBuffer::new();

    let mut out = [0u8; 5];
    let read = buffer.read(&mut out);
    assert_eq!(read, 0);
}

#[test]
fn test_wrap_around() {
    let mut buffer: RingBuffer<u8, 8> = RingBuffer::new();

    // Fill partially
    buffer.write(&[1, 2, 3, 4, 5]);

    // Read some
    let mut out = [0u8; 3];
    buffer.read(&mut out);
    assert_eq!(out, [1, 2, 3]);

    // Write more (wraps around)
    buffer.write(&[6, 7, 8, 9, 10]);

    // Read all
    let mut out2 = [0u8; 7];
    let read = buffer.read(&mut out2);
    assert_eq!(read, 7);
    assert_eq!(out2, [4, 5, 6, 7, 8, 9, 10]);
}

#[test]
fn test_clear() {
    let mut buffer: RingBuffer<u8, 16> = RingBuffer::new();

    buffer.write(&[1, 2, 3, 4, 5]);
    assert!(!buffer.is_empty());

    buffer.clear();
    assert!(buffer.is_empty());
}

#[test]
fn test_i16_samples() {
    let mut buffer: RingBuffer<i16, 256> = RingBuffer::new();

    let samples: [i16; 128] = core::array::from_fn(|i| i as i16 * 100);
    let written = buffer.write(&samples);
    assert_eq!(written, 128);

    let mut out = [0i16; 128];
    let read = buffer.read(&mut out);
    assert_eq!(read, 128);
    assert_eq!(out, samples);
}

#[test]
fn test_write_to_full_buffer_takes_nothing() {
    let mut buffer: RingBuffer<u8, 4> = RingBuffer::new();
    assert_eq!(buffer.write(&[1, 2, 3]), 3);
    assert!(buffer.is_full());
    assert_eq!(buffer.write(&[4, 5]), 0);
    assert_eq!(buffer.available_read(), 3);

    let mut out = [0u8; 3];
    assert_eq!(buffer.read(&mut out), 3);
    assert_eq!(out, [1, 2, 3]);
}

#[test]
fn test_write_keeps_only_the_start_of_the_data() {
    let mut buffer: RingBuffer<u8, 8> = RingBuffer::new();
    assert_eq!(buffer.write(&[9, 9, 9, 9, 9]), 5);
    assert_eq!(buffer.write(&[1, 2, 3, 4]), 2);

    let mut out = [0u8; 8];
    assert_eq!(buffer.read(&mut out), 7);
    assert_eq!(out, [9, 9, 9, 9, 9, 1, 2, 0]);
}

#[test]
fn test_short_read_leaves_the_rest_of_the_target() {
    let mut buffer: RingBuffer<u8, 8> = RingBuffer::new();
    buffer.write(&[10, 20]);

    let mut out = [7u8; 5];
    assert_eq!(buffer.read(&mut out), 2);
    assert_eq!(out, [10, 20, 7, 7, 7]);
    assert!(buffer.is_empty());
    assert_eq!(buffer.available_write(), 7);
}

#[test]
fn test_partial_read_keeps_the_newer_items() {
    let mut buffer: RingBuffer<u16, 8> = RingBuffer::new();
    buffer.write(&[1, 2, 3, 4, 5, 6]);

    let mut first = [0u16; 2];
    assert_eq!(buffer.read(&mut first), 2);
    assert_eq!(first, [1, 2]);
    assert_eq!(buffer.available_read(), 4);
    assert_eq!(buffer.available_write(), 3);

    let mut rest = [0u16; 4];
    assert_eq!(buffer.read(&mut rest), 4);
    assert_eq!(rest, [3, 4, 5, 6]);
}

#[test]
fn test_order_survives_many_turns_of_the_ring() {
    let mut buffer: RingBuffer<u32, 4> = RingBuffer::new();
    let mut next_in: u32 = 0;
    let mut next_out: u32 = 0;
    for round in 0..1000usize {
        let burst = 1 + round % 3;
        let data = [next_in, next_in + 1, next_in + 2];
        let written = buffer.write(&data[..burst]);
        assert_eq!(written, burst.min(3 - (next_in - next_out) as usize));
        next_in += written as u32;

        let mut out = [0u32; 2];
        let read = buffer.read(&mut out);
        assert_eq!(read, 2usize.min((next_in - next_out) as usize));
        for item in &out[..read] {
            assert_eq!(*item, next_out);
            next_out += 1;
        }
    }
    assert!(next_out > 1000);
}

#[test]
fn test_clear_then_reuse() {
    let mut buffer: RingBuffer<u8, 8> = RingBuffer::new();
    buffer.write(&[1, 2, 3, 4, 5]);
    let mut out = [0u8; 2];
    buffer.read(&mut out);
    buffer.clear();
    assert_eq!(buffer.available_read(), 0);
    assert_eq!(buffer.available_write(), 7);

    assert_eq!(buffer.write(&[6, 7, 8, 9, 10, 11, 12, 13]), 7);
    let mut all = [0u8; 7];
    assert_eq!(buffer.read(&mut all), 7);
    assert_eq!(all, [6, 7, 8, 9, 10, 11, 12]);
}

#[test]
fn test_default_buffer_is_empty() {
    let mut buffer: RingBuffer<i16, 2> = RingBuffer::default();
    assert!(buffer.is_empty());
    assert_eq!(buffer.available_write(), 1);
    assert_eq!(buffer.write(&[-5, 6]), 1);
    assert!(buffer.is_full());
    let mut out = [0i16; 1];
    assert_eq!(buffer.read(&mut out), 1);
    assert_eq!(out, [-5]);
}

#[test]
fn test_single_slot_buffer_holds_nothing() {
    let mut buffer: RingBuffer<u8, 1> = RingBuffer::new();
    assert!(buffer.is_empty());
    assert!(buffer.is_full());
    assert_eq!(buffer.write(&[1]), 0);
    let mut out = [0u8; 1];
    assert_eq!(buffer.read(&mut out), 0);
}
