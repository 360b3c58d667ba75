use hrtf_conv::scratch::ScratchBuffer;

#[test]
fn new_buffer_holds_silence() {
    let buffer: ScratchBuffer<f32> = ScratchBuffer::new(4, 0.0);
    assert_eq!(buffer.capacity(), 4);
    assert_eq!(buffer.len(), 4);
    assert_eq!(buffer.as_slice(), &[0.0, 0.0, 0.0, 0.0]);
}

#[test]
fn empty_buffer_takes_only_empty_blocks() {
    let mut buffer: ScratchBuffer<u8> = ScratchBuffer::new(0, 7);
    assert_eq!(buffer.capacity(), 0);
    assert_eq!(buffer.len(), 0);
    assert!(buffer.refill(&[]));
    assert!(!buffer.refill(&[1]));
    assert_eq!(buffer.len(), 0);
}

#[test]
fn refill_replaces_the_block() {
    let mut buffer: ScratchBuffer<f32> = ScratchBuffer::new(4, 0.0);
    assert!(buffer.refill(&[1.0, 2.0, 3.0]));
    assert_eq!(buffer.as_slice(), &[1.0, 2.0, 3.0]);
    assert_eq!(buffer.len(), 3);
    assert!(buffer.refill(&[9.0]));
    assert_eq!(buffer.as_slice(), &[9.0]);
    assert!(buffer.refill(&[5.0, 6.0, 7.0, 8.0]));
    assert_eq!(buffer.as_slice(), &[5.0, 6.0, 7.0, 8.0]);
    assert!(buffer.refill(&[]));
    assert_eq!(buffer.as_slice(), &[] as &[f32]);
    assert_eq!(buffer.capacity(), 4);
}

#[test]
fn refill_refuses_a_block_that_is_too_long() {
    let mut buffer: ScratchBuffer<i32> = ScratchBuffer::new(3, 0);
    assert!(buffer.refill(&[1, 2]));
    assert!(!buffer.refill(&[4, 5, 6, 7]));
    assert_eq!(buffer.as_slice(), &[1, 2]);
    assert_eq!(buffer.capacity(), 3);
}

#[test]
fn thousand_blocks_keep_the_capacity() {
    let mut buffer: ScratchBuffer<f32> = ScratchBuffer::new(512, 0.0);
    let mut block = vec![0.0f32; 512];
    for round in 0..1000 {
        for (index, sample) in block.iter_mut().enumerate() {
            *sample = (round * 512 + index) as f32;
        }
        assert!(buffer.refill(&block));
        assert_eq!(buffer.capacity(), 512);
        assert_eq!(buffer.len(), 512);
        assert_eq!(buffer.as_slice(), block.as_slice());
    }
}
