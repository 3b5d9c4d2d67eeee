use bipbuffer::BipBuffer;

#[test]
fn create_u32() {
    let _: BipBuffer<u32> = BipBuffer::new(3);
}

#[test]
fn create_u8() {
    let _: BipBuffer<u8> = BipBuffer::new(8);
}

#[test]
fn read_empty() {
    let mut buffer: BipBuffer<u8> = BipBuffer::new(3);
    let block = buffer.read();
    assert_eq!(block, None);
}

#[test]
fn read_uncommitted() {
    let mut buffer: BipBuffer<u8> = BipBuffer::new(3);
    buffer.reserve(2).unwrap();
    let block = buffer.read();
    assert_eq!(block, None);
}

#[test]
fn reserve_gt_overall_len() {
    let mut buffer: BipBuffer<u8> = BipBuffer::new(3);
    assert_eq!(buffer.reserved_len(), 0);
    {
        let reserved = buffer.reserve(4).unwrap();
        assert_eq!(reserved.len(), 3);
    }
    assert_eq!(buffer.reserved_len(), 3);
}

#[test]
fn commit_and_fetch() {
    let mut buffer: BipBuffer<u8> = BipBuffer::new(4);
    {
        let reserved = buffer.reserve(3).unwrap();
        reserved[0] = 7;
        reserved[1] = 22;
        reserved[2] = 218;
    }
    assert_eq!(buffer.committed_len(), 0);
    buffer.commit(3);
    assert_eq!(buffer.committed_len(), 3);
    assert_eq!(buffer.reserved_len(), 0);
    let block = buffer.read().unwrap();
    assert_eq!(block.len(), 3);
    assert_eq!(block[0], 7);
    assert_eq!(block[1], 22);
    assert_eq!(block[2], 218);
}

#[test]
fn reserve_full() {
    let mut buffer: BipBuffer<u8> = BipBuffer::new(4);
    buffer.reserve(4).unwrap();
    buffer.commit(4);
    let result = buffer.reserve(1);
    assert!(result.is_err());
}

#[test]
fn decommit() {
    let mut buffer: BipBuffer<u8> = BipBuffer::new(4);
    {
        let reserved = buffer.reserve(4).unwrap();
        reserved[0] = 7;
        reserved[1] = 22;
        reserved[2] = 218;
        reserved[3] = 56;
    }
    buffer.commit(4);
    buffer.decommit(2);
    {
        let block = buffer.read().unwrap();
        assert_eq!(block.len(), 2);
        assert_eq!(block[0], 218);
        assert_eq!(block[1], 56);
    }
    buffer.decommit(1);
    {
        let block = buffer.read().unwrap();
        assert_eq!(block.len(), 1);
        assert_eq!(block[0], 56);
    }
}

#[test]
fn reserve_after_full_cycle() {
    let mut buffer: BipBuffer<u8> = BipBuffer::new(4);
    {
        let reserved = buffer.reserve(4).unwrap();
        reserved[0] = 7;
        reserved[1] = 22;
        reserved[2] = 218;
        reserved[3] = 56;
    }
    buffer.commit(4);
    buffer.decommit(2);
    {
        let reserved = buffer.reserve(4).unwrap();
        assert_eq!(reserved.len(), 2);
        reserved[0] = 49;
        reserved[1] = 81;
    }
    buffer.commit(2);
    {
        let block = buffer.read().unwrap();
        assert_eq!(block.len(), 2);
        assert_eq!(block[0], 218);
        assert_eq!(block[1], 56);
    }
    buffer.decommit(2);
    {
        let block = buffer.read().unwrap();
        assert_eq!(block.len(), 2);
        assert_eq!(block[0], 49);
        assert_eq!(block[1], 81);
    }
}

#[test]
fn clear() {
    let mut buffer: BipBuffer<u8> = BipBuffer::new(4);
    {
        let reserved = buffer.reserve(4).unwrap();
        reserved[0] = 4;
        reserved[1] = 23;
        reserved[2] = 99;
        reserved[3] = 126;
    }
    assert_eq!(buffer.reserved_len(), 4);
    buffer.commit(4);
    assert_eq!(buffer.reserved_len(), 0);
    buffer.clear();
    assert_eq!(buffer.committed_len(), 0);
}
