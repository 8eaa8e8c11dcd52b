use webstreamer::relay::{RelayBuffer, DEFAULT_RELAY_CAPACITY};

#[test]
fn delivered_bytes_equal_submitted_concatenation() {
    // Chunks leave in submission order and in full: the consumer sees the
    // concatenation of exactly what was submitted.
    let mut buf = RelayBuffer::new(DEFAULT_RELAY_CAPACITY);
    let chunks: Vec<Vec<u8>> = vec![vec![1, 2, 3], vec![], vec![4], vec![5, 6]];
    for c in &chunks {
        assert!(buf.try_push(c.clone()).is_ok());
    }
    let mut seen: Vec<u8> = Vec::new();
    while let Some(chunk) = buf.pop() {
        for b in chunk {
            seen.push(b);
        }
    }
    assert_eq!(seen, vec![1, 2, 3, 4, 5, 6]);
}

#[test]
fn full_buffer_refuses_until_one_chunk_drains() {
    // Capacity K, K+1 submissions without draining: the last one is refused
    // (the producer suspends), and draining a single chunk unblocks it.
    let k: usize = 3;
    let mut buf = RelayBuffer::new(k);
    for i in 0..k {
        assert!(buf.try_push(vec![i as u8]).is_ok());
    }
    let refused = buf.try_push(vec![99]);
    match refused {
        Ok(()) => panic!("a full buffer must refuse the next chunk"),
        Err(returned) => assert_eq!(returned, vec![99]),
    }
    let drained = buf.pop();
    assert_eq!(drained, Some(vec![0]));
    assert!(buf.try_push(vec![99]).is_ok());
    assert_eq!(buf.len(), k);
}

#[test]
fn drained_buffer_reports_empty() {
    let mut buf = RelayBuffer::new(2);
    assert_eq!(buf.pop(), None);
    assert!(buf.try_push(vec![7]).is_ok());
    assert_eq!(buf.pop(), Some(vec![7]));
    assert_eq!(buf.pop(), None);
    assert_eq!(buf.len(), 0);
}

#[test]
fn chunks_keep_their_order_under_interleaving() {
    let mut buf = RelayBuffer::new(2);
    assert!(buf.try_push(vec![1]).is_ok());
    assert!(buf.try_push(vec![2]).is_ok());
    assert_eq!(buf.pop(), Some(vec![1]));
    assert!(buf.try_push(vec![3]).is_ok());
    assert_eq!(buf.pop(), Some(vec![2]));
    assert_eq!(buf.pop(), Some(vec![3]));
}
