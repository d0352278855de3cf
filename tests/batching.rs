use screen_record::buffer::{ClipBuffer, ClipRecord, BATCH_SIZE};

fn clip(n: u64) -> ClipRecord {
    ClipRecord {
        path: format!("temp/clip{}.webm", n),
        created_secs: 1_700_000_000 + n as i64,
        size: 5_000 + n,
        session: format!("user{}", n),
    }
}

#[test]
fn fewer_than_batch_cycles_keep_every_clip() {
    for cycles in 0..BATCH_SIZE as u64 {
        let mut buffer = ClipBuffer::new();
        for n in 0..cycles {
            let full = buffer.push(clip(n));
            assert!(!full);
            assert!(buffer.drain_if_full().is_none());
        }
        assert_eq!(buffer.len(), cycles as usize);
        assert_eq!(buffer.is_empty(), cycles == 0);
    }
}

#[test]
fn fourth_cycle_drains_exact_batch_in_order() {
    let mut buffer = ClipBuffer::new();
    for n in 0..3 {
        assert!(!buffer.push(clip(n)));
        assert!(buffer.drain_if_full().is_none());
    }
    assert!(buffer.push(clip(3)));
    let batch = buffer.drain_if_full().expect("a full batch");
    assert_eq!(batch.len(), 4);
    for (i, c) in batch.iter().enumerate() {
        assert_eq!(c.path, format!("temp/clip{}.webm", i));
        assert_eq!(c.size, 5_000 + i as u64);
    }
    assert!(buffer.is_empty());
    assert!(buffer.drain_if_full().is_none());
}

#[test]
fn clips_beyond_a_batch_wait_for_the_next() {
    let mut buffer = ClipBuffer::new();
    for n in 0..6 {
        buffer.push(clip(n));
    }
    let batch = buffer.drain_if_full().expect("a full batch");
    let paths: Vec<String> = batch.iter().map(|c| c.path.clone()).collect();
    assert_eq!(
        paths,
        vec!["temp/clip0.webm", "temp/clip1.webm", "temp/clip2.webm", "temp/clip3.webm"]
    );
    assert_eq!(buffer.len(), 2);
    assert!(buffer.drain_if_full().is_none());
    buffer.push(clip(6));
    assert!(buffer.push(clip(7)));
    let next = buffer.drain_if_full().expect("a second batch");
    assert_eq!(next[0].path, "temp/clip4.webm");
    assert_eq!(next[3].path, "temp/clip7.webm");
    assert!(buffer.is_empty());
}

#[test]
fn empty_buffer_hands_out_nothing() {
    let mut buffer = ClipBuffer::new();
    assert!(buffer.is_empty());
    assert_eq!(buffer.len(), 0);
    assert!(buffer.drain_if_full().is_none());
}
