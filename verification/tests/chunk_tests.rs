use mwatch_spoofer::chunk::chunk_frame;
use mwatch_spoofer::frame::encode_binary;

fn concat(chunks: &Vec<Vec<u8>>) -> Vec<u8> {
    let mut out = Vec::new();
    for c in chunks {
        out.extend_from_slice(c);
    }
    out
}

#[test]
fn chunks_concatenate_back_to_frame() {
    let frames: Vec<Vec<u8>> = vec![
        Vec::new(),
        vec![1],
        (0u8..16u8).collect(),
        (0u8..17u8).collect(),
        (0u8..=255u8).collect(),
    ];
    for frame in frames {
        for k in [1usize, 2, 10, 16, 1000] {
            let chunks = chunk_frame(&frame, k);
            assert_eq!(concat(&chunks), frame);
        }
    }
}

#[test]
fn chunk_sizes_are_exact_except_last() {
    let frame: Vec<u8> = (0u8..33u8).collect();
    let chunks = chunk_frame(&frame, 16);
    assert_eq!(chunks.len(), 3);
    assert_eq!(chunks[0].len(), 16);
    assert_eq!(chunks[1].len(), 16);
    assert_eq!(chunks[2].len(), 1);
    for c in &chunks {
        assert!(!c.is_empty() && c.len() <= 16);
    }
}

#[test]
fn chunking_preserves_order() {
    let frame: Vec<u8> = (0u8..40u8).collect();
    let chunks = chunk_frame(&frame, 7);
    assert_eq!(chunks[0], (0u8..7u8).collect::<Vec<u8>>());
    assert_eq!(chunks[5], vec![35, 36, 37, 38, 39]);
}

#[test]
fn empty_frame_has_no_chunks() {
    assert_eq!(chunk_frame(&Vec::new(), 16).len(), 0);
}

#[test]
fn oversized_chunk_bound_gives_one_chunk() {
    let frame = vec![9, 8, 7];
    let chunks = chunk_frame(&frame, 16);
    assert_eq!(chunks, vec![vec![9, 8, 7]]);
}

#[test]
fn encoded_frame_chunks_like_the_transmitter_sends_it() {
    let frame = encode_binary(&(0u8..20u8).collect());
    let chunks = chunk_frame(&frame, 16);
    assert_eq!(concat(&chunks), frame);
    for (i, c) in chunks.iter().enumerate() {
        if i + 1 < chunks.len() {
            assert_eq!(c.len(), 16);
        } else {
            assert!(c.len() >= 1 && c.len() <= 16);
        }
    }
}
