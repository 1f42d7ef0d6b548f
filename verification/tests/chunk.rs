use hyprwhisper::chunk::TranscriptChunk;

#[test]
fn a_chunk_is_a_closed_open_range_with_its_text() {
    let chunk = TranscriptChunk::new(8000, 24000, "hello there".to_string()).unwrap();
    assert_eq!(chunk.start(), 8000);
    assert_eq!(chunk.end(), 24000);
    assert_eq!(chunk.sample_count(), 16000);
    assert_eq!(chunk.text(), "hello there");
}

#[test]
fn a_range_that_ends_before_it_begins_is_no_chunk() {
    assert!(TranscriptChunk::new(5, 4, String::new()).is_none());
    assert!(TranscriptChunk::new(usize::MAX, 0, "x".to_string()).is_none());
    let empty = TranscriptChunk::new(5, 5, String::new()).unwrap();
    assert_eq!(empty.sample_count(), 0);
}

#[test]
fn a_chunk_follows_the_one_that_ends_where_it_begins() {
    let first = TranscriptChunk::new(0, 8000, "one".to_string()).unwrap();
    let second = TranscriptChunk::new(8000, 12000, "two".to_string()).unwrap();
    let third = TranscriptChunk::new(12001, 13000, "three".to_string()).unwrap();
    assert!(second.follows(&first));
    assert!(!first.follows(&second));
    assert!(!third.follows(&second));
    assert!(!first.follows(&first));
}

#[test]
fn the_samples_of_a_chunk_exclude_its_end() {
    let recording = [10i16, 11, 12, 13, 14, 15];
    let chunk = TranscriptChunk::new(2, 5, String::new()).unwrap();
    assert_eq!(chunk.samples_of(&recording), Some(vec![12, 13, 14]));
    let whole = TranscriptChunk::new(0, 6, String::new()).unwrap();
    assert_eq!(whole.samples_of(&recording), Some(recording.to_vec()));
    let empty = TranscriptChunk::new(6, 6, String::new()).unwrap();
    assert_eq!(empty.samples_of(&recording), Some(vec![]));
    let beyond = TranscriptChunk::new(2, 7, String::new()).unwrap();
    assert_eq!(beyond.samples_of(&recording), None);
}

#[test]
fn contiguous_chunks_tile_the_recording() {
    let recording: Vec<i16> = (0..20).collect();
    let first = TranscriptChunk::new(3, 9, String::new()).unwrap();
    let second = TranscriptChunk::new(9, 17, String::new()).unwrap();
    assert!(second.follows(&first));
    let mut both = first.samples_of(&recording).unwrap();
    both.extend(second.samples_of(&recording).unwrap());
    assert_eq!(both, recording[3..17].to_vec());
}
