use printer_gateway::serial::{plan_chunks, SERIAL_CHUNK_SIZE, SERIAL_PACING_MS};

#[test]
fn empty_payload_has_no_chunks() {
    let data: Vec<u8> = Vec::new();
    let chunks = plan_chunks(&data);
    assert!(chunks.is_empty());
}

#[test]
fn short_payload_is_one_chunk() {
    let data = vec![0x1Bu8, 0x40];
    let chunks = plan_chunks(&data);
    assert_eq!(chunks.len(), 1);
    assert_eq!(chunks[0], data);
}

#[test]
fn exact_chunk_size_payload_is_one_full_chunk() {
    let data: Vec<u8> = (0..512).map(|i| (i % 251) as u8).collect();
    let chunks = plan_chunks(&data);
    assert_eq!(chunks.len(), 1);
    assert_eq!(chunks[0].len(), SERIAL_CHUNK_SIZE);
    assert_eq!(chunks[0], data);
}

#[test]
fn long_payload_splits_into_full_chunks_and_remainder() {
    let data: Vec<u8> = (0..1025).map(|i| (i % 251) as u8).collect();
    let chunks = plan_chunks(&data);
    assert_eq!(chunks.len(), 3);
    assert_eq!(chunks[0].len(), 512);
    assert_eq!(chunks[1].len(), 512);
    assert_eq!(chunks[2].len(), 1);
    let total: usize = chunks.iter().map(|c| c.len()).sum();
    assert_eq!(total, data.len());
    let rebuilt: Vec<u8> = chunks.concat();
    assert_eq!(rebuilt, data);
}

#[test]
fn boundary_payload_has_full_final_chunk() {
    let data: Vec<u8> = vec![7u8; 1024];
    let chunks = plan_chunks(&data);
    assert_eq!(chunks.len(), 2);
    assert_eq!(chunks[0].len(), 512);
    assert_eq!(chunks[1].len(), 512);
    assert_eq!(chunks.concat(), data);
}

#[test]
fn pacing_delay_is_twenty_milliseconds() {
    assert_eq!(SERIAL_PACING_MS, 20);
    assert_eq!(SERIAL_CHUNK_SIZE, 512);
}
