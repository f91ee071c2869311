use fsociety::transfer::{
    decrypt_failed_notice, download_notice, download_path, metadata_failed_notice, not_found_notice, open_failed_notice, outgoing_notice,
    transfer_done_notice, transfer_failed_notice, OutgoingTransfer, ReceiveAction, ReceiveState,
};
use fsociety::wire::{close_payload, file_complete_payload, text_payload, username_payload};

#[test]
fn download_path_and_notices() {
    assert_eq!(download_path("a.bin"), "downloaded_a.bin");
    assert_eq!(download_notice("a.bin", 1024), "[FILE] Downloading: a.bin (1024 bytes)");
    assert_eq!(download_notice("e", 0), "[FILE] Downloading: e (0 bytes)");
    assert_eq!(outgoing_notice("x"), "[FILE] Outgoing file: x");
    assert_eq!(transfer_failed_notice("x"), "[ERROR] Transfer failed: x");
    assert_eq!(transfer_done_notice("x"), "[SUCCESS] Finished sending: x");
    assert_eq!(open_failed_notice("/p"), "[ERROR] Failed to open file: /p");
    assert_eq!(not_found_notice("/p"), "[ERROR] File not found: /p");
}

#[test]
fn chat_and_name_and_close_payloads() {
    let mut st = ReceiveState::new();
    assert!(matches!(st.on_payload(&text_payload("yo")), ReceiveAction::ShowMessage(t) if t == "yo"));
    assert!(matches!(st.on_payload(&username_payload("eve")), ReceiveAction::PeerName(n) if n == "eve"));
    assert!(matches!(st.on_payload(&close_payload()), ReceiveAction::PeerClosed));
    assert!(matches!(st.on_payload(&[]), ReceiveAction::Ignore));
    assert!(matches!(st.on_payload(&[0x09]), ReceiveAction::Ignore));
    assert!(st.current.is_none());
}

#[test]
fn chunks_without_download_are_ignored() {
    let mut st = ReceiveState::new();
    let out = OutgoingTransfer::new("f.txt".to_string(), 3);
    assert!(matches!(st.on_payload(&out.chunk_payload(&[1, 2, 3])), ReceiveAction::Ignore));
    assert!(matches!(st.on_payload(&file_complete_payload()), ReceiveAction::Ignore));
}

#[test]
fn a_whole_transfer() {
    let mut out = OutgoingTransfer::new("song.mp3".to_string(), 5);
    let mut st = ReceiveState::new();
    match st.on_payload(&out.start_payload()) {
        ReceiveAction::OpenDownload { path, filename, size } => {
            assert_eq!(path, "downloaded_song.mp3");
            assert_eq!(filename, "song.mp3");
            assert_eq!(size, 5);
            let notice = st.start_download(filename, size);
            assert_eq!(notice, "[FILE] Downloading: song.mp3 (5 bytes)");
        }
        _ => panic!("announcement not understood"),
    }
    let first = out.chunk_payload(&[1, 2, 3]);
    assert_eq!(&first[..5], &[0x03, 0, 0, 0, 0]);
    out.record_sent(3);
    let second = out.chunk_payload(&[4, 5]);
    assert_eq!(&second[..5], &[0x03, 0, 0, 0, 1]);
    out.record_sent(2);
    assert_eq!(out.chunk_index, 2);
    assert_eq!(out.bytes_sent, 5);

    match st.on_payload(&first) {
        ReceiveAction::WriteChunk(d) => {
            assert_eq!(d, vec![1, 2, 3]);
            assert_eq!(st.record_written(3), ("song.mp3".to_string(), 3, 5));
        }
        _ => panic!("chunk lost"),
    }
    match st.on_payload(&second) {
        ReceiveAction::WriteChunk(d) => {
            assert_eq!(d, vec![4, 5]);
            assert_eq!(st.record_written(2), ("song.mp3".to_string(), 5, 5));
        }
        _ => panic!("chunk lost"),
    }
    match st.on_payload(&out.complete_payload()) {
        ReceiveAction::FinishDownload(f) => assert_eq!(f, "song.mp3"),
        _ => panic!("completion lost"),
    }
    assert!(st.current.is_none());
}

#[test]
fn a_new_announcement_replaces_the_download_once_opened() {
    let mut st = ReceiveState::new();
    st.start_download("a".to_string(), 10);
    st.record_written(4);
    let out = OutgoingTransfer::new("b".to_string(), 2);
    assert!(matches!(st.on_payload(&out.start_payload()), ReceiveAction::OpenDownload { .. }));
    assert_eq!(st.current.as_ref().unwrap().filename, "a");
    st.start_download("b".to_string(), 2);
    let cur = st.current.as_ref().unwrap();
    assert_eq!(cur.filename, "b");
    assert_eq!(cur.bytes_written, 0);
    assert_eq!(cur.total_size, 2);
}

#[test]
fn finishing_a_transfer() {
    let out = OutgoingTransfer::new("doc.txt".to_string(), 9);
    let (payload, notice) = out.finish(true);
    assert_eq!(payload, Some(vec![0x04]));
    assert_eq!(notice, "[SUCCESS] Finished sending: doc.txt");
    let (payload, notice) = out.finish(false);
    assert!(payload.is_none());
    assert_eq!(notice, "[ERROR] Transfer failed: doc.txt");
}

#[test]
fn a_download_holds_exactly_the_sent_bytes() {
    let data: Vec<u8> = (0..=255u8).cycle().take(1000).collect();
    let mut out = OutgoingTransfer::new("blob".to_string(), data.len() as u64);
    let mut st = ReceiveState::new();
    if let ReceiveAction::OpenDownload { filename, size, .. } = st.on_payload(&out.start_payload()) {
        st.start_download(filename, size);
    } else {
        panic!("announcement lost");
    }
    let mut file = Vec::new();
    for chunk in data.chunks(300) {
        let p = out.chunk_payload(chunk);
        out.record_sent(chunk.len() as u64);
        match st.on_payload(&p) {
            ReceiveAction::WriteChunk(d) => {
                file.extend_from_slice(&d);
                st.record_written(d.len() as u64);
            }
            _ => panic!("chunk lost"),
        }
    }
    assert!(matches!(st.on_payload(&out.complete_payload()), ReceiveAction::FinishDownload(f) if f == "blob"));
    assert_eq!(file, data);
    assert!(st.current.is_none());
}

#[test]
fn failure_notices() {
    assert_eq!(decrypt_failed_notice(), "[WARN] Failed to decrypt packet");
    assert_eq!(metadata_failed_notice(), "[ERROR] Failed to read metadata");
}
