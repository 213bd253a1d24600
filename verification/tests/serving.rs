use station_server::responder::LineReader;
use station_server::responder::ServeError;
use station_server::responder::ServePhase;
use station_server::responder::ServeSession;
use station_server::responder::asset_path;
use station_server::responder::line_chunk;
use station_server::responder::mount_point;
use station_server::responder::partition_label;
use station_server::responder::serve_missing;
use station_server::responder::serve_present;
use station_server::responder::uri_pattern;

#[test]
fn scenario_present_file_streams_exact_contents() {
    let (head, body, _session) = serve_present(b"hello\nworld\n".to_vec(), 127);
    assert_eq!(head.status, 200);
    assert_eq!(head.reason, "OK");
    assert_eq!(head.content_type, "text/html");
    assert_eq!(body, b"hello\nworld\n".to_vec());
}

#[test]
fn scenario_absent_file_serves_the_fixed_not_found_body() {
    let (head, body, _session) = serve_missing();
    assert_eq!(head.status, 404);
    assert_eq!(head.reason, "Not found.");
    assert_eq!(head.content_type, "text/html");
    assert_eq!(body, b"No suitable file could be found.".to_vec());
}

#[test]
fn status_is_200_or_404_and_nothing_else() {
    let (present, _, _) = serve_present(b"x".to_vec(), 8);
    let (absent, _, _) = serve_missing();
    assert_eq!(present.status, 200);
    assert_eq!(absent.status, 404);
}

#[test]
fn chunks_end_at_line_feeds() {
    let mut reader = LineReader::new(b"hello\nworld\n".to_vec());
    assert_eq!(reader.next_chunk(127), Some(b"hello\n".to_vec()));
    assert_eq!(reader.next_chunk(127), Some(b"world\n".to_vec()));
    assert_eq!(reader.next_chunk(127), None);
}

#[test]
fn chunks_respect_the_size_cap() {
    let mut reader = LineReader::new(b"hello\n".to_vec());
    assert_eq!(reader.next_chunk(3), Some(b"hel".to_vec()));
    assert_eq!(reader.next_chunk(3), Some(b"lo\n".to_vec()));
    assert_eq!(reader.next_chunk(3), None);
}

#[test]
fn a_final_line_without_line_feed_is_not_lost() {
    let mut reader = LineReader::new(b"one\ntwo".to_vec());
    let all = reader.read_all(4);
    assert_eq!(all, b"one\ntwo".to_vec());
    assert!(!reader.has_more());
}

#[test]
fn an_empty_file_yields_no_chunks_and_an_empty_body() {
    let mut reader = LineReader::new(Vec::new());
    assert_eq!(reader.next_chunk(127), None);
    let (head, body, _session) = serve_present(Vec::new(), 127);
    assert_eq!(head.status, 200);
    assert!(body.is_empty());
}

#[test]
fn concatenating_chunks_reconstructs_the_data_for_any_cap() {
    let data = b"alpha\nbeta\ngamma-without-end".to_vec();
    for cap in 1..20usize {
        let mut reader = LineReader::new(data.clone());
        let mut rebuilt: Vec<u8> = Vec::new();
        while let Some(chunk) = reader.next_chunk(cap) {
            assert!(!chunk.is_empty());
            assert!(chunk.len() <= cap);
            rebuilt.extend_from_slice(&chunk);
        }
        assert_eq!(rebuilt, data);
    }
}

#[test]
fn line_chunk_stops_at_the_terminating_zero() {
    assert_eq!(line_chunk(b"abc\0xyz"), b"abc".to_vec());
    assert_eq!(line_chunk(b"abc"), b"abc".to_vec());
    assert_eq!(line_chunk(b"\0abc"), Vec::<u8>::new());
    assert_eq!(line_chunk(b""), Vec::<u8>::new());
}

#[test]
fn write_failure_still_releases_the_handle_then_surfaces_the_error() {
    let mut session = ServeSession::begin();
    let head = session.on_open_result(true);
    assert_eq!(head.status, 200);
    session.emit_chunk(b"partial\n");
    session.on_write_failure();
    assert_eq!(session.phase, ServePhase::Cleanup);
    session.release();
    assert_eq!(session.phase, ServePhase::Complete);
    assert_eq!(session.outcome(), Err(ServeError::StreamWrite));
}

#[test]
fn no_handle_leaks_over_many_sequential_requests() {
    let mut open_handles: i64 = 0;
    for i in 0..1000 {
        let mut session = ServeSession::begin();
        if i % 2 == 0 {
            // present: the open succeeded and a handle is now held
            let head = session.on_open_result(true);
            assert_eq!(head.status, 200);
            open_handles += 1;
            session.emit_chunk(b"hello\n");
            session.on_stream_end();
            session.release();
            open_handles -= 1;
            assert_eq!(session.outcome(), Ok(()));
        } else {
            // absent: no handle was ever opened
            let head = session.on_open_result(false);
            assert_eq!(head.status, 404);
            let body = session.emit_not_found();
            assert_eq!(body, b"No suitable file could be found.".to_vec());
            assert_eq!(session.outcome(), Ok(()));
        }
        assert_eq!(session.phase, ServePhase::Complete);
        assert_eq!(open_handles, 0);
    }
}

#[test]
fn the_fixed_names_are_what_the_device_serves() {
    assert_eq!(mount_point(), "/webapp");
    assert_eq!(partition_label(), "webapp");
    assert_eq!(uri_pattern(), "/webapp/*");
    assert_eq!(asset_path(), "/webapp/build.ts");
}
