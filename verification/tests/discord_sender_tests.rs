use latest_sender::discord_sender::{
    build_multipart_body, bytes_contain, classify_response, content_type_for, file_name_bytes,
    fresh_boundary, DiscordSender, UploadError,
};
use std::io::Write;
use tempfile::NamedTempFile;

fn writeln_line(f: &mut NamedTempFile, line: &str) {
    f.write_all(line.as_bytes()).unwrap();
    f.write_all(b"\n").unwrap();
}

#[test]
fn unreachable_endpoint_is_a_transport_failure() {
    let mut temp_file = NamedTempFile::new().unwrap();
    writeln_line(&mut temp_file, "payload");

    let result = DiscordSender::send_file(
        "http://127.0.0.1:9/api/webhooks/test",
        temp_file.path().to_str().unwrap(),
        None,
    );
    match result {
        Err(UploadError::Transport(_)) => (),
        other => panic!("expected a transport failure, got {:?}", other),
    }
}

#[test]
fn path_without_file_name_is_rejected_locally() {
    let result = DiscordSender::send_file("http://127.0.0.1:9/hook", "/", None);
    match result {
        Err(UploadError::NoFileName) => (),
        other => panic!("expected the no-file-name rejection, got {:?}", other),
    }
}

#[test]
fn missing_file_is_a_local_read_failure() {
    let result = DiscordSender::send_file(
        "http://127.0.0.1:9/hook",
        "/nonexistent-dir-for-tests/absent.txt",
        None,
    );
    match result {
        Err(UploadError::FileRead(_)) => (),
        other => panic!("expected a read failure, got {:?}", other),
    }
}

#[test]
fn every_2xx_status_is_success_and_nothing_else() {
    for status in [200u16, 201, 204, 226, 299] {
        assert!(classify_response(status, None).is_ok());
    }
    for status in [100u16, 199, 300, 301, 400, 404, 429, 500, 503] {
        let r = classify_response(status, Some("boom".to_string()));
        match r {
            Err(UploadError::Remote { status: s, body }) => {
                assert_eq!(s, status);
                assert_eq!(body, "boom");
            }
            other => panic!("expected a remote rejection, got {:?}", other),
        }
    }
}

#[test]
fn unreadable_body_gets_the_placeholder() {
    match classify_response(400, None) {
        Err(UploadError::Remote { status, body }) => {
            assert_eq!(status, 400);
            assert_eq!(body, "No error message");
        }
        other => panic!("expected a remote rejection, got {:?}", other),
    }
}

#[test]
fn remote_rejection_message_carries_status_and_body() {
    let e = UploadError::Remote { status: 400, body: "Invalid webhook token".to_string() };
    assert_eq!(e.message(), "Discord API returned error: 400 - Invalid webhook token");
    let e = UploadError::Remote { status: 65535, body: String::new() };
    assert_eq!(e.message(), "Discord API returned error: 65535 - ");
}

#[test]
fn multipart_body_is_framed_exactly() {
    let boundary = b"B".to_vec();
    let name = b"a.txt".to_vec();
    let contents = b"XY".to_vec();
    let caption = b"hi".to_vec();

    let body = build_multipart_body(&boundary, &name, &contents, Some(&caption));
    let expected: &[u8] = b"--B\r\n\
        Content-Disposition: form-data; name=\"file\"; filename=\"a.txt\"\r\n\r\n\
        XY\r\n\
        --B\r\n\
        Content-Disposition: form-data; name=\"content\"\r\n\r\n\
        hi\r\n\
        --B--\r\n";
    assert_eq!(body, expected.to_vec());

    let body = build_multipart_body(&boundary, &name, &contents, None);
    let expected: &[u8] = b"--B\r\n\
        Content-Disposition: form-data; name=\"file\"; filename=\"a.txt\"\r\n\r\n\
        XY\r\n\
        --B--\r\n";
    assert_eq!(body, expected.to_vec());

    assert_eq!(content_type_for(&boundary), b"multipart/form-data; boundary=B".to_vec());
}

#[test]
fn file_names_come_from_the_last_component() {
    assert_eq!(file_name_bytes("/a/b/c.txt"), Some(b"c.txt".to_vec()));
    assert_eq!(file_name_bytes("plain.txt"), Some(b"plain.txt".to_vec()));
    assert_eq!(file_name_bytes("rel/dir/x"), Some(b"x".to_vec()));
    assert_eq!(file_name_bytes("/"), None);
    assert_eq!(file_name_bytes(""), None);
    assert_eq!(file_name_bytes("/a/b/"), None);
    assert_eq!(file_name_bytes("/a/.."), None);
    assert_eq!(file_name_bytes("/a/."), None);
}

#[test]
fn boundary_never_occurs_in_the_data_it_frames() {
    let contents = b"--FormBoundary and even --FormBoundaryx are taken".to_vec();
    let caption = b"--FormBoundaryxx too".to_vec();
    let b = fresh_boundary(&contents, &caption);
    assert!(!bytes_contain(&contents, &b));
    assert!(!bytes_contain(&caption, &b));

    assert!(bytes_contain(&b"hello".to_vec(), &b"ell".to_vec()));
    assert!(!bytes_contain(&b"hello".to_vec(), &b"elo".to_vec()));
}
