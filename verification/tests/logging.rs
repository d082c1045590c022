use gopher::json;
use gopher::json::Json;
use gopher::logging::{diagnostic, BoundedLog, LineReader, RecordWriter, Write, KEPT_LINES, MAX_BYTES, MAX_LINES};
use gopher::text_map::TextMap;

/// The lines of a file, read in small pieces.
fn lines(file: &[u8]) -> Vec<Vec<u8>> {
    let mut lines = Vec::new();
    let mut rest = file;
    loop {
        let mut reader = LineReader::default();
        loop {
            let piece = &rest[..rest.len().min(5)];
            if piece.is_empty() {
                break;
            }
            let (count, ended) = reader.feed(piece);
            rest = &rest[count..];
            if ended {
                break;
            }
        }
        if !reader.seen {
            return lines;
        }
        lines.push(reader.line);
    }
}

fn recover(file: &[u8]) -> BoundedLog {
    let mut log = BoundedLog::default();
    for line in lines(file) {
        log.recover(line);
    }
    log
}

#[test]
fn bounds_and_recovers_logs() {
    let mut log = BoundedLog::default();
    let mut file: Vec<u8> = Vec::new();
    for i in 0..10_050 {
        let record = format!("{{\"n\":{i}}}\n");
        match log.append(record.as_bytes()) {
            Write::Append => file.extend_from_slice(record.as_bytes()),
            Write::Replace => {
                file.clear();
                for k in 0..log.len() {
                    file.extend_from_slice(log.line(k));
                }
            }
        }
    }
    let text = String::from_utf8(file.clone()).unwrap();
    assert!(text.lines().count() <= MAX_LINES);
    assert_eq!(text.lines().count(), KEPT_LINES + 49);
    assert_eq!(text.lines().last(), Some("{\"n\":10049}"));
    file.extend_from_slice(b"{broken");
    let recovered = recover(&file);
    assert_eq!(recovered.line(recovered.len() - 1), b"{\"n\":10049}\n");
}

#[test]
fn oversized_records_remain_valid_json_and_flush_on_shutdown() {
    let mut writer = RecordWriter::default();
    let long = format!("{{\"fields\":{{\"event\":\"oversized\",\"value\":\"{}\"}}}}\n", "ø".repeat(MAX_BYTES));
    assert_eq!(writer.write(long.as_bytes()), long.len());
    let first = writer.finish("2026-09-07T16:30:00Z").unwrap();
    let mut writer = RecordWriter::default();
    writer.write(b"{\"fields\":");
    writer.write(b"{\"event\":\"last_event\"}}\n");
    let second = writer.finish("2026-09-07T16:30:00Z").unwrap();
    let entries: Vec<Json> = [first, second]
        .iter()
        .map(|line| {
            assert!(line.len() <= MAX_BYTES);
            json::parse(line).unwrap()
        })
        .collect();
    assert_eq!(entries[0].at("fields").at("event").as_str(), Some("oversized_log_record"));
    assert_eq!(entries[0].at("timestamp").as_str(), Some("2026-09-07T16:30:00Z"));
    assert_eq!(entries[1].at("fields").at("event").as_str(), Some("last_event"));
    assert!(RecordWriter::default().finish("2026-09-07T16:30:00Z").is_none());
}

#[test]
fn old_logs_are_read_without_what_is_broken_or_too_long() {
    let long = format!("\"{}\"\n", "a".repeat(MAX_BYTES));
    let file = format!("{{\"n\":1}}\nnot json\n{long}{{\"n\":2}}");
    let log = recover(file.as_bytes());
    assert_eq!(log.len(), 2);
    assert_eq!(log.line(0), b"{\"n\":1}\n");
    assert_eq!(log.line(1), b"{\"n\":2}\n");
}

#[test]
fn diagnostics_keep_their_event_and_fit() {
    let mut values: TextMap<Json> = TextMap::new();
    values.insert("event".to_string(), Json::text("rust_panic"));
    values.insert("message".to_string(), Json::text("short"));
    let line = diagnostic("2026-09-07T16:30:00Z", "ERROR", &values).unwrap();
    assert_eq!(*line.last().unwrap(), b'\n');
    let entry = json::parse(&line).unwrap();
    assert_eq!(entry.at("level").as_str(), Some("ERROR"));
    assert_eq!(entry.at("target").as_str(), Some("gopher::lifecycle"));
    assert_eq!(entry.at("fields").at("message").as_str(), Some("short"));
    assert!(entry.at("fields").get("truncated").is_none());

    values.insert("message".to_string(), Json::text(&format!("isolated panic {}", "ø\n".repeat(20_000))));
    let line = diagnostic("2026-09-07T16:30:00Z", "ERROR", &values).unwrap();
    assert!(line.len() <= MAX_BYTES);
    let entry = json::parse(&line).unwrap();
    assert_eq!(entry.at("fields").at("event").as_str(), Some("rust_panic"));
    assert_eq!(entry.at("fields").at("truncated").as_bool(), Some(true));
    assert!(entry.at("fields").at("message").as_str().unwrap().starts_with("isolated panic"));

    values.insert("event".to_string(), Json::text(&"e".repeat(MAX_BYTES)));
    assert_eq!(
        diagnostic("2026-09-07T16:30:00Z", "ERROR", &values).unwrap_err(),
        "Diagnostic metadata exceeds log size limit"
    );
}
