use parallel_world::logs::{
    assemble_log_chunk, closed_logs_to_remove, complete_lines_range, missing_log_chunk,
    finish_log_rotation, plan_log_read, plan_log_write, rotated_log_file_name, should_complete_cut_line,
    truncate_utf8_bytes, split_complete_lines, ClosedLog, TechnicalLogAccess, LogRotationState, TechnicalLogCursor, LOG_FILE_LIMIT,
    LOG_LINE_LIMIT, LOG_READ_LIMIT,
};

#[test]
fn long_lines_are_cut_on_a_character_boundary() {
    let ascii = "x".repeat(20 * 1024);
    assert_eq!(truncate_utf8_bytes(&ascii).len(), LOG_LINE_LIMIT);
    let wide = "あ".repeat(10_000);
    let cut = truncate_utf8_bytes(&wide);
    assert!(cut.len() <= LOG_LINE_LIMIT);
    assert!(cut.len() > LOG_LINE_LIMIT - 3);
    assert!(wide.starts_with(&cut));
    assert_eq!(truncate_utf8_bytes("short line"), "short line");
}

#[test]
fn read_plans_continue_current_cursors_and_reset_stale_ones() {
    let fresh = plan_log_read(None, 0, 200_000);
    assert_eq!(fresh.offset, 200_000 - LOG_READ_LIMIT);
    assert!(!fresh.reset);

    let current = plan_log_read(Some(TechnicalLogCursor { generation: 0, offset: 150 }), 0, 200);
    assert_eq!(current.offset, 150);
    assert!(!current.reset);

    let rotated = plan_log_read(Some(TechnicalLogCursor { generation: 0, offset: 150 }), 1, 20);
    assert!(rotated.reset);
    assert_eq!(rotated.offset, 0);

    let past_end = plan_log_read(Some(TechnicalLogCursor { generation: 1, offset: 50 }), 1, 20);
    assert!(past_end.reset);

    let missing = missing_log_chunk(Some(TechnicalLogCursor { generation: 0, offset: 9 }), 2);
    assert!(missing.reset);
    assert!(missing.lines.is_empty());
    assert_eq!(missing.next_cursor, TechnicalLogCursor { generation: 2, offset: 0 });
}

#[test]
fn only_complete_lines_are_returned() {
    assert_eq!(complete_lines_range(b"one\ntwo\npart", false), (0, 8));
    assert_eq!(complete_lines_range(b"tail\nnext\n", true), (5, 10));
    assert_eq!(complete_lines_range(b"no newline", true), (0, 0));
    assert!(should_complete_cut_line(&vec![b'x'; LOG_READ_LIMIT as usize]));
    let mut ended = vec![b'x'; LOG_READ_LIMIT as usize - 1];
    ended.push(b'\n');
    assert!(!should_complete_cut_line(&ended));
    assert!(!should_complete_cut_line(b"short"));

    let plan = plan_log_read(Some(TechnicalLogCursor { generation: 3, offset: 10 }), 3, 100);
    let lines = vec!["next-line".to_owned(), "x".repeat(LOG_LINE_LIMIT + 5)];
    let chunk = assemble_log_chunk(plan, 3, 100, 40, &lines);
    assert_eq!(chunk.lines[0], "next-line");
    assert_eq!(chunk.lines[1].len(), LOG_LINE_LIMIT);
    assert_eq!(chunk.next_cursor, TechnicalLogCursor { generation: 3, offset: 50 });
    assert!(chunk.has_more);
    assert!(!chunk.reset);
    let done = assemble_log_chunk(plan, 3, 100, 0, &Vec::new());
    assert!(!done.has_more);
}

#[test]
fn writes_rotate_a_full_log_and_never_overfill_it() {
    let mut state = LogRotationState { sequence: 0, generation: 0 };
    let half = (LOG_FILE_LIMIT / 2 + 1) as usize;

    let first = plan_log_write(&mut state, 0, half);
    assert_eq!(first.rotate_with_sequence, None);
    assert_eq!(first.segment_len, half);

    let second = plan_log_write(&mut state, half as u64, half);
    assert_eq!(second.rotate_with_sequence, None);
    assert_eq!(second.segment_len as u64, LOG_FILE_LIMIT - half as u64);

    let third = plan_log_write(&mut state, LOG_FILE_LIMIT, 10);
    assert_eq!(third.rotate_with_sequence, Some(0));
    assert_eq!(third.segment_len, 10);
    assert_eq!(state, LogRotationState { sequence: 1, generation: 0 });
    finish_log_rotation(&mut state);
    assert_eq!(state, LogRotationState { sequence: 1, generation: 1 });

    let huge = plan_log_write(&mut state, 0, (LOG_FILE_LIMIT * 6) as usize);
    assert_eq!(huge.segment_len as u64, LOG_FILE_LIMIT);

    assert_eq!(rotated_log_file_name(1700, 42, 7), "parallel-world-1700-42-7.log");
}

#[test]
fn retention_removes_oldest_closed_logs_until_within_policy() {
    let closed = vec![
        ClosedLog { modified: 30, bytes: 10 },
        ClosedLog { modified: 10, bytes: 10 },
        ClosedLog { modified: 20, bytes: 10 },
        ClosedLog { modified: 10, bytes: 10 },
    ];
    // Four closed logs and an active one; at most three files allowed.
    assert_eq!(closed_logs_to_remove(&closed, 5, 3, 1_000), vec![3, 1]);
    // Byte budget: 45 bytes in total, at most 30 allowed.
    assert_eq!(closed_logs_to_remove(&closed, 5, 10, 30), vec![3, 1]);
    // Within policy: nothing is removed.
    assert!(closed_logs_to_remove(&closed, 0, 4, 40).is_empty());
    // An impossible budget removes every closed log and then stops.
    assert_eq!(closed_logs_to_remove(&closed, 50, 0, 0).len(), 4);
}

#[test]
fn shared_log_state_counts_rotations_for_readers() {
    let mut access = TechnicalLogAccess::new("/logs".to_owned());
    assert_eq!(access.directory(), "/logs");
    assert_eq!(access.generation(), 0);
    let stale = TechnicalLogCursor { generation: 0, offset: 10 };
    assert!(!access.plan_read(Some(stale), 20).reset);

    let plan = access.plan_write(LOG_FILE_LIMIT, 4);
    assert_eq!(plan.rotate_with_sequence, Some(0));
    assert_eq!(access.generation(), 0);
    access.finish_rotation();
    assert_eq!(access.generation(), 1);
    assert!(access.plan_read(Some(stale), 20).reset);
    assert_eq!(access.plan_write(10, 4).rotate_with_sequence, None);
}

#[test]
fn complete_lines_are_split_like_str_lines() {
    assert_eq!(split_complete_lines(b"first\nsecond\r\n"), vec!["first", "second"]);
    assert_eq!(split_complete_lines(b""), Vec::<String>::new());
    assert_eq!(split_complete_lines(b"\n\n"), vec!["", ""]);
    assert_eq!(split_complete_lines(b"tail"), vec!["tail"]);
    assert_eq!(split_complete_lines(b"bad\xffbyte\n"), vec!["bad\u{fffd}byte"]);
}

#[test]
fn next_read_continues_at_the_previous_cursor() {
    let first = plan_log_read(None, 3, 40);
    assert_eq!(first.offset, 0);
    let appended = b"next-line\n";
    assert_eq!(complete_lines_range(appended, false), (0, 10));
    let cursor = TechnicalLogCursor { generation: 3, offset: 40 };
    let plan = plan_log_read(Some(cursor), 3, 50);
    assert_eq!(plan.offset, 40);
    assert!(!plan.reset);
    let chunk = assemble_log_chunk(plan, 3, 50, 10, &split_complete_lines(appended));
    assert_eq!(chunk.lines, vec!["next-line"]);
    assert_eq!(chunk.next_cursor, TechnicalLogCursor { generation: 3, offset: 50 });
    assert!(!chunk.has_more);
    assert!(!chunk.reset);
}
