use guiorder::window::{Message, Windows, MESSAGE_WIDTH};

#[test]
fn colour_sequences_are_stripped() {
    assert_eq!(Message::strip_ansi_codes("plain text"), "plain text");
    assert_eq!(Message::strip_ansi_codes("\x1b[31merror:\x1b[0m broken"), "error: broken");
    assert_eq!(
        Message::strip_ansi_codes("\x1b[1;31merror:\x1b[0m file '\x1b[33mmd.xtc\x1b[0m' not found"),
        "error: file 'md.xtc' not found"
    );
    assert_eq!(Message::strip_ansi_codes("line\x1b[Kend"), "lineend");
    assert_eq!(Message::strip_ansi_codes("\x1b[m"), "");
    // no sequence without the bracket or the final letter
    assert_eq!(Message::strip_ansi_codes("\x1b31m"), "\x1b31m");
    assert_eq!(Message::strip_ansi_codes("[31m"), "[31m");
}

#[test]
fn colour_sequences_of_the_engine_are_stripped() {
    colored::control::set_override(true);
    let error = gorder::input::EstimateError::new(Some(1), None).unwrap_err().to_string();
    colored::control::unset_override();
    assert!(error.contains("\x1b["));
    assert_eq!(
        Message::strip_ansi_codes(&error),
        "error: number of blocks for error estimation must be at least 2, not '1'"
    );
}

#[test]
fn error_labels_are_removed() {
    assert_eq!(Message::remove_error_labels(""), "");
    assert_eq!(Message::remove_error_labels("no label"), "no label");
    assert_eq!(Message::remove_error_labels("error: broken"), "broken");
    assert_eq!(Message::remove_error_labels("error: a error: b"), "a b");
    assert_eq!(Message::remove_error_labels("error: error: twice"), "twice");
    assert_eq!(Message::remove_error_labels("error:no space"), "error:no space");
    assert_eq!(Message::remove_error_labels("terror: x"), "tx");
    assert_eq!(Message::remove_error_labels("error: "), "");
    assert_eq!(Message::remove_error_labels("error:"), "error:");
    assert_eq!(Message::remove_error_labels("errerror: or: x"), "error: x");
    for text in ["error: a", "x error: error: y", "eerror: rror: ", "žluťoučký error: kůň"] {
        assert_eq!(Message::remove_error_labels(text), text.replace("error: ", ""));
    }
}

#[test]
fn newlines_are_inserted() {
    assert_eq!(Message::insert_newlines("", 5), "");
    assert_eq!(Message::insert_newlines("abcd", 5), "abcd");
    assert_eq!(Message::insert_newlines("abcde", 5), "abcd\ne");
    assert_eq!(Message::insert_newlines("abcdefghijk", 5), "abcd\nefghi\njk");
    assert_eq!(Message::insert_newlines("ab\ncd", 5), "ab\n | cd");
    assert_eq!(Message::insert_newlines("abc\ndefghij", 5), "abc\n | defg\nhij");
    assert_eq!(Message::insert_newlines("abc", 1), "\na\nb\nc");
    assert_eq!(Message::insert_newlines("a\n\nb", 3), "a\n | \n | b");
}

#[test]
fn messages_are_composed_for_a_window() {
    assert_eq!(MESSAGE_WIDTH, 60);
    assert_eq!(Message::compose("error:", "error: could not read"), "error: could not read");
    assert_eq!(Message::compose("warning: ", "be careful"), "warning:  be careful");
    assert_eq!(Message::compose("", "done"), " done");

    let long = "x".repeat(70);
    let shown = Message::compose("error:", &long);
    let expected =
        format!("error: {}\n{}", "x".repeat(52), "x".repeat(18));
    assert_eq!(shown, expected);
}

#[test]
fn messages_are_shown_without_colours_and_labels() {
    let message = Message::Error(String::from(
        "\x1b[1;31merror:\x1b[0m could not convert (details: \x1b[33mbad\x1b[0m)",
    ));
    assert_eq!(message.label(), "error:");
    assert_eq!(message.display_text(), "error: could not convert (details: bad)");

    let message = Message::Warning(String::from("disk is\nalmost full"));
    assert_eq!(message.label(), "warning: ");
    assert_eq!(message.text(), "disk is\nalmost full");
    assert_eq!(message.display_text(), "warning:  disk is\n | almost full");

    let message = Message::Info(String::from("Analysis finished successfully."));
    assert_eq!(message.label(), "");
    assert_eq!(message.display_text(), " Analysis finished successfully.");
}

#[test]
fn windows_are_opened_under_fresh_numbers() {
    let mut windows = Windows::default();
    assert!(windows.windows.is_empty());
    assert_eq!(windows.total_spawned, 0);
    assert!(windows.can_open());

    windows.open_error_window(String::from("could not read"));
    windows.open_success_window(String::from("Analysis finished successfully."));
    windows.open_error_window(String::from("could not write"));
    assert_eq!(windows.total_spawned, 3);
    assert_eq!(windows.windows.len(), 3);

    assert_eq!(windows.windows[0].id, 0);
    assert_eq!(windows.windows[0].title, "Error!");
    assert!(windows.windows[0].open);
    assert_eq!(windows.windows[0].messages.len(), 1);
    assert!(matches!(&windows.windows[0].messages[0], Message::Error(x) if x == "could not read"));

    assert_eq!(windows.windows[1].id, 1);
    assert_eq!(windows.windows[1].title, "Success!");
    assert!(matches!(
        &windows.windows[1].messages[0],
        Message::Info(x) if x == "Analysis finished successfully."
    ));
    assert_eq!(windows.windows[2].id, 2);
}

#[test]
fn closed_windows_are_removed() {
    let mut windows = Windows::default();
    for i in 0..6 {
        windows.open_error_window(format!("error {}", i));
    }
    windows.remove_closed();
    assert_eq!(windows.windows.len(), 6);

    windows.windows[0].open = false;
    windows.windows[2].open = false;
    windows.windows[3].open = false;
    windows.windows[5].open = false;
    windows.remove_closed();
    let ids: Vec<usize> = windows.windows.iter().map(|w| w.id).collect();
    assert_eq!(ids, vec![1, 4]);
    assert_eq!(windows.total_spawned, 6);

    // a number is not used again
    windows.open_error_window(String::from("another"));
    assert_eq!(windows.windows.last().unwrap().id, 6);

    for window in windows.windows.iter_mut() {
        window.open = false;
    }
    windows.remove_closed();
    assert!(windows.windows.is_empty());
    assert_eq!(windows.total_spawned, 7);
}

#[test]
fn no_window_is_opened_when_the_count_is_exhausted() {
    let windows = Windows { windows: Vec::new(), total_spawned: usize::MAX };
    assert!(!windows.can_open());
}
