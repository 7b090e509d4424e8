use maildir_monitor::examine_line;
use maildir_monitor::extract_sender;
use maildir_monitor::monitor::collect_senders;
use maildir_monitor::text::format_display_text;
use maildir_monitor::text::join_with_commas;
use maildir_monitor::text::usize_to_string;
use maildir_monitor::Error;
use maildir_monitor::Maildir;
use maildir_monitor::MaildirConfig;
use maildir_monitor::State;

fn config(label: &str, interval: u64) -> MaildirConfig {
    MaildirConfig {
        path: String::from("/var/mail/inbox"),
        label: String::from(label),
        interval,
    }
}

fn lines(raw: &[&str]) -> Vec<String> {
    raw.iter().map(|s| String::from(*s)).collect()
}

#[test]
fn empty_directory_gives_empty_idle_display() {
    let mut block = Maildir::new(config("mail", 20));
    let files: Vec<Vec<String>> = Vec::new();
    let r = block.poll(&files);
    assert_eq!(r, Ok(Some(20)));
    assert_eq!(block.display_text(), "");
    assert_eq!(block.state(), State::Idle);
}

#[test]
fn plain_from_lines_are_counted_and_joined() {
    let mut block = Maildir::new(config("mail", 20));
    let files = vec![
        lines(&["From: alice@example.com", "Subject: one", "", "body"]),
        lines(&["Date: today", "From: bob@example.com", "", "body"]),
    ];
    let r = block.poll(&files);
    assert_eq!(r, Ok(Some(20)));
    assert_eq!(block.display_text(), "mail:2 alice@example.com, bob@example.com");
    assert_eq!(block.state(), State::Warning);
}

#[test]
fn file_without_from_line_contributes_nothing() {
    let mut block = Maildir::new(config("mail", 20));
    let files = vec![
        lines(&["Subject: no sender here", "", "From the body, not a header"]),
        lines(&["From: carol@example.com"]),
    ];
    let r = block.poll(&files);
    assert_eq!(r, Ok(Some(20)));
    assert_eq!(block.display_text(), "mail:1 carol@example.com");
    assert_eq!(block.state(), State::Warning);
}

#[test]
fn extract_sender_is_none_without_from_line() {
    let message = lines(&["Subject: hello", "To: someone@example.com", "", " From: indented", "from: lowercase"]);
    assert_eq!(extract_sender(&message), None);
}

#[test]
fn extract_sender_takes_first_from_line() {
    let message = lines(&[
        "From: first@example.com",
        "From: second@example.com",
    ]);
    assert_eq!(extract_sender(&message), Some(String::from("first@example.com")));
}

#[test]
fn examine_line_matches_only_from_prefix() {
    assert_eq!(examine_line("Subject: hi"), None);
    assert_eq!(examine_line("Fro: broken"), None);
    assert_eq!(examine_line(""), None);
    assert_eq!(
        examine_line("From: carol@example.com"),
        Some(String::from("carol@example.com"))
    );
}

#[test]
fn encoded_words_decode_to_readable_sender() {
    assert_eq!(
        examine_line("From: =?UTF-8?B?aGVsbG8=?= <x@example.com>"),
        Some(String::from("hello <x@example.com>"))
    );
    assert_eq!(
        examine_line("From: =?iso-8859-1?Q?Andr=E9?= Pirard <pirard@example.com>"),
        Some(String::from("Andr\u{e9} Pirard <pirard@example.com>"))
    );
}

#[test]
fn collect_senders_keeps_scan_order_and_skips_quiet_files() {
    let files = vec![
        lines(&["From: a@example.com"]),
        lines(&["Subject: nothing"]),
        lines(&["From: b@example.com"]),
    ];
    let senders = collect_senders(&files);
    assert_eq!(senders, vec![String::from("a@example.com"), String::from("b@example.com")]);
}

#[test]
fn polling_twice_unchanged_directory_is_idempotent() {
    let mut block = Maildir::new(config("mail", 20));
    let files = vec![
        lines(&["From: a@example.com"]),
        lines(&["From: b@example.com"]),
    ];
    let r1 = block.poll(&files);
    let first = (String::from(block.display_text()), block.state());
    let r2 = block.poll(&files);
    let second = (String::from(block.display_text()), block.state());
    assert_eq!(r1, r2);
    assert_eq!(first, second);
}

#[test]
fn failed_scan_preserves_display_and_cadence() {
    let mut block = Maildir::new(config("mail", 30));
    let files = vec![lines(&["From: a@example.com"])];
    block.poll(&files).unwrap();
    let before = (String::from(block.display_text()), block.state());
    let r = block.update(Err(Error::LineReadError));
    assert_eq!(r, Err(Error::LineReadError));
    let after = (String::from(block.display_text()), block.state());
    assert_eq!(before, after);
    assert_eq!(block.poll_delay(), 30);
}

#[test]
fn every_fault_is_reported_and_leaves_the_pair() {
    let faults = [
        Error::DirectoryOpenError,
        Error::EntryListError,
        Error::MetadataError,
        Error::FileOpenError,
        Error::LineReadError,
        Error::HeaderParseError,
    ];
    for fault in faults {
        let mut block = Maildir::new(config("mail", 20));
        let files = vec![lines(&["From: a@example.com"])];
        block.poll(&files).unwrap();
        let before = (String::from(block.display_text()), block.state());
        assert_eq!(block.update(Err(fault)), Err(fault));
        let after = (String::from(block.display_text()), block.state());
        assert_eq!(before, after);
    }
}

#[test]
fn compute_state_warns_on_any_positive_count() {
    let block = Maildir::new(config("mail", 20));
    assert_eq!(block.compute_state(0), State::Idle);
    assert_eq!(block.compute_state(1), State::Warning);
    assert_eq!(block.compute_state(42), State::Warning);
}

#[test]
fn display_text_formula_is_exact() {
    let senders = vec![String::from("a@b"), String::from("c@d")];
    assert_eq!(format_display_text("mail", &senders), "mail:2 a@b, c@d");
    let one = vec![String::from("solo@example.com")];
    assert_eq!(format_display_text("inbox", &one), "inbox:1 solo@example.com");
    let none: Vec<String> = Vec::new();
    assert_eq!(format_display_text("mail", &none), "");
}

#[test]
fn count_renders_in_decimal() {
    assert_eq!(usize_to_string(0), "0");
    assert_eq!(usize_to_string(7), "7");
    assert_eq!(usize_to_string(10), "10");
    assert_eq!(usize_to_string(904), "904");
    assert_eq!(usize_to_string(10200), "10200");
}

#[test]
fn join_uses_comma_and_space() {
    let empty: Vec<String> = Vec::new();
    assert_eq!(join_with_commas(&empty), "");
    let one = vec![String::from("a")];
    assert_eq!(join_with_commas(&one), "a");
    let three = vec![String::from("a"), String::from("b"), String::from("c")];
    assert_eq!(join_with_commas(&three), "a, b, c");
}

#[test]
fn defaults_match_the_documented_configuration() {
    assert_eq!(MaildirConfig::default_path(), "/");
    assert_eq!(MaildirConfig::default_label(), "/");
    assert_eq!(MaildirConfig::default_interval(), 20);
}

#[test]
fn new_block_starts_with_placeholder_and_hex_id() {
    let block = Maildir::new(config("mail", 25));
    assert_eq!(block.display_text(), "Maildir");
    assert_eq!(block.state(), State::Idle);
    assert_eq!(block.label(), "mail");
    assert_eq!(block.path(), "/var/mail/inbox");
    assert_eq!(block.poll_delay(), 25);
    assert_eq!(block.id().len(), 32);
    assert!(block.id().chars().all(|c| c.is_ascii_hexdigit()));
}
