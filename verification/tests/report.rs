use rapid_reporter::assets::{icon_kinds, icons_dir, screenshot_asset_path, screenshots_dir};
use rapid_reporter::clock::{FIRST_MILLISECOND, LAST_MILLISECOND};
use rapid_reporter::{
    export_dir_name, local_start, markdown_file_name, render_report, start_at_offset,
    started_line, CopyOutcome, IconKind, LocalStart, Note, ReportError, Session,
};

fn note(note_type: &str, text: &str) -> Note {
    Note { note_type: note_type.to_string(), text: text.to_string() }
}

fn start(zone: &str) -> LocalStart {
    LocalStart {
        stamp: "2023-11-14-2213".to_string(),
        date: "14 November 2023".to_string(),
        time: "22:13".to_string(),
        zone: zone.to_string(),
    }
}

fn unused(n: usize) -> Vec<CopyOutcome> {
    let mut outcomes = Vec::new();
    for _ in 0..n {
        outcomes.push(Err(String::new()));
    }
    outcomes
}

fn smoke_test() -> Session {
    Session {
        tester_name: None,
        charter: "Smoke test".to_string(),
        duration_minutes: None,
        started_at: 1700000000000,
        notes: vec![note("bug", "crash on save"), note("note", "looks fine")],
    }
}

#[test]
fn smoke_test_session_exports_summary_and_notes_oldest_first() {
    let session = smoke_test();
    let started = local_start(session.started_at).expect("a valid timestamp");
    let md = render_report(&session, &started, &unused(2), "1.2.3");

    assert!(md.contains("## Summary"));
    assert!(md.contains("<img src=\"assets/icons/bug.png\" width=\"50\" valign=\"middle\"> 1 Bug\n"));
    let notes_at = md.find("## Notes").expect("a notes section");
    assert!(md.find("## Summary").expect("a summary") < notes_at);
    let fine_at = md[notes_at..].find("looks fine").expect("the plain note");
    let crash_at = md[notes_at..]
        .find("<img src=\"assets/icons/bug.png\" width=\"50\" valign=\"middle\"> crash on save")
        .expect("the bug note");
    assert!(fine_at < crash_at);
}

#[test]
fn report_is_exact() {
    let session = smoke_test();
    let md = render_report(&session, &start("+01:00"), &unused(2), "0.1.0");
    assert_eq!(
        md,
        "# Rapid Reporter Session\n\n\
         - **Charter**: Smoke test\n\
         - **Started**: 14 November 2023 22:13 +01:00\n\
         \n\
         ## Summary\n\n\
         <img src=\"assets/icons/bug.png\" width=\"50\" valign=\"middle\"> 1 Bug\n\n\
         ## Notes\n\n\
         looks fine\n\n\
         <img src=\"assets/icons/bug.png\" width=\"50\" valign=\"middle\"> crash on save\n\n\
         ---\n\
         Generated by Rapid Reporter v0.1.0\n"
    );
}

#[test]
fn report_without_icon_notes_has_no_summary() {
    let session = Session {
        tester_name: Some("  Ada  ".to_string()),
        charter: "  Explore login ".to_string(),
        duration_minutes: Some(45),
        started_at: 1700000000000,
        notes: vec![note("snippet", "let x = 1;"), note("test", "## Summary is only text here")],
    };
    let md = render_report(&session, &start("+00:00"), &unused(2), "2.0.0");
    assert_eq!(
        md,
        "# Rapid Reporter Session\n\n\
         - **Tester**: Ada\n\
         - **Charter**: Explore login\n\
         - **Started**: 14 November 2023 22:13 GMT\n\
         - **Duration**: 45 minutes\n\
         \n\
         ## Notes\n\n\
         ## Summary is only text here\n\n\
         ```\nlet x = 1;\n```\n\n\
         ---\n\
         Generated by Rapid Reporter v2.0.0\n"
    );
}

#[test]
fn report_of_empty_session() {
    let session = Session {
        tester_name: None,
        charter: String::new(),
        duration_minutes: None,
        started_at: 0,
        notes: Vec::new(),
    };
    let md = render_report(&session, &start("CET"), &unused(0), "1.0.0");
    assert_eq!(
        md,
        "# Rapid Reporter Session\n\n\
         - **Charter**: \n\
         - **Started**: 14 November 2023 22:13 CET\n\
         \n\
         ## Notes\n\n\
         ---\n\
         Generated by Rapid Reporter v1.0.0\n"
    );
}

#[test]
fn blank_tester_is_left_out() {
    let mut session = smoke_test();
    session.tester_name = Some(" \t ".to_string());
    let md = render_report(&session, &start("+01:00"), &unused(2), "1.0.0");
    assert!(!md.contains("**Tester**"));
    session.tester_name = Some(String::new());
    let md = render_report(&session, &start("+01:00"), &unused(2), "1.0.0");
    assert!(!md.contains("**Tester**"));
}

#[test]
fn duration_is_written_as_given() {
    let mut session = smoke_test();
    session.duration_minutes = Some(0);
    let md = render_report(&session, &start("+01:00"), &unused(2), "1.0.0");
    assert!(md.contains("- **Started**: 14 November 2023 22:13 +01:00\n- **Duration**: 0 minutes\n\n"));
    session.duration_minutes = Some(-5);
    let md = render_report(&session, &start("+01:00"), &unused(2), "1.0.0");
    assert!(md.contains("- **Duration**: -5 minutes\n"));
}

#[test]
fn failed_screenshot_does_not_stop_the_report() {
    let session = Session {
        tester_name: None,
        charter: "Shots".to_string(),
        duration_minutes: None,
        started_at: 1700000000000,
        notes: vec![
            note("warning", "after"),
            note("screenshot", "/nowhere/missing.png"),
            note("note", "before"),
        ],
    };
    let reason = ReportError::MissingScreenshot { path: "/nowhere/missing.png".to_string() };
    let outcomes: Vec<CopyOutcome> =
        vec![Err(String::new()), Err(reason.message()), Err(String::new())];
    let md = render_report(&session, &start("+01:00"), &outcomes, "1.0.0");
    assert!(md.contains(
        "## Notes\n\n\
         before\n\n\
         Screenshot (copy failed): /nowhere/missing.png\n\n\
         <!-- Screenshot file does not exist: /nowhere/missing.png -->\n\n\
         <img src=\"assets/icons/warning.png\" width=\"50\" valign=\"middle\"> after\n\n\
         ---\n"
    ));
}

#[test]
fn started_line_names_utc_gmt() {
    assert_eq!(started_line(&start("+00:00")), "14 November 2023 22:13 GMT");
    assert_eq!(started_line(&start("+01:00")), "14 November 2023 22:13 +01:00");
    assert_eq!(started_line(&start("-00:00")), "14 November 2023 22:13 -00:00");
    assert_eq!(started_line(&start("UTC")), "14 November 2023 22:13 UTC");
}

#[test]
fn export_names_carry_the_stamp() {
    assert_eq!(export_dir_name(&start("+00:00")), "RapidReporter-2023-11-14-2213");
    assert_eq!(markdown_file_name(&start("+00:00")), "RapidReporter-2023-11-14-2213.md");
}

fn is_digits(s: &str) -> bool {
    !s.is_empty() && s.chars().all(|c| c.is_ascii_digit())
}

#[test]
fn local_start_reads_a_timestamp() {
    let started = local_start(1700000000000).expect("a valid timestamp");
    let parts: Vec<&str> = started.stamp.split('-').collect();
    assert_eq!(parts.len(), 4);
    assert_eq!(parts[0], "2023");
    assert_eq!(parts[1], "11");
    assert!(parts[2] == "14" || parts[2] == "15");
    assert_eq!(parts[3].len(), 4);
    assert!(is_digits(parts[3]));
    assert!(parts[3].ends_with("13") || parts[3].ends_with("43") || parts[3].ends_with("58"));

    assert!(started.date == "14 November 2023" || started.date == "15 November 2023");
    assert_eq!(started.time.len(), 5);
    assert_eq!(&started.time[2..3], ":");
    assert_eq!(started.stamp[11..13], started.time[0..2]);
    assert_eq!(started.stamp[13..15], started.time[3..5]);
    assert!(!started.zone.is_empty());
}

#[test]
fn local_start_writes_single_digit_days_bare() {
    let started = local_start(1_688_385_600_000).expect("a valid timestamp");
    assert!(
        started.date == "2 July 2023" || started.date == "3 July 2023" || started.date == "4 July 2023"
    );
    assert!(started.stamp.starts_with("2023-07-0"));
}

#[test]
fn local_start_reaches_the_ends_of_the_calendar() {
    assert!(local_start(0).is_ok());
    assert!(local_start(-1).is_ok());
    assert!(local_start(FIRST_MILLISECOND).is_ok());
    assert!(local_start(LAST_MILLISECOND).is_ok());
}

#[test]
fn local_start_rejects_times_beyond_the_calendar() {
    assert_eq!(local_start(FIRST_MILLISECOND - 1).err(), Some(ReportError::InvalidStartedAt));
    assert_eq!(local_start(LAST_MILLISECOND + 1).err(), Some(ReportError::InvalidStartedAt));
    assert_eq!(local_start(i64::MIN).err(), Some(ReportError::InvalidStartedAt));
    assert_eq!(local_start(i64::MAX).err(), Some(ReportError::InvalidStartedAt));
}

#[test]
fn copied_screenshot_keeps_its_name() {
    assert_eq!(
        screenshot_asset_path("/tmp/shots/login.png", true, Some("login.png")),
        Ok("assets/screenshots/login.png".to_string())
    );
}

#[test]
fn missing_screenshot_is_reported_with_its_path() {
    assert_eq!(
        screenshot_asset_path("/tmp/gone.png", false, Some("gone.png")),
        Err(ReportError::MissingScreenshot { path: "/tmp/gone.png".to_string() })
    );
    assert_eq!(
        screenshot_asset_path("/tmp/gone.png", false, None),
        Err(ReportError::MissingScreenshot { path: "/tmp/gone.png".to_string() })
    );
}

#[test]
fn screenshot_without_file_name_is_reported() {
    assert_eq!(screenshot_asset_path("/", true, None), Err(ReportError::NoScreenshotFileName));
}

#[test]
fn asset_folders() {
    assert_eq!(icons_dir(), "assets/icons");
    assert_eq!(screenshots_dir(), "assets/screenshots");
    assert_eq!(
        icon_kinds(),
        vec![
            IconKind::Bug,
            IconKind::Idea,
            IconKind::Observation,
            IconKind::Question,
            IconKind::Warning
        ]
    );
}

#[test]
fn icon_kinds_name_their_files_and_words() {
    let files: Vec<&str> = icon_kinds().iter().map(|k| k.file_name()).collect();
    assert_eq!(files, ["bug.png", "idea.png", "observation.png", "question.png", "warning.png"]);
    assert_eq!(IconKind::from_label("bug"), Some(IconKind::Bug));
    assert_eq!(IconKind::from_label("idea"), Some(IconKind::Idea));
    assert_eq!(IconKind::from_label("observation"), Some(IconKind::Observation));
    assert_eq!(IconKind::from_label("question"), Some(IconKind::Question));
    assert_eq!(IconKind::from_label("warning"), Some(IconKind::Warning));
    assert_eq!(IconKind::from_label("Bug"), None);
    assert_eq!(IconKind::from_label("snippet"), None);
    assert_eq!(IconKind::Observation.singular_label(), "Observation");
    assert_eq!(IconKind::Observation.plural_label(), "Observations");
    assert_eq!(
        IconKind::Question.image_tag(),
        "<img src=\"assets/icons/question.png\" width=\"50\" valign=\"middle\"> "
    );
}

#[test]
fn error_messages() {
    assert_eq!(ReportError::InvalidStartedAt.message(), "Invalid session startedAt timestamp");
    assert_eq!(
        ReportError::MissingScreenshot { path: "/a b.png".to_string() }.message(),
        "Screenshot file does not exist: /a b.png"
    );
    assert_eq!(
        ReportError::NoScreenshotFileName.message(),
        "Could not determine screenshot filename"
    );
    assert_eq!(
        ReportError::MissingSource { path: "/x.png".to_string() }.message(),
        "Source file does not exist: /x.png"
    );
    assert_eq!(
        ReportError::NoScreenshotDirectory.message(),
        "Could not determine screenshot directory"
    );
    assert_eq!(ReportError::CropOutsideImage.message(), "Crop area is outside the image bounds.");
    assert_eq!(
        ReportError::SnipToolNotLaunched.message(),
        "Could not launch Windows Snipping Tool."
    );
}

fn two_digits_upto(text: &str, low: u32, high: u32) -> bool {
    text.len() == 2
        && is_digits(text)
        && text.parse::<u32>().map(|n| low <= n && n <= high).unwrap_or(false)
}

fn is_year(text: &str) -> bool {
    if text.len() == 4 {
        is_digits(text)
    } else {
        text.len() >= 5 && (text.starts_with('+') || text.starts_with('-')) && is_digits(&text[1..])
    }
}

fn has_the_shapes(start: &LocalStart) -> bool {
    let stamp = &start.stamp;
    let n = stamp.len();
    let stamp_ok = n >= 15
        && is_year(&stamp[..n - 11])
        && &stamp[n - 11..n - 10] == "-"
        && two_digits_upto(&stamp[n - 10..n - 8], 1, 12)
        && &stamp[n - 8..n - 7] == "-"
        && two_digits_upto(&stamp[n - 7..n - 5], 1, 31)
        && &stamp[n - 5..n - 4] == "-"
        && two_digits_upto(&stamp[n - 4..n - 2], 0, 23)
        && two_digits_upto(&stamp[n - 2..], 0, 59);

    let time = &start.time;
    let time_ok = time.len() == 5
        && two_digits_upto(&time[0..2], 0, 23)
        && &time[2..3] == ":"
        && two_digits_upto(&time[3..5], 0, 59);

    let months = [
        "January", "February", "March", "April", "May", "June", "July", "August", "September",
        "October", "November", "December",
    ];
    let parts: Vec<&str> = start.date.split(' ').collect();
    let date_ok = parts.len() == 3
        && !parts[0].starts_with('0')
        && parts[0].parse::<u32>().map(|d| 1 <= d && d <= 31).unwrap_or(false)
        && months.contains(&parts[1])
        && is_year(parts[2]);

    let zone = &start.zone;
    let zone_ok = (zone.len() == 6 || zone.len() == 9)
        && (zone.starts_with('+') || zone.starts_with('-'))
        && two_digits_upto(&zone[1..3], 0, 23)
        && &zone[3..4] == ":"
        && two_digits_upto(&zone[4..6], 0, 59)
        && (zone.len() == 6 || (&zone[6..7] == ":" && two_digits_upto(&zone[7..9], 1, 59)));

    stamp_ok && time_ok && date_ok && zone_ok
}

#[test]
fn local_start_texts_have_their_shapes() {
    let samples = [
        0,
        -1,
        1_700_000_000_000,
        1_688_385_600_000,
        951_782_400_000,
        -62_135_596_800_000,
        -62_198_755_200_000,
        253_402_300_799_999,
        253_402_300_800_000,
        FIRST_MILLISECOND,
        LAST_MILLISECOND,
    ];
    for millis in samples {
        let start = local_start(millis).expect("a time that the calendar reaches");
        assert!(has_the_shapes(&start), "{}: {:?}", millis, start);
    }
}

#[test]
fn local_start_signs_years_beyond_four_digits() {
    let late = local_start(400_000_000_000_000).expect("a time that the calendar reaches");
    assert!(late.stamp.starts_with("+14645-"), "{}", late.stamp);
    assert!(late.date.ends_with(" +14645"), "{}", late.date);
    let early = local_start(-100_000_000_000_000).expect("a time that the calendar reaches");
    assert!(early.stamp.starts_with("-1199-"), "{}", early.stamp);
    assert!(early.date.ends_with(" -1199"), "{}", early.date);
}

fn texts(start: &LocalStart) -> [&str; 4] {
    [&start.stamp, &start.date, &start.time, &start.zone]
}

#[test]
fn start_at_offset_writes_the_time_at_utc() {
    let start = start_at_offset(1_700_000_000_000, 0).expect("a valid timestamp");
    assert_eq!(texts(&start), ["2023-11-14-2213", "14 November 2023", "22:13", "+00:00"]);
    assert_eq!(started_line(&start), "14 November 2023 22:13 GMT");
    assert_eq!(export_dir_name(&start), "RapidReporter-2023-11-14-2213");
    assert_eq!(markdown_file_name(&start), "RapidReporter-2023-11-14-2213.md");
}

#[test]
fn start_at_offset_moves_the_clock_by_the_offset() {
    let east = start_at_offset(1_700_000_000_000, 3_600).expect("a valid timestamp");
    assert_eq!(texts(&east), ["2023-11-14-2313", "14 November 2023", "23:13", "+01:00"]);
    let far_east = start_at_offset(1_700_000_000_000, 2 * 3_600).expect("a valid timestamp");
    assert_eq!(texts(&far_east), ["2023-11-15-0013", "15 November 2023", "00:13", "+02:00"]);
    let west = start_at_offset(1_700_000_000_000, -8 * 3_600).expect("a valid timestamp");
    assert_eq!(texts(&west), ["2023-11-14-1413", "14 November 2023", "14:13", "-08:00"]);
    let half = start_at_offset(1_700_000_000_000, 5 * 3_600 + 1_800).expect("a valid timestamp");
    assert_eq!(texts(&half), ["2023-11-15-0343", "15 November 2023", "03:43", "+05:30"]);
    let odd = start_at_offset(0, 53 * 60 + 28).expect("a valid timestamp");
    assert_eq!(texts(&odd), ["1970-01-01-0053", "1 January 1970", "00:53", "+00:53:28"]);
}

#[test]
fn start_at_offset_writes_the_epoch_and_early_years() {
    let epoch = start_at_offset(0, 0).expect("a valid timestamp");
    assert_eq!(texts(&epoch), ["1970-01-01-0000", "1 January 1970", "00:00", "+00:00"]);
    let before = start_at_offset(-1, 0).expect("a valid timestamp");
    assert_eq!(texts(&before), ["1969-12-31-2359", "31 December 1969", "23:59", "+00:00"]);
    let year_one = start_at_offset(-62_135_596_800_000, 0).expect("a valid timestamp");
    assert_eq!(texts(&year_one), ["0001-01-01-0000", "1 January 0001", "00:00", "+00:00"]);
    let late = start_at_offset(253_402_300_800_000, 0).expect("a valid timestamp");
    assert_eq!(texts(&late), ["+10000-01-01-0000", "1 January +10000", "00:00", "+00:00"]);
    let early = start_at_offset(-62_198_755_200_000, 0).expect("a valid timestamp");
    assert_eq!(texts(&early), ["-0001-01-01-0000", "1 January -0001", "00:00", "+00:00"]);
}

#[test]
fn start_at_offset_rejects_times_beyond_the_calendar() {
    assert!(start_at_offset(FIRST_MILLISECOND, 0).is_ok());
    assert!(start_at_offset(LAST_MILLISECOND, 0).is_ok());
    assert!(start_at_offset(FIRST_MILLISECOND, -86_399).is_ok());
    assert!(start_at_offset(LAST_MILLISECOND, 86_399).is_ok());
    assert_eq!(
        start_at_offset(FIRST_MILLISECOND - 1, 86_399).err(),
        Some(ReportError::InvalidStartedAt)
    );
    assert_eq!(
        start_at_offset(LAST_MILLISECOND + 1, -86_399).err(),
        Some(ReportError::InvalidStartedAt)
    );
}

fn offset_of(zone: &str) -> i32 {
    let sign = if zone.starts_with('-') { -1 } else { 1 };
    let hours: i32 = zone[1..3].parse().expect("hours");
    let minutes: i32 = zone[4..6].parse().expect("minutes");
    let seconds: i32 = if zone.len() == 9 { zone[7..9].parse().expect("seconds") } else { 0 };
    sign * (hours * 3_600 + minutes * 60 + seconds)
}

#[test]
fn local_start_is_the_start_at_the_local_offset() {
    let samples = [0, 1_700_000_000_000, 1_688_385_600_000, -1, FIRST_MILLISECOND, LAST_MILLISECOND];
    for millis in samples {
        let local = local_start(millis).expect("a time that the calendar reaches");
        let offset = offset_of(&local.zone);
        assert!(-86_400 < offset && offset < 86_400);
        let fixed = start_at_offset(millis, offset).expect("a time that the calendar reaches");
        assert_eq!(texts(&local), texts(&fixed), "{}", millis);
    }
}
