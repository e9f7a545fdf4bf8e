use job_schedule_shell::entry::JobNumberInput;
use job_schedule_shell::navigation::{MainApp, MainAppState, TickInput, TickOutcome};
use job_schedule_shell::{parse_job_number, sanitize, JobNumber};

type Sched = Vec<u32>;

fn quiet() -> TickInput {
    TickInput { escape_pressed: false, enter_pressed: false, confirm_clicked: false, edited_text: None }
}

fn escape() -> TickInput {
    TickInput { escape_pressed: true, ..quiet() }
}

fn enter() -> TickInput {
    TickInput { enter_pressed: true, ..quiet() }
}

fn type_text(text: &str) -> TickInput {
    TickInput { edited_text: Some(text.to_string()), ..quiet() }
}

fn entry_text(app: &MainApp<Sched>) -> Option<String> {
    match &app.state {
        MainAppState::JobNumberInput(i) => Some(i.text().to_string()),
        MainAppState::ScheduleEditor(_) => None,
    }
}

fn entry_with(text: &str) -> MainApp<Sched> {
    let mut app: MainApp<Sched> = MainApp::new(None);
    assert_eq!(app.update(&type_text(text)), TickOutcome::Continue);
    app
}

#[test]
fn sanitize_keeps_digits_only() {
    assert_eq!(sanitize("12a3#4"), "1234");
    assert_eq!(sanitize(""), "");
    assert_eq!(sanitize("abc"), "");
    assert_eq!(sanitize(" 0 9\u{e9}\u{661}7"), "097");
}

#[test]
fn sanitize_twice_is_sanitize_once() {
    for s in ["12a3#4", "", "x", "007", "a1b2c3", "\u{661}5"] {
        let once = sanitize(s);
        assert_eq!(sanitize(&once), once);
        assert!(once.chars().all(|c| c.is_ascii_digit()));
    }
}

#[test]
fn parse_accepts_digit_strings() {
    assert_eq!(parse_job_number("4821"), Some(JobNumber { value: 4821 }));
    assert_eq!(parse_job_number("0"), Some(JobNumber { value: 0 }));
    assert_eq!(parse_job_number("007"), Some(JobNumber { value: 7 }));
    assert_eq!(parse_job_number("18446744073709551615"), Some(JobNumber { value: u64::MAX }));
}

#[test]
fn parse_rejects_other_text() {
    assert_eq!(parse_job_number(""), None);
    assert_eq!(parse_job_number("12a"), None);
    assert_eq!(parse_job_number("+12"), None);
    assert_eq!(parse_job_number(" 12"), None);
    assert_eq!(parse_job_number("18446744073709551616"), None);
    assert_eq!(parse_job_number("99999999999999999999999"), None);
}

#[test]
fn confirm_on_empty_is_no_op() {
    let mut app: MainApp<Sched> = MainApp::new(None);
    assert_eq!(app.update(&enter()), TickOutcome::Continue);
    assert_eq!(entry_text(&app), Some(String::new()));
    assert_eq!(app.update(&quiet()), TickOutcome::Continue);
    assert_eq!(entry_text(&app), Some(String::new()));
    let clicked = TickInput { confirm_clicked: true, ..quiet() };
    assert_eq!(app.update(&clicked), TickOutcome::Continue);
    assert_eq!(app.update(&quiet()), TickOutcome::Continue);
    assert_eq!(entry_text(&app), Some(String::new()));
}

#[test]
fn successful_parse_transitions_once() {
    let mut app = entry_with("4821");
    assert_eq!(app.update(&enter()), TickOutcome::Continue);
    match &app.state {
        MainAppState::JobNumberInput(i) => assert_eq!(i.get(), Some(JobNumber { value: 4821 })),
        MainAppState::ScheduleEditor(_) => panic!("schedule opened on the confirming tick"),
    }
    assert_eq!(app.update(&quiet()), TickOutcome::Continue);
    match &app.state {
        MainAppState::ScheduleEditor(e) => {
            assert_eq!(e.job_num, JobNumber { value: 4821 });
            assert_eq!(e.schedule, Sched::default());
        }
        MainAppState::JobNumberInput(_) => panic!("no schedule opened"),
    }
    assert_eq!(app.update(&quiet()), TickOutcome::Continue);
    assert!(matches!(&app.state, MainAppState::ScheduleEditor(e) if e.job_num.value == 4821));
}

#[test]
fn unparseable_confirm_keeps_input() {
    let mut app = entry_with("99999999999999999999999");
    assert_eq!(app.update(&enter()), TickOutcome::Continue);
    assert_eq!(app.update(&quiet()), TickOutcome::Continue);
    assert_eq!(entry_text(&app), Some("99999999999999999999999".to_string()));
}

#[test]
fn escape_clears_nonempty() {
    let mut app = entry_with("17");
    assert_eq!(entry_text(&app), Some("17".to_string()));
    assert_eq!(app.update(&escape()), TickOutcome::Continue);
    assert_eq!(entry_text(&app), Some(String::new()));
}

#[test]
fn escape_exits_on_empty() {
    let mut app: MainApp<Sched> = MainApp::new(None);
    assert_eq!(app.update(&escape()), TickOutcome::Close);
    assert_eq!(entry_text(&app), Some(String::new()));
}

#[test]
fn escape_preempts_confirm() {
    let mut app = entry_with("5");
    let both = TickInput { escape_pressed: true, enter_pressed: true, ..quiet() };
    assert_eq!(app.update(&both), TickOutcome::Continue);
    assert_eq!(app.update(&quiet()), TickOutcome::Continue);
    assert_eq!(entry_text(&app), Some(String::new()));
}

#[test]
fn escape_from_view_returns_to_entry() {
    for n in [0u64, 99, u64::MAX] {
        let mut app: MainApp<Sched> = MainApp::new(Some(JobNumber { value: n }));
        assert_eq!(app.update(&quiet()), TickOutcome::Continue);
        assert!(matches!(&app.state, MainAppState::ScheduleEditor(_)));
        assert_eq!(app.update(&escape()), TickOutcome::Continue);
        assert_eq!(entry_text(&app), Some(String::new()));
    }
}

#[test]
fn filter_rejects_non_digits() {
    let mut app: MainApp<Sched> = MainApp::new(None);
    let typed = "12a3#4";
    let expected = ["1", "12", "12", "123", "123", "1234"];
    let mut field = String::new();
    for (k, c) in typed.chars().enumerate() {
        field = entry_text(&app).unwrap();
        field.push(c);
        assert_eq!(app.update(&type_text(&field)), TickOutcome::Continue);
        assert_eq!(entry_text(&app), Some(expected[k].to_string()));
    }
    assert_eq!(field, "1234");
    assert_eq!(entry_text(&app), Some("1234".to_string()));
}

#[test]
fn startup_bypass() {
    let app: MainApp<Sched> = MainApp::from_startup_arg(Some("99"));
    match &app.state {
        MainAppState::ScheduleEditor(e) => {
            assert_eq!(e.job_num, JobNumber { value: 99 });
            assert_eq!(e.schedule, Sched::default());
        }
        MainAppState::JobNumberInput(_) => panic!("entry screen shown"),
    }
}

#[test]
fn startup_without_or_with_bad_number() {
    let none: MainApp<Sched> = MainApp::from_startup_arg(None);
    assert_eq!(entry_text(&none), Some(String::new()));
    let bad: MainApp<Sched> = MainApp::from_startup_arg(Some("9x"));
    assert_eq!(entry_text(&bad), Some(String::new()));
}

#[test]
fn entry_screen_on_its_own() {
    let mut input = JobNumberInput::new();
    assert_eq!(input.get(), None);
    input.update(&type_text("4a2"));
    assert_eq!(input.text(), "42");
    assert_eq!(input.get(), None);
    input.update(&TickInput { confirm_clicked: true, ..quiet() });
    assert_eq!(input.get(), Some(JobNumber { value: 42 }));
}
