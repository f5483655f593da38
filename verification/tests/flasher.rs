use flasher::flasher::{
    get_dest_dir, judge_answer, next_attempt, resolve_dest, Action, Attempt, CopyOrder, DestEntry,
    Event, Flasher, Notice, Outcome, Side, Stage, Step, MAX_FAILS, PROMPT, QUIT,
};
use flasher::matcher::{FlashTarget, ModuleSpec};
use flasher::scanner::FirmwareFile;

fn target(module: &str, file_name: &str, fixed: Option<&str>) -> FlashTarget {
    FlashTarget {
        module: ModuleSpec {
            name: module.to_string(),
            default_dest_dir: fixed.map(|d| d.to_string()),
        },
        source: FirmwareFile {
            path: format!("/fw/{}", file_name),
            file_name: file_name.to_string(),
            created: 1,
        },
    }
}

fn left() -> FlashTarget {
    target("left", "fw-left.uf2", None)
}

fn right() -> FlashTarget {
    target("right", "build-right.uf2", None)
}

fn copy(file_name: &str, dest_dir: &str) -> Action {
    Action::Copy(CopyOrder {
        source: format!("/fw/{}", file_name),
        dest_dir: dest_dir.to_string(),
        file_name: file_name.to_string(),
    })
}

fn processing(module: &str) -> Notice {
    Notice::Processing { module: module.to_string() }
}

fn flashing(file_name: &str, module: &str) -> Notice {
    Notice::Flashing { file_name: file_name.to_string(), module: module.to_string() }
}

fn line(text: &str) -> Event {
    Event::Line(text.to_string())
}

/// A run that has reached the first copy attempt for the left module, with
/// the destination entered at the prompt.
fn copying_left(dir: &str) -> Flasher {
    let (mut flasher, _) = Flasher::start(left(), right());
    flasher.step(line(dir));
    flasher.step(Event::DirChecked(true));
    flasher
}

#[test]
fn constants_are_as_documented() {
    assert_eq!(MAX_FAILS, 3);
    assert_eq!(QUIT, "q");
    assert_eq!(PROMPT, "Please specify a valid destination directory");
}

#[test]
fn answer_is_quit_blank_or_directory() {
    assert_eq!(judge_answer("q"), DestEntry::Quit);
    assert_eq!(judge_answer(""), DestEntry::Blank);
    assert_eq!(judge_answer("/mnt/kbd"), DestEntry::Dir("/mnt/kbd".to_string()));
    assert_eq!(judge_answer("Q"), DestEntry::Dir("Q".to_string()));
    assert_eq!(judge_answer("qq"), DestEntry::Dir("qq".to_string()));
    assert_eq!(judge_answer(" q"), DestEntry::Dir(" q".to_string()));
}

#[test]
fn line_is_trimmed_before_it_is_judged() {
    assert_eq!(get_dest_dir("q\n"), DestEntry::Quit);
    assert_eq!(get_dest_dir("  q \r\n"), DestEntry::Quit);
    assert_eq!(get_dest_dir("\n"), DestEntry::Blank);
    assert_eq!(get_dest_dir(""), DestEntry::Blank);
    assert_eq!(get_dest_dir("   \t"), DestEntry::Blank);
    assert_eq!(get_dest_dir(" /mnt/my kbd \n"), DestEntry::Dir("/mnt/my kbd".to_string()));
}

#[test]
fn attempt_is_retried_until_the_third_failure() {
    assert_eq!(next_attempt(0, false), Attempt::Retry(1));
    assert_eq!(next_attempt(1, false), Attempt::Retry(2));
    assert_eq!(next_attempt(2, false), Attempt::GiveUp);
    assert_eq!(next_attempt(3, false), Attempt::GiveUp);
    assert_eq!(next_attempt(u32::MAX, false), Attempt::GiveUp);
}

#[test]
fn successful_attempt_is_done() {
    assert_eq!(next_attempt(0, true), Attempt::Done);
    assert_eq!(next_attempt(2, true), Attempt::Done);
    assert_eq!(next_attempt(u32::MAX, true), Attempt::Done);
}

#[test]
fn destination_is_fixed_then_carried_then_asked() {
    let fixed = ModuleSpec { name: "left".to_string(), default_dest_dir: Some("/dev/a".to_string()) };
    let free = ModuleSpec { name: "left".to_string(), default_dest_dir: None };
    assert_eq!(resolve_dest(&fixed, "/mnt/b"), Some("/dev/a".to_string()));
    assert_eq!(resolve_dest(&fixed, ""), Some("/dev/a".to_string()));
    assert_eq!(resolve_dest(&free, "/mnt/b"), Some("/mnt/b".to_string()));
    assert_eq!(resolve_dest(&free, ""), None);
}

#[test]
fn notices_have_their_words() {
    assert_eq!(processing("left").message(), "Processing left module");
    assert_eq!(
        flashing("fw-left.uf2", "left").message(),
        "Flashing file fw-left.uf2 for left module"
    );
    assert_eq!(Notice::Done.message(), "Done!");
    assert_eq!(Notice::CopyFailed.message(), "Failed to copy file");
    assert_eq!(Notice::FlashingFailed.message(), "Flashing failed");
    assert_eq!(Notice::Aborted.message(), "Flashing aborted");
}

#[test]
fn run_starts_with_a_prompt_for_the_left_module() {
    let (flasher, first) = Flasher::start(left(), right());
    assert_eq!(first, Step { notices: vec![processing("left")], action: Action::Prompt });
    assert_eq!(flasher.side, Side::Left);
    assert_eq!(flasher.stage, Stage::Prompting);
    assert_eq!(flasher.dest_dir, "");
    assert_eq!(flasher.pending(), Action::Prompt);
}

#[test]
fn run_with_fixed_destination_starts_with_a_copy() {
    let (flasher, first) = Flasher::start(target("left", "fw-left.uf2", Some("/dev/a")), right());
    assert_eq!(
        first,
        Step {
            notices: vec![processing("left"), flashing("fw-left.uf2", "left")],
            action: copy("fw-left.uf2", "/dev/a"),
        }
    );
    assert_eq!(flasher.stage, Stage::Copying { fails: 0 });
    assert_eq!(flasher.dest_dir, "/dev/a");
}

#[test]
fn whole_run_succeeds() {
    let (mut flasher, _) = Flasher::start(left(), right());
    let step = flasher.step(line("/mnt/kbd\n"));
    assert_eq!(step, Step { notices: vec![], action: Action::CheckDir("/mnt/kbd".to_string()) });
    let step = flasher.step(Event::DirChecked(true));
    assert_eq!(
        step,
        Step { notices: vec![flashing("fw-left.uf2", "left")], action: copy("fw-left.uf2", "/mnt/kbd") }
    );
    let step = flasher.step(Event::CopyDone(true));
    assert_eq!(
        step,
        Step {
            notices: vec![Notice::Done, processing("right"), flashing("build-right.uf2", "right")],
            action: copy("build-right.uf2", "/mnt/kbd"),
        }
    );
    assert_eq!(flasher.side, Side::Right);
    let step = flasher.step(Event::CopyDone(true));
    assert_eq!(step, Step { notices: vec![Notice::Done], action: Action::Stop(Outcome::Completed) });
    assert_eq!(flasher.stage, Stage::Finished { outcome: Outcome::Completed });
}

#[test]
fn quit_at_the_prompt_aborts_the_run() {
    let (mut flasher, _) = Flasher::start(left(), right());
    let step = flasher.step(line("q\n"));
    assert_eq!(
        step,
        Step { notices: vec![Notice::Aborted], action: Action::Stop(Outcome::Aborted(Side::Left)) }
    );
    // the right module is never taken up, whatever is reported afterwards
    for event in [line("/mnt/kbd"), Event::DirChecked(true), Event::CopyDone(true), line("q")] {
        let step = flasher.step(event);
        assert_eq!(step, Step { notices: vec![], action: Action::Stop(Outcome::Aborted(Side::Left)) });
        assert_eq!(flasher.side, Side::Left);
    }
}

#[test]
fn quit_wins_over_a_directory_named_q() {
    let (mut flasher, _) = Flasher::start(left(), right());
    let step = flasher.step(line(" q "));
    assert_eq!(step.action, Action::Stop(Outcome::Aborted(Side::Left)));
}

#[test]
fn missing_directory_is_asked_for_again() {
    let (mut flasher, _) = Flasher::start(left(), right());
    let step = flasher.step(line("/mnt/typo\n"));
    assert_eq!(step.action, Action::CheckDir("/mnt/typo".to_string()));
    let step = flasher.step(Event::DirChecked(false));
    assert_eq!(step, Step { notices: vec![], action: Action::Prompt });
    // the second answer stands for itself; nothing of the first is left in it
    let step = flasher.step(line("/mnt/kbd\n"));
    assert_eq!(step.action, Action::CheckDir("/mnt/kbd".to_string()));
    let step = flasher.step(Event::DirChecked(true));
    assert_eq!(
        step,
        Step { notices: vec![flashing("fw-left.uf2", "left")], action: copy("fw-left.uf2", "/mnt/kbd") }
    );
    assert_eq!(flasher.dest_dir, "/mnt/kbd");
}

#[test]
fn blank_line_is_asked_for_again() {
    let (mut flasher, _) = Flasher::start(left(), right());
    for text in ["", "\n", "   \n"] {
        let step = flasher.step(line(text));
        assert_eq!(step, Step { notices: vec![], action: Action::Prompt });
        assert_eq!(flasher.stage, Stage::Prompting);
    }
}

#[test]
fn three_failed_copies_give_the_module_up() {
    let mut flasher = copying_left("/mnt/kbd");
    let step = flasher.step(Event::CopyDone(false));
    assert_eq!(step, Step { notices: vec![Notice::CopyFailed], action: copy("fw-left.uf2", "/mnt/kbd") });
    assert_eq!(flasher.stage, Stage::Copying { fails: 1 });
    let step = flasher.step(Event::CopyDone(false));
    assert_eq!(step, Step { notices: vec![Notice::CopyFailed], action: copy("fw-left.uf2", "/mnt/kbd") });
    assert_eq!(flasher.stage, Stage::Copying { fails: 2 });
    let step = flasher.step(Event::CopyDone(false));
    assert_eq!(
        step,
        Step {
            notices: vec![Notice::CopyFailed, Notice::FlashingFailed],
            action: Action::Stop(Outcome::Failed(Side::Left)),
        }
    );
    assert_eq!(flasher.stage, Stage::Finished { outcome: Outcome::Failed(Side::Left) });
}

#[test]
fn copies_are_counted_while_every_attempt_fails() {
    let (mut flasher, first) = Flasher::start(target("left", "fw-left.uf2", Some("/dev/a")), right());
    let mut action = first.action;
    let mut attempts = 0;
    while let Action::Copy(_) = action {
        attempts += 1;
        assert!(attempts <= 10);
        action = flasher.step(Event::CopyDone(false)).action;
    }
    assert_eq!(attempts, 3);
    assert_eq!(action, Action::Stop(Outcome::Failed(Side::Left)));
}

#[test]
fn failed_left_module_keeps_the_right_one_out() {
    let mut flasher = copying_left("/mnt/kbd");
    for _ in 0..3 {
        flasher.step(Event::CopyDone(false));
    }
    for event in [Event::CopyDone(true), Event::CopyDone(false), line("/mnt/kbd"), Event::DirChecked(true)] {
        let step = flasher.step(event);
        assert_eq!(step, Step { notices: vec![], action: Action::Stop(Outcome::Failed(Side::Left)) });
        assert_eq!(flasher.side, Side::Left);
    }
}

#[test]
fn copy_that_succeeds_late_goes_on_to_the_right_module() {
    let mut flasher = copying_left("/mnt/kbd");
    flasher.step(Event::CopyDone(false));
    flasher.step(Event::CopyDone(false));
    let step = flasher.step(Event::CopyDone(true));
    assert_eq!(step.action, copy("build-right.uf2", "/mnt/kbd"));
    assert_eq!(flasher.stage, Stage::Copying { fails: 0 });
    // the right module has three attempts of its own
    flasher.step(Event::CopyDone(false));
    flasher.step(Event::CopyDone(false));
    let step = flasher.step(Event::CopyDone(false));
    assert_eq!(step.action, Action::Stop(Outcome::Failed(Side::Right)));
}

#[test]
fn right_module_reuses_the_prompted_directory() {
    let mut flasher = copying_left("/mnt/kbd");
    let step = flasher.step(Event::CopyDone(true));
    assert_eq!(
        step,
        Step {
            notices: vec![Notice::Done, processing("right"), flashing("build-right.uf2", "right")],
            action: copy("build-right.uf2", "/mnt/kbd"),
        }
    );
}

#[test]
fn right_module_prefers_its_fixed_directory() {
    let (mut flasher, _) = Flasher::start(left(), target("right", "build-right.uf2", Some("/dev/b")));
    flasher.step(line("/mnt/kbd"));
    flasher.step(Event::DirChecked(true));
    let step = flasher.step(Event::CopyDone(true));
    assert_eq!(step.action, copy("build-right.uf2", "/dev/b"));
    assert_eq!(flasher.dest_dir, "/dev/b");
}

#[test]
fn right_module_reuses_the_left_fixed_directory() {
    let (mut flasher, _) = Flasher::start(target("left", "fw-left.uf2", Some("/dev/a")), right());
    let step = flasher.step(Event::CopyDone(true));
    assert_eq!(step.action, copy("build-right.uf2", "/dev/a"));
}

#[test]
fn right_module_asks_when_nothing_was_resolved() {
    let (mut flasher, _) = Flasher::start(target("left", "fw-left.uf2", Some("")), right());
    let step = flasher.step(Event::CopyDone(true));
    assert_eq!(step, Step { notices: vec![Notice::Done, processing("right")], action: Action::Prompt });
    let step = flasher.step(line("q"));
    assert_eq!(step.action, Action::Stop(Outcome::Aborted(Side::Right)));
}

#[test]
fn report_that_was_not_asked_for_changes_nothing() {
    let (mut flasher, _) = Flasher::start(left(), right());
    let step = flasher.step(Event::CopyDone(true));
    assert_eq!(step, Step { notices: vec![], action: Action::Prompt });
    let step = flasher.step(Event::DirChecked(true));
    assert_eq!(step, Step { notices: vec![], action: Action::Prompt });
    let mut flasher = copying_left("/mnt/kbd");
    let step = flasher.step(line("q"));
    assert_eq!(step, Step { notices: vec![], action: copy("fw-left.uf2", "/mnt/kbd") });
    assert_eq!(flasher.stage, Stage::Copying { fails: 0 });
}

#[test]
fn same_target_gives_the_same_copy_each_time() {
    let mut flasher = copying_left("/mnt/kbd");
    let first = flasher.copy_order();
    flasher.step(Event::CopyDone(false));
    let second = flasher.copy_order();
    assert_eq!(first, second);
    assert_eq!(first.file_name, flasher.target().source.file_name);
    assert_eq!(flasher.target(), &left());
}
