use morse_trainer::alphabet::{get_expected_morse, morse_map, Alphabet};
use morse_trainer::session::{classify, Key, KeyKind, Outcome, RenderOp, Session, Step};

fn tap(s: &mut Session, down: u64, up: u64) -> Step {
    let first = s.on_key(Key::Timing, KeyKind::Press, down);
    assert_eq!(first.outcome, Outcome::Running);
    s.on_key(Key::Timing, KeyKind::Release, up)
}

fn sos_alphabet() -> Alphabet {
    Alphabet::from_entries(
        vec![('S', "...".to_string()), ('O', "---".to_string())],
        "/".to_string(),
    )
}

fn text(v: &[char]) -> String {
    v.iter().collect()
}

#[test]
fn classification_boundary() {
    assert_eq!(classify(0), '.');
    assert_eq!(classify(299), '.');
    assert_eq!(classify(300), '-');
    assert_eq!(classify(5000), '-');
}

#[test]
fn press_release_boundary_in_session() {
    let a = morse_map();
    let mut s = Session::new("X", &a, 0);
    tap(&mut s, 1000, 1299);
    tap(&mut s, 2000, 2300);
    assert_eq!(text(&s.transcript()), ".-");
}

#[test]
fn press_draws_dot_and_release_corrects_to_dash() {
    let a = morse_map();
    let mut s = Session::new("X", &a, 0);
    let down = s.on_key(Key::Timing, KeyKind::Press, 10);
    assert_eq!(down.render, vec![RenderOp::Append('.')]);
    assert!(s.is_pressed());
    let up = s.on_key(Key::Timing, KeyKind::Release, 500);
    assert_eq!(up.render, vec![RenderOp::OverwriteLast('-')]);
    assert!(!s.is_pressed());
    assert_eq!(s.keypresses(), 1);
}

#[test]
fn held_key_escalates_on_tick() {
    let a = morse_map();
    let mut s = Session::new("X", &a, 0);
    s.on_key(Key::Timing, KeyKind::Press, 100);
    assert!(s.on_tick(399).render.is_empty());
    assert_eq!(s.on_tick(400).render, vec![RenderOp::OverwriteLast('-')]);
    assert!(s.on_tick(450).render.is_empty());
    let up = s.on_key(Key::Timing, KeyKind::Release, 700);
    assert!(up.render.is_empty());
    assert_eq!(text(&s.transcript()), "-");
}

#[test]
fn repeat_events_are_ignored() {
    let a = morse_map();
    let mut s = Session::new("X", &a, 0);
    s.on_key(Key::Timing, KeyKind::Press, 0);
    let rep = s.on_key(Key::Timing, KeyKind::Repeat, 50);
    assert!(rep.render.is_empty());
    let again = s.on_key(Key::Timing, KeyKind::Press, 60);
    assert!(again.render.is_empty());
    s.on_key(Key::Timing, KeyKind::Release, 100);
    assert_eq!(s.keypresses(), 1);
    assert_eq!(text(&s.transcript()), ".");
}

#[test]
fn stray_release_is_noop() {
    let a = morse_map();
    let mut s = Session::new("...", &a, 0);
    let step = s.on_key(Key::Timing, KeyKind::Release, 40);
    assert!(step.render.is_empty());
    assert_eq!(step.outcome, Outcome::Running);
    assert_eq!(s.keypresses(), 0);
    assert_eq!(text(&s.transcript()), "");
    tap(&mut s, 50, 60);
    s.on_key(Key::Timing, KeyKind::Release, 70);
    assert_eq!(s.keypresses(), 1);
    assert_eq!(text(&s.transcript()), ".");
}

#[test]
fn letter_commit_on_empty_buffer_is_noop() {
    let a = morse_map();
    let mut s = Session::new("X", &a, 0);
    let step = s.on_key(Key::LetterCommit, KeyKind::Press, 5);
    assert!(step.render.is_empty());
    tap(&mut s, 10, 20);
    let commit = s.on_key(Key::LetterCommit, KeyKind::Press, 30);
    assert_eq!(commit.render, vec![RenderOp::Append(' ')]);
    s.on_key(Key::LetterCommit, KeyKind::Press, 40);
    tap(&mut s, 50, 60);
    assert_eq!(text(&s.transcript()), ". .");
}

#[test]
fn word_commit_flushes_then_adds_separator() {
    let a = morse_map();
    let mut s = Session::new("X", &a, 0);
    tap(&mut s, 0, 10);
    let step = s.on_key(Key::WordCommit, KeyKind::Press, 20);
    assert_eq!(
        step.render,
        vec![RenderOp::Append(' '), RenderOp::Append('/'), RenderOp::Append(' ')]
    );
    tap(&mut s, 30, 400);
    assert_eq!(text(&s.transcript()), ". / -");
    s.on_key(Key::LetterCommit, KeyKind::Press, 410);
    let bare = s.on_key(Key::WordCommit, KeyKind::Press, 420);
    assert_eq!(bare.render, vec![RenderOp::Append('/'), RenderOp::Append(' ')]);
    assert_eq!(text(&s.transcript()), ". / - /");
}

#[test]
fn other_keys_are_ignored() {
    let a = morse_map();
    let mut s = Session::new("X", &a, 0);
    tap(&mut s, 0, 10);
    let step = s.on_key(Key::Other, KeyKind::Press, 20);
    assert!(step.render.is_empty());
    assert_eq!(step.outcome, Outcome::Running);
    assert_eq!(text(&s.transcript()), ".");
}

#[test]
fn hello_matches_without_trailing_commit() {
    let a = morse_map();
    let expected = get_expected_morse("HELLO", &a);
    assert_eq!(expected, ".... . .-.. .-.. ---");
    let mut s = Session::new(&expected, &a, 0);
    let letters = ["....", ".", ".-..", ".-..", "---"];
    let mut t: u64 = 0;
    let mut last = Outcome::Running;
    for (k, letter) in letters.iter().enumerate() {
        for sym in letter.chars() {
            let held = if sym == '.' { 100 } else { 400 };
            let step = tap(&mut s, t, t + held);
            last = step.outcome;
            t += held + 100;
        }
        if k + 1 < letters.len() {
            assert_eq!(last, Outcome::Running);
            s.on_key(Key::LetterCommit, KeyKind::Press, t);
        }
    }
    assert_eq!(last, Outcome::Matched);
    assert_eq!(s.keypresses(), 16);
}

#[test]
fn sos_end_to_end() {
    let a = sos_alphabet();
    let expected = get_expected_morse("SOS", &a);
    assert_eq!(expected, "... --- ...");
    let mut s = Session::new(&expected, &a, 0);
    let mut t: u64 = 0;
    for _ in 0..3 {
        assert_eq!(tap(&mut s, t, t + 50).outcome, Outcome::Running);
        t += 100;
    }
    assert_eq!(s.on_key(Key::LetterCommit, KeyKind::Press, t).outcome, Outcome::Running);
    for _ in 0..3 {
        assert_eq!(tap(&mut s, t, t + 350).outcome, Outcome::Running);
        t += 400;
    }
    assert_eq!(s.on_key(Key::LetterCommit, KeyKind::Press, t).outcome, Outcome::Running);
    let mut last = Outcome::Running;
    for _ in 0..3 {
        last = tap(&mut s, t, t + 50).outcome;
        t += 100;
    }
    assert_eq!(last, Outcome::Matched);
    let report = s.finish(t);
    assert_eq!(text(&report.transcript), "... --- ...");
    assert_eq!(text(&report.expected), "... --- ...");
    assert_eq!(report.keypresses, 9);
    assert_eq!(report.elapsed_ms, t);
}

#[test]
fn cancel_mid_session_reports_partial_transcript() {
    let a = sos_alphabet();
    let expected = get_expected_morse("SOS", &a);
    let mut s = Session::new(&expected, &a, 1000);
    tap(&mut s, 1100, 1150);
    tap(&mut s, 1200, 1250);
    let step = s.on_key(Key::Cancel, KeyKind::Press, 1300);
    assert_eq!(step.outcome, Outcome::Cancelled);
    assert!(step.render.is_empty());
    let report = s.finish(1500);
    assert_eq!(text(&report.transcript), "..");
    assert_ne!(report.transcript, report.expected);
    assert_eq!(report.keypresses, 2);
    assert_eq!(report.elapsed_ms, 500);
}

#[test]
fn empty_expected_matches_at_once() {
    let a = morse_map();
    let expected = get_expected_morse("", &a);
    let mut s = Session::new(&expected, &a, 0);
    assert!(s.is_complete());
    assert_eq!(s.on_tick(1).outcome, Outcome::Matched);
}

#[test]
fn report_elapsed_is_zero_when_clock_is_behind_start() {
    let a = morse_map();
    let s = Session::new("...", &a, 100);
    assert_eq!(s.finish(50).elapsed_ms, 0);
}
