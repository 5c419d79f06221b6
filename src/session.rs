use vstd::prelude::*;

use crate::alphabet::{join_spaced, Alphabet};

verus! {

/// Presses held at least this many milliseconds make a dash; shorter ones
/// make a dot.
pub const DASH_THRESHOLD_MS: u64 = 300;

/// The keys the session tells apart.
#[derive(Clone, Copy, Debug, PartialEq, Eq, Structural)]
pub enum Key {
    /// The key whose press duration gives a dot or a dash.
    Timing,
    /// Ends the letter being typed.
    LetterCommit,
    /// Ends the letter being typed and the word.
    WordCommit,
    /// Ends the session at once.
    Cancel,
    /// Any key the session ignores.
    Other,
}

/// The kind of a key transition.
#[derive(Clone, Copy, Debug, PartialEq, Eq, Structural)]
pub enum KeyKind {
    Press,
    Release,
    /// Sent by the terminal while a key is held; never a new press.
    Repeat,
}

/// One change to the live display.
#[derive(Clone, Copy, Debug, PartialEq, Eq, Structural)]
pub enum RenderOp {
    /// Write the character after what is shown.
    Append(char),
    /// Move back one place and write the character over the last one shown.
    OverwriteLast(char),
}

/// Whether the session goes on after a step.
#[derive(Clone, Copy, Debug, PartialEq, Eq, Structural)]
pub enum Outcome {
    Running,
    /// What was typed equals the expected sequence.
    Matched,
    /// The cancel key was pressed.
    Cancelled,
}

/// What the caller does after handing the session an event or a tick:
/// apply `render` in order, then stop unless `outcome` is `Running`.
pub struct Step {
    pub render: Vec<RenderOp>,
    pub outcome: Outcome,
}

/// The summary of a finished session.
pub struct Report {
    pub expected: Vec<char>,
    pub transcript: Vec<char>,
    pub elapsed_ms: u64,
    pub keypresses: u64,
}

/// The abstract state of a session.
pub struct SessionModel {
    /// The sequence to reproduce.
    pub expected: Seq<char>,
    /// The token a word commit adds.
    pub separator: Seq<char>,
    /// The letters and separators accepted so far.
    pub committed: Seq<Seq<char>>,
    /// The dots and dashes of the letter being typed.
    pub current: Seq<char>,
    /// When the timing key went down, while it is held.
    pub press_start: Option<u64>,
    /// The glyph last shown for the timing key.
    pub displayed: char,
    /// Completed press-release cycles.
    pub keypresses: u64,
    /// When the session began.
    pub start: u64,
}

/// Milliseconds from `from` to `to`; zero where the clock went back.
pub open spec fn elapsed_ms(from: u64, to: u64) -> u64 {
    if to >= from {
        (to - from) as u64
    } else {
        0
    }
}

/// The symbol a press held for `elapsed` milliseconds makes.
pub open spec fn symbol_for(elapsed: u64) -> char {
    if elapsed < DASH_THRESHOLD_MS {
        '.'
    } else {
        '-'
    }
}

/// The committed tokens followed by the letter being typed, if any.
pub open spec fn flushed(m: SessionModel) -> Seq<Seq<char>> {
    if m.current.len() > 0 {
        m.committed.push(m.current)
    } else {
        m.committed
    }
}

/// The transcript: every token typed so far, the unfinished letter
/// included, joined by single spaces.
pub open spec fn transcript(m: SessionModel) -> Seq<char> {
    join_spaced(flushed(m))
}

/// The termination predicate: the transcript equals the expected sequence.
pub open spec fn is_complete(m: SessionModel) -> bool {
    transcript(m) == m.expected
}

/// The display change that writes `c`.
pub open spec fn append_op(c: char) -> RenderOp {
    RenderOp::Append(c)
}

/// One `Append` for each character of `s`, in order.
pub open spec fn appends(s: Seq<char>) -> Seq<RenderOp> {
    s.map_values(|c: char| append_op(c))
}

/// The space a word commit draws first for the letter it flushes, if any.
pub open spec fn word_lead(m: SessionModel) -> Seq<RenderOp> {
    if m.current.len() > 0 {
        seq![RenderOp::Append(' ')]
    } else {
        Seq::empty()
    }
}

/// The state after a key event, before the hold check.
pub open spec fn after_key(m: SessionModel, key: Key, kind: KeyKind, now: u64) -> SessionModel {
    match key {
        Key::Timing => match kind {
            KeyKind::Press => if m.press_start is None {
                SessionModel { press_start: Some(now), displayed: '.', ..m }
            } else {
                m
            },
            KeyKind::Release => match m.press_start {
                Some(t) => {
                    let sym = symbol_for(elapsed_ms(t, now));
                    SessionModel {
                        current: m.current.push(sym),
                        keypresses: (m.keypresses + 1) as u64,
                        press_start: None,
                        displayed: sym,
                        ..m
                    }
                },
                None => m,
            },
            KeyKind::Repeat => m,
        },
        Key::LetterCommit => if kind is Press {
            SessionModel { committed: flushed(m), current: Seq::empty(), ..m }
        } else {
            m
        },
        Key::WordCommit => if kind is Press {
            SessionModel { committed: flushed(m).push(m.separator), current: Seq::empty(), ..m }
        } else {
            m
        },
        _ => m,
    }
}

/// The display changes a key event makes, before the hold check.
pub open spec fn key_render(m: SessionModel, key: Key, kind: KeyKind, now: u64) -> Seq<RenderOp> {
    match key {
        Key::Timing => match kind {
            KeyKind::Press => if m.press_start is None {
                seq![RenderOp::Append('.')]
            } else {
                Seq::empty()
            },
            KeyKind::Release => match m.press_start {
                Some(t) => {
                    let sym = symbol_for(elapsed_ms(t, now));
                    if m.displayed != sym {
                        seq![RenderOp::OverwriteLast(sym)]
                    } else {
                        Seq::empty()
                    }
                },
                None => Seq::empty(),
            },
            KeyKind::Repeat => Seq::empty(),
        },
        Key::LetterCommit => if kind is Press && m.current.len() > 0 {
            seq![RenderOp::Append(' ')]
        } else {
            Seq::empty()
        },
        Key::WordCommit => if kind is Press {
            word_lead(m) + appends(m.separator).push(RenderOp::Append(' '))
        } else {
            Seq::empty()
        },
        _ => Seq::empty(),
    }
}

/// Whether the glyph of a held key is due to flip from dot to dash.
pub open spec fn hold_escalates(m: SessionModel, now: u64) -> bool {
    &&& m.press_start is Some
    &&& elapsed_ms(m.press_start->0, now) >= DASH_THRESHOLD_MS
    &&& m.displayed == '.'
}

/// The state after the hold check.
pub open spec fn after_hold(m: SessionModel, now: u64) -> SessionModel {
    if hold_escalates(m, now) {
        SessionModel { displayed: '-', ..m }
    } else {
        m
    }
}

/// The display changes the hold check makes.
pub open spec fn hold_render(m: SessionModel, now: u64) -> Seq<RenderOp> {
    if hold_escalates(m, now) {
        seq![RenderOp::OverwriteLast('-')]
    } else {
        Seq::empty()
    }
}

/// Whether the event completes a press-release cycle, and so adds one to
/// the press count.
pub open spec fn counts_press(key: Key, kind: KeyKind, m: SessionModel) -> bool {
    key is Timing && kind is Release && m.press_start is Some
}

/// The state after a key event: a cancel changes nothing; any other event
/// is handled, then the hold check runs.
pub open spec fn next_state(m: SessionModel, key: Key, kind: KeyKind, now: u64) -> SessionModel {
    if key is Cancel {
        m
    } else {
        after_hold(after_key(m, key, kind, now), now)
    }
}

/// The display changes of a key event, the hold check's included.
pub open spec fn next_render(m: SessionModel, key: Key, kind: KeyKind, now: u64) -> Seq<RenderOp> {
    if key is Cancel {
        Seq::empty()
    } else {
        key_render(m, key, kind, now) + hold_render(after_key(m, key, kind, now), now)
    }
}

/// How the session stands after a key event.
pub open spec fn next_outcome(m: SessionModel, key: Key, kind: KeyKind, now: u64) -> Outcome {
    if key is Cancel {
        Outcome::Cancelled
    } else if is_complete(next_state(m, key, kind, now)) {
        Outcome::Matched
    } else {
        Outcome::Running
    }
}

/// The symbol for a press held `elapsed_ms` milliseconds: a dot below the
/// threshold, a dash at or above it.
pub fn classify(elapsed_ms: u64) -> (r: char)
    ensures
        r == symbol_for(elapsed_ms),
{
    if elapsed_ms < DASH_THRESHOLD_MS {
        '.'
    } else {
        '-'
    }
}

fn elapsed_between(from: u64, to: u64) -> (r: u64)
    ensures
        r == elapsed_ms(from, to),
{
    if to >= from {
        to - from
    } else {
        0
    }
}

/// The characters of `s`.
fn chars_of(s: &str) -> (r: Vec<char>)
    ensures
        r@ == s@,
{
    let n = s.unicode_len();
    let mut r: Vec<char> = Vec::new();
    let mut i: usize = 0;
    while i < n
        invariant
            n == s@.len(),
            0 <= i <= n,
            r@ == s@.subrange(0, i as int),
        decreases n - i,
    {
        r.push(s.get_char(i));
        i = i + 1;
    }
    r
}

fn append_chars(dst: &mut Vec<char>, src: &Vec<char>)
    ensures
        final(dst)@ == old(dst)@ + src@,
{
    let mut i: usize = 0;
    while i < src.len()
        invariant
            0 <= i <= src@.len(),
            dst@ == old(dst)@ + src@.subrange(0, i as int),
        decreases src@.len() - i,
    {
        dst.push(src[i]);
        i = i + 1;
    }
}

fn same_chars(a: &Vec<char>, b: &Vec<char>) -> (r: bool)
    ensures
        r == (a@ == b@),
{
    if a.len() != b.len() {
        return false;
    }
    let mut i: usize = 0;
    while i < a.len()
        invariant
            a@.len() == b@.len(),
            0 <= i <= a@.len(),
            forall|j: int| 0 <= j < i ==> a@[j] == b@[j],
        decreases a@.len() - i,
    {
        if a[i] != b[i] {
            return false;
        }
        i = i + 1;
    }
    assert(a@ =~= b@);
    true
}

/// One practice session: turns timed key events into dots, dashes, letters
/// and words, tells the caller what to show, and says when to stop.
pub struct Session {
    expected: Vec<char>,
    separator: Vec<char>,
    committed: Vec<Vec<char>>,
    current: Vec<char>,
    press_start: Option<u64>,
    displayed: char,
    keypress_count: u64,
    start_ms: u64,
}

impl View for Session {
    type V = SessionModel;

    closed spec fn view(&self) -> SessionModel {
        SessionModel {
            expected: self.expected@,
            separator: self.separator@,
            committed: self.committed@.map_values(|t: Vec<char>| t@),
            current: self.current@,
            press_start: self.press_start,
            displayed: self.displayed,
            keypresses: self.keypress_count,
            start: self.start_ms,
        }
    }
}

impl Session {
    /// A session that expects `expected`, uses the word separator of
    /// `alphabet`, and began at `start_ms`.
    pub fn new(expected: &str, alphabet: &Alphabet, start_ms: u64) -> (r: Session)
        ensures
            r@ == (SessionModel {
                expected: expected@,
                separator: alphabet.separator_view(),
                committed: Seq::empty(),
                current: Seq::empty(),
                press_start: None,
                displayed: ' ',
                keypresses: 0,
                start: start_ms,
            }),
    {
        let r = Session {
            expected: chars_of(expected),
            separator: chars_of(alphabet.separator()),
            committed: Vec::new(),
            current: Vec::new(),
            press_start: None,
            displayed: ' ',
            keypress_count: 0,
            start_ms,
        };
        assert(r@.committed =~= Seq::<Seq<char>>::empty());
        r
    }

    /// Moves the unfinished letter, if any, into the committed tokens.
    fn flush(&mut self)
        ensures
            final(self)@ == (SessionModel { committed: flushed(old(self)@), current: Seq::empty(), ..old(self)@ }),
    {
        if self.current.len() > 0 {
            let mut taken: Vec<char> = Vec::new();
            core::mem::swap(&mut taken, &mut self.current);
            self.committed.push(taken);
            assert(self@.committed =~= flushed(old(self)@));
        }
        assert(self@.current =~= Seq::<char>::empty());
    }

    /// The transcript: committed tokens and the unfinished letter, joined
    /// by single spaces.
    pub fn transcript(&self) -> (r: Vec<char>)
        ensures
            r@ == transcript(self@),
    {
        let ghost toks = self@.committed;
        let mut r: Vec<char> = Vec::new();
        let mut i: usize = 0;
        while i < self.committed.len()
            invariant
                toks == self@.committed,
                0 <= i <= toks.len(),
                r@ == join_spaced(toks.subrange(0, i as int)),
            decreases toks.len() - i,
        {
            assert(toks.subrange(0, i + 1).drop_last() =~= toks.subrange(0, i as int));
            if i > 0 {
                r.push(' ');
            }
            append_chars(&mut r, &self.committed[i]);
            proof {
                if i == 0 {
                    assert(r@ =~= toks.subrange(0, 1)[0]);
                } else {
                    assert(r@ =~= join_spaced(toks.subrange(0, i as int)) + seq![' '] + toks[i as int]);
                }
            }
            i = i + 1;
        }
        assert(toks.subrange(0, toks.len() as int) =~= toks);
        if self.current.len() > 0 {
            assert(toks.push(self@.current).drop_last() =~= toks);
            if self.committed.len() > 0 {
                r.push(' ');
            }
            append_chars(&mut r, &self.current);
            proof {
                if toks.len() == 0 {
                    assert(r@ =~= toks.push(self@.current)[0]);
                }
            }
        }
        r
    }

    /// Whether the transcript equals the expected sequence.
    pub fn is_complete(&self) -> (r: bool)
        ensures
            r == is_complete(self@),
    {
        let t = self.transcript();
        same_chars(&t, &self.expected)
    }

    /// Flips the glyph of a key held past the threshold from dot to dash.
    fn check_hold(&mut self, now: u64, render: &mut Vec<RenderOp>)
        ensures
            final(self)@ == after_hold(old(self)@, now),
            final(render)@ == old(render)@ + hold_render(old(self)@, now),
    {
        match self.press_start {
            Some(t) => {
                if elapsed_between(t, now) >= DASH_THRESHOLD_MS && self.displayed == '.' {
                    render.push(RenderOp::OverwriteLast('-'));
                    self.displayed = '-';
                }
            },
            None => {},
        }
        assert(render@ =~= old(render)@ + hold_render(old(self)@, now));
    }
    /// Handles one key event, then runs the hold check and the termination
    /// check. A cancel ends the session at once and changes nothing.
    pub fn on_key(&mut self, key: Key, kind: KeyKind, now: u64) -> (r: Step)
        requires
            counts_press(key, kind, old(self)@) ==> old(self)@.keypresses < u64::MAX,
        ensures
            final(self)@ == next_state(old(self)@, key, kind, now),
            r.render@ == next_render(old(self)@, key, kind, now),
            r.outcome == next_outcome(old(self)@, key, kind, now),
    {
        let mut render: Vec<RenderOp> = Vec::new();
        match key {
            Key::Cancel => {
                return Step { render, outcome: Outcome::Cancelled };
            },
            Key::Timing => match kind {
                KeyKind::Press => {
                    if self.press_start.is_none() {
                        self.press_start = Some(now);
                        self.displayed = '.';
                        render.push(RenderOp::Append('.'));
                    }
                },
                KeyKind::Release => match self.press_start {
                    Some(t) => {
                        let sym = classify(elapsed_between(t, now));
                        if self.displayed != sym {
                            render.push(RenderOp::OverwriteLast(sym));
                        }
                        self.displayed = sym;
                        self.current.push(sym);
                        self.keypress_count = self.keypress_count + 1;
                        self.press_start = None;
                    },
                    None => {},
                },
                KeyKind::Repeat => {},
            },
            Key::LetterCommit => {
                if kind == KeyKind::Press && self.current.len() > 0 {
                    self.flush();
                    render.push(RenderOp::Append(' '));
                }
            },
            Key::WordCommit => {
                if kind == KeyKind::Press {
                    if self.current.len() > 0 {
                        render.push(RenderOp::Append(' '));
                    }
                    let ghost lead = render@;
                    assert(lead =~= word_lead(old(self)@));
                    self.flush();
                    let mut sep: Vec<char> = Vec::new();
                    append_chars(&mut sep, &self.separator);
                    let mut i: usize = 0;
                    assert(render@ =~= lead + appends(self.separator@.subrange(0, 0)));
                    while i < self.separator.len()
                        invariant
                            0 <= i <= self.separator@.len(),
                            render@ == lead + appends(self.separator@.subrange(0, i as int)),
                        decreases self.separator@.len() - i,
                    {
                        let ghost sep_view = self.separator@;
                        render.push(RenderOp::Append(self.separator[i]));
                        assert(appends(sep_view.subrange(0, i + 1)) =~= appends(
                            sep_view.subrange(0, i as int),
                        ).push(append_op(sep_view[i as int])));
                        assert(render@ =~= lead + appends(sep_view.subrange(0, i + 1)));
                        i = i + 1;
                    }
                    assert(self.separator@.subrange(0, i as int) =~= self.separator@);
                    render.push(RenderOp::Append(' '));
                    self.committed.push(sep);
                }
            },
            Key::Other => {},
        }
        let ghost mid = self@;
        assert(mid == after_key(old(self)@, key, kind, now)) by {
            assert(mid.committed =~= after_key(old(self)@, key, kind, now).committed);
            assert(mid.current =~= after_key(old(self)@, key, kind, now).current);
        }
        assert(render@ =~= key_render(old(self)@, key, kind, now));
        self.check_hold(now, &mut render);
        let outcome = if self.is_complete() {
            Outcome::Matched
        } else {
            Outcome::Running
        };
        Step { render, outcome }
    }

    /// Handles a poll timeout: runs the hold check and the termination
    /// check.
    pub fn on_tick(&mut self, now: u64) -> (r: Step)
        ensures
            final(self)@ == after_hold(old(self)@, now),
            r.render@ == hold_render(old(self)@, now),
            r.outcome == (if is_complete(final(self)@) {
                Outcome::Matched
            } else {
                Outcome::Running
            }),
    {
        let mut render: Vec<RenderOp> = Vec::new();
        self.check_hold(now, &mut render);
        assert(render@ =~= hold_render(old(self)@, now));
        let outcome = if self.is_complete() {
            Outcome::Matched
        } else {
            Outcome::Running
        };
        Step { render, outcome }
    }

    /// The summary at `now`: the expected sequence, the transcript, the
    /// time since the start and the number of presses.
    pub fn finish(&self, now: u64) -> (r: Report)
        ensures
            r.expected@ == self@.expected,
            r.transcript@ == transcript(self@),
            r.elapsed_ms == elapsed_ms(self@.start, now),
            r.keypresses == self@.keypresses,
    {
        let mut expected: Vec<char> = Vec::new();
        append_chars(&mut expected, &self.expected);
        Report {
            expected,
            transcript: self.transcript(),
            elapsed_ms: elapsed_between(self.start_ms, now),
            keypresses: self.keypress_count,
        }
    }

    /// Completed press-release cycles.
    pub fn keypresses(&self) -> (r: u64)
        ensures
            r == self@.keypresses,
    {
        self.keypress_count
    }

    /// Whether the timing key is held.
    pub fn is_pressed(&self) -> (r: bool)
        ensures
            r == (self@.press_start is Some),
    {
        self.press_start.is_some()
    }
}



/// The dot/dash threshold is fixed and inclusive on the dash side: a press
/// is a dash exactly when it lasted at least the threshold, so 299 ms gives
/// a dot and 300 ms a dash.
pub proof fn dash_exactly_from_threshold(elapsed: u64)
    ensures
        symbol_for(elapsed) == '-' <==> elapsed >= DASH_THRESHOLD_MS,
        symbol_for(elapsed) == '.' <==> elapsed < DASH_THRESHOLD_MS,
        symbol_for(299) == '.',
        symbol_for(300) == '-',
{
}

/// A release of the timing key while it is held appends the classified
/// symbol to the letter being typed and counts one press: for a press held
/// 300 ms or more that symbol is a dash, below it a dot.
pub proof fn release_appends_classified_symbol(m: SessionModel, now: u64)
    requires
        m.press_start is Some,
        m.keypresses < u64::MAX,
    ensures
        ({
            let sym = symbol_for(elapsed_ms(m.press_start->0, now));
            let after = next_state(m, Key::Timing, KeyKind::Release, now);
            &&& after.current == m.current.push(sym)
            &&& after.committed == m.committed
            &&& after.keypresses == m.keypresses + 1
            &&& after.press_start is None
            &&& (sym == '-' <==> elapsed_ms(m.press_start->0, now) >= DASH_THRESHOLD_MS)
        }),
{
}

/// A release of the timing key while it is not held is no symbol: the
/// session, its buffers and its press count stay as they were, and nothing
/// is drawn.
pub proof fn stray_release_changes_nothing(m: SessionModel, now: u64)
    requires
        m.press_start is None,
    ensures
        next_state(m, Key::Timing, KeyKind::Release, now) == m,
        next_render(m, Key::Timing, KeyKind::Release, now) == Seq::<RenderOp>::empty(),
{
    assert(next_render(m, Key::Timing, KeyKind::Release, now) =~= Seq::<RenderOp>::empty());
}

/// The cancel key ends the session whatever was typed, and changes neither
/// the state nor the display.
pub proof fn cancel_ends_at_once(m: SessionModel, kind: KeyKind, now: u64)
    ensures
        next_state(m, Key::Cancel, kind, now) == m,
        next_render(m, Key::Cancel, kind, now) == Seq::<RenderOp>::empty(),
        next_outcome(m, Key::Cancel, kind, now) == Outcome::Cancelled,
{
}

/// The last letter need not be committed: with every earlier letter
/// committed and the last one in the buffer, the session is complete.
pub proof fn buffered_last_letter_completes(m: SessionModel, letters: Seq<Seq<char>>)
    requires
        letters.len() > 0,
        letters.last().len() > 0,
        m.committed == letters.drop_last(),
        m.current == letters.last(),
        m.expected == join_spaced(letters),
    ensures
        is_complete(m),
{
    assert(flushed(m) =~= letters);
}

/// The release that ends the last symbol of the last letter ends the
/// session with a match, with no commit key pressed after it.
pub proof fn final_release_matches(m: SessionModel, letters: Seq<Seq<char>>, now: u64)
    requires
        m.press_start is Some,
        m.keypresses < u64::MAX,
        letters.len() > 0,
        m.committed == letters.drop_last(),
        m.current.push(symbol_for(elapsed_ms(m.press_start->0, now))) == letters.last(),
        m.expected == join_spaced(letters),
    ensures
        next_outcome(m, Key::Timing, KeyKind::Release, now) == Outcome::Matched,
{
    let after = next_state(m, Key::Timing, KeyKind::Release, now);
    buffered_last_letter_completes(after, letters);
}

} // verus!
