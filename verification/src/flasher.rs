//! The interactive flasher, as a state machine.
//!
//! The caller does the outside work: it shows the notices, asks the operator
//! for a line, looks whether a directory exists, copies a file. After each
//! piece of work it reports what happened as an [`Event`], and learns from
//! [`Flasher::step`] what to do next.

use crate::matcher::{FlashTarget, FlashTargetView, ModuleSpec, ModuleSpecView};
use crate::text::{same_text, trim, trimmed};
use vstd::prelude::*;
use vstd::string::StringExecFns;

verus! {

/// How many times the copy of one module's image may fail before the module
/// is given up.
pub const MAX_FAILS: u32 = 3;

/// What the operator enters at the destination prompt to give up.
pub const QUIT: &'static str = "q";

/// What the operator is asked at the destination prompt.
pub const PROMPT: &'static str = "Please specify a valid destination directory";

/// The two modules, in the order in which they are flashed.
#[derive(Clone, Copy, Debug, PartialEq, Eq, Structural)]
pub enum Side {
    Left,
    Right,
}

/// How a run ended.
#[derive(Clone, Copy, Debug, PartialEq, Eq, Structural)]
pub enum Outcome {
    /// Both modules were flashed.
    Completed,
    /// Every copy attempt for this module failed.
    Failed(Side),
    /// The operator gave up at the destination prompt for this module.
    Aborted(Side),
}

/// What the operator's answer at the destination prompt amounts to.
#[derive(Debug, PartialEq, Eq)]
pub enum DestEntry {
    /// The operator gives up.
    Quit,
    /// Nothing was entered.
    Blank,
    /// A directory to try.
    Dir(String),
}

/// What a [`DestEntry`] stands for.
pub enum DestEntryView {
    Quit,
    Blank,
    Dir(Seq<char>),
}

impl View for DestEntry {
    type V = DestEntryView;

    open spec fn view(&self) -> DestEntryView {
        match self {
            DestEntry::Quit => DestEntryView::Quit,
            DestEntry::Blank => DestEntryView::Blank,
            DestEntry::Dir(dir) => DestEntryView::Dir(dir@),
        }
    }
}

/// What an answer amounts to once the white space around it is gone.
pub open spec fn dest_entry(answer: Seq<char>) -> DestEntryView {
    if answer == QUIT@ {
        DestEntryView::Quit
    } else if answer.len() == 0 {
        DestEntryView::Blank
    } else {
        DestEntryView::Dir(answer)
    }
}

/// Judges an answer from which the surrounding white space has been taken.
pub fn judge_answer(answer: &str) -> (r: DestEntry)
    ensures
        r@ == dest_entry(answer@),
{
    if same_text(answer, QUIT) {
        DestEntry::Quit
    } else if answer.unicode_len() == 0 {
        DestEntry::Blank
    } else {
        DestEntry::Dir(String::from_str(answer))
    }
}

/// Reads the operator's answer at the destination prompt: the line without
/// the white space around it is the quit sign, nothing, or a directory to
/// try.
pub fn get_dest_dir(line: &str) -> (r: DestEntry)
    ensures
        r@ == dest_entry(trimmed(line@)),
{
    judge_answer(trim(line))
}

/// What follows a copy attempt.
#[derive(Clone, Copy, Debug, PartialEq, Eq, Structural)]
pub enum Attempt {
    /// The copy succeeded.
    Done,
    /// The copy failed and is tried again; so many attempts have failed.
    Retry(u32),
    /// The copy failed for the last time.
    GiveUp,
}

/// What follows a copy attempt that was made after `fails` failed ones.
pub open spec fn after_attempt(fails: u32, copied: bool) -> Attempt {
    if copied {
        Attempt::Done
    } else if fails + 1 < MAX_FAILS {
        Attempt::Retry((fails + 1) as u32)
    } else {
        Attempt::GiveUp
    }
}

/// Decides what follows a copy attempt that was made after `fails` failed
/// ones.
pub fn next_attempt(fails: u32, copied: bool) -> (r: Attempt)
    ensures
        r == after_attempt(fails, copied),
{
    if copied {
        Attempt::Done
    } else if fails < MAX_FAILS - 1 {
        Attempt::Retry(fails + 1)
    } else {
        Attempt::GiveUp
    }
}

/// Where a run stands: what the flasher is waiting to hear.
#[derive(Debug, PartialEq, Eq)]
pub enum Stage {
    /// The operator was asked for a destination directory.
    Prompting,
    /// The caller was asked whether the directory `candidate` exists.
    Checking { candidate: String },
    /// The caller was asked to copy the image, after `fails` failed attempts.
    Copying { fails: u32 },
    /// The run is over.
    Finished { outcome: Outcome },
}

/// What the caller reports.
#[derive(Debug, PartialEq, Eq)]
pub enum Event {
    /// The operator entered this line.
    Line(String),
    /// The directory asked about exists, or does not.
    DirChecked(bool),
    /// The copy succeeded, or failed.
    CopyDone(bool),
}

/// One copy to make: the file at `source` goes into the directory
/// `dest_dir`, under the name `file_name`, replacing what is there.
#[derive(Debug, PartialEq, Eq)]
pub struct CopyOrder {
    pub source: String,
    pub dest_dir: String,
    pub file_name: String,
}

/// What the caller is to do next.
#[derive(Debug, PartialEq, Eq)]
pub enum Action {
    /// Ask the operator for a destination directory and report the line.
    Prompt,
    /// Report whether this directory exists.
    CheckDir(String),
    /// Make this copy and report whether it succeeded.
    Copy(CopyOrder),
    /// Stop: the run is over.
    Stop(Outcome),
}

/// Something to tell the operator.
#[derive(Debug, PartialEq, Eq)]
pub enum Notice {
    /// Work on a module begins.
    Processing { module: String },
    /// A module's image is about to be copied.
    Flashing { file_name: String, module: String },
    /// A copy succeeded.
    Done,
    /// A copy failed.
    CopyFailed,
    /// A module was given up after too many failed copies.
    FlashingFailed,
    /// The operator gave up.
    Aborted,
}

/// What one step hands to the caller: what to tell the operator, in order,
/// and what to do then.
#[derive(Debug, PartialEq, Eq)]
pub struct Step {
    pub notices: Vec<Notice>,
    pub action: Action,
}

/// The state of a run.
#[derive(Debug, PartialEq, Eq)]
pub struct Flasher {
    pub left: FlashTarget,
    pub right: FlashTarget,
    /// The module that is being worked on.
    pub side: Side,
    /// The destination directory that was last resolved; empty if none was.
    pub dest_dir: String,
    pub stage: Stage,
}

/// What a [`Stage`] stands for.
pub enum StageView {
    Prompting,
    Checking { candidate: Seq<char> },
    Copying { fails: u32 },
    Finished { outcome: Outcome },
}

/// What an [`Event`] stands for.
pub enum EventView {
    Line(Seq<char>),
    DirChecked(bool),
    CopyDone(bool),
}

/// What a [`CopyOrder`] stands for.
pub struct CopyOrderView {
    pub source: Seq<char>,
    pub dest_dir: Seq<char>,
    pub file_name: Seq<char>,
}

/// What an [`Action`] stands for.
pub enum ActionView {
    Prompt,
    CheckDir(Seq<char>),
    Copy(CopyOrderView),
    Stop(Outcome),
}

/// What a [`Notice`] stands for.
pub enum NoticeView {
    Processing { module: Seq<char> },
    Flashing { file_name: Seq<char>, module: Seq<char> },
    Done,
    CopyFailed,
    FlashingFailed,
    Aborted,
}

/// What a [`Flasher`] stands for.
pub struct FlasherView {
    pub left: FlashTargetView,
    pub right: FlashTargetView,
    pub side: Side,
    pub dest_dir: Seq<char>,
    pub stage: StageView,
}

impl View for Stage {
    type V = StageView;

    open spec fn view(&self) -> StageView {
        match self {
            Stage::Prompting => StageView::Prompting,
            Stage::Checking { candidate } => StageView::Checking { candidate: candidate@ },
            Stage::Copying { fails } => StageView::Copying { fails: *fails },
            Stage::Finished { outcome } => StageView::Finished { outcome: *outcome },
        }
    }
}

impl View for Event {
    type V = EventView;

    open spec fn view(&self) -> EventView {
        match self {
            Event::Line(text) => EventView::Line(text@),
            Event::DirChecked(exists) => EventView::DirChecked(*exists),
            Event::CopyDone(copied) => EventView::CopyDone(*copied),
        }
    }
}

impl View for CopyOrder {
    type V = CopyOrderView;

    open spec fn view(&self) -> CopyOrderView {
        CopyOrderView {
            source: self.source@,
            dest_dir: self.dest_dir@,
            file_name: self.file_name@,
        }
    }
}

impl View for Action {
    type V = ActionView;

    open spec fn view(&self) -> ActionView {
        match self {
            Action::Prompt => ActionView::Prompt,
            Action::CheckDir(dir) => ActionView::CheckDir(dir@),
            Action::Copy(order) => ActionView::Copy(order@),
            Action::Stop(outcome) => ActionView::Stop(*outcome),
        }
    }
}

impl View for Notice {
    type V = NoticeView;

    open spec fn view(&self) -> NoticeView {
        match self {
            Notice::Processing { module } => NoticeView::Processing { module: module@ },
            Notice::Flashing { file_name, module } => NoticeView::Flashing {
                file_name: file_name@,
                module: module@,
            },
            Notice::Done => NoticeView::Done,
            Notice::CopyFailed => NoticeView::CopyFailed,
            Notice::FlashingFailed => NoticeView::FlashingFailed,
            Notice::Aborted => NoticeView::Aborted,
        }
    }
}

impl View for Flasher {
    type V = FlasherView;

    open spec fn view(&self) -> FlasherView {
        FlasherView {
            left: self.left@,
            right: self.right@,
            side: self.side,
            dest_dir: self.dest_dir@,
            stage: self.stage@,
        }
    }
}

/// The words of a notice.
pub open spec fn notice_text(notice: NoticeView) -> Seq<char> {
    match notice {
        NoticeView::Processing { module } => "Processing "@ + module + " module"@,
        NoticeView::Flashing { file_name, module } => "Flashing file "@ + file_name + " for "@
            + module + " module"@,
        NoticeView::Done => "Done!"@,
        NoticeView::CopyFailed => "Failed to copy file"@,
        NoticeView::FlashingFailed => "Flashing failed"@,
        NoticeView::Aborted => "Flashing aborted"@,
    }
}

impl Notice {
    /// The line to show to the operator.
    pub fn message(&self) -> (r: String)
        ensures
            r@ == notice_text(self@),
    {
        match self {
            Notice::Processing { module } => {
                let mut line = String::from_str("Processing ");
                line.append(module.as_str());
                line.append(" module");
                line
            },
            Notice::Flashing { file_name, module } => {
                let mut line = String::from_str("Flashing file ");
                line.append(file_name.as_str());
                line.append(" for ");
                line.append(module.as_str());
                line.append(" module");
                line
            },
            Notice::Done => String::from_str("Done!"),
            Notice::CopyFailed => String::from_str("Failed to copy file"),
            Notice::FlashingFailed => String::from_str("Flashing failed"),
            Notice::Aborted => String::from_str("Flashing aborted"),
        }
    }
}

/// The views of a run of notices.
pub open spec fn notice_views(notices: Seq<Notice>) -> Seq<NoticeView> {
    notices.map_values(|n: Notice| n@)
}

/// A state together with what was said on the way to it.
pub struct Advance {
    pub state: FlasherView,
    pub notices: Seq<NoticeView>,
}

impl FlasherView {
    /// The target of the module that is being worked on.
    pub open spec fn target(self) -> FlashTargetView {
        match self.side {
            Side::Left => self.left,
            Side::Right => self.right,
        }
    }

    /// The copy that serves the current module.
    pub open spec fn copy_order(self) -> CopyOrderView {
        CopyOrderView {
            source: self.target().source.path,
            dest_dir: self.dest_dir,
            file_name: self.target().source.file_name,
        }
    }

    /// What the caller is asked to do in this state.
    pub open spec fn pending(self) -> ActionView {
        match self.stage {
            StageView::Prompting => ActionView::Prompt,
            StageView::Checking { candidate } => ActionView::CheckDir(candidate),
            StageView::Copying { fails } => ActionView::Copy(self.copy_order()),
            StageView::Finished { outcome } => ActionView::Stop(outcome),
        }
    }

    /// The state in which the run is over with `outcome`.
    pub open spec fn finished(self, outcome: Outcome) -> FlasherView {
        FlasherView { stage: StageView::Finished { outcome }, ..self }
    }

    /// The first copy attempt for the current module, into `dir`: the
    /// directory is remembered, the copy is announced.
    pub open spec fn begin_copy(self, dir: Seq<char>, said: Seq<NoticeView>) -> Advance {
        Advance {
            state: FlasherView { dest_dir: dir, stage: StageView::Copying { fails: 0 }, ..self },
            notices: said.push(
                NoticeView::Flashing {
                    file_name: self.target().source.file_name,
                    module: self.target().module.name,
                },
            ),
        }
    }

    /// Work on the module `side` begins: its destination is its fixed
    /// directory if it has one, else the directory that was resolved
    /// before, else the operator is asked.
    pub open spec fn enter(self, side: Side, said: Seq<NoticeView>) -> Advance {
        let at = FlasherView { side, ..self };
        let hello = said.push(NoticeView::Processing { module: at.target().module.name });
        match resolved_dest(at.target().module, self.dest_dir) {
            Some(dir) => at.begin_copy(dir, hello),
            None => Advance {
                state: FlasherView { stage: StageView::Prompting, ..at },
                notices: hello,
            },
        }
    }

    /// The state and the notices that follow from `event`. An event that
    /// does not answer what was asked changes nothing.
    pub open spec fn next(self, event: EventView) -> Advance {
        match (self.stage, event) {
            (StageView::Prompting, EventView::Line(text)) => match dest_entry(trimmed(text)) {
                DestEntryView::Quit => Advance {
                    state: self.finished(Outcome::Aborted(self.side)),
                    notices: seq![NoticeView::Aborted],
                },
                DestEntryView::Blank => Advance { state: self, notices: seq![] },
                DestEntryView::Dir(candidate) => Advance {
                    state: FlasherView { stage: StageView::Checking { candidate }, ..self },
                    notices: seq![],
                },
            },
            (StageView::Checking { candidate }, EventView::DirChecked(exists)) => if exists {
                self.begin_copy(candidate, seq![])
            } else {
                Advance {
                    state: FlasherView { stage: StageView::Prompting, ..self },
                    notices: seq![],
                }
            },
            (StageView::Copying { fails }, EventView::CopyDone(copied)) => match after_attempt(
                fails,
                copied,
            ) {
                Attempt::Done => match self.side {
                    Side::Left => self.enter(Side::Right, seq![NoticeView::Done]),
                    Side::Right => Advance {
                        state: self.finished(Outcome::Completed),
                        notices: seq![NoticeView::Done],
                    },
                },
                Attempt::Retry(failed) => Advance {
                    state: FlasherView { stage: StageView::Copying { fails: failed }, ..self },
                    notices: seq![NoticeView::CopyFailed],
                },
                Attempt::GiveUp => Advance {
                    state: self.finished(Outcome::Failed(self.side)),
                    notices: seq![NoticeView::CopyFailed, NoticeView::FlashingFailed],
                },
            },
            _ => Advance { state: self, notices: seq![] },
        }
    }
}

/// The destination of a module, as far as it is known without asking: the
/// module's fixed directory, else the directory `carried` over from before,
/// unless that is empty.
pub open spec fn resolved_dest(module: ModuleSpecView, carried: Seq<char>) -> Option<Seq<char>> {
    match module.default_dest_dir {
        Some(dir) => Some(dir),
        None => if carried.len() > 0 {
            Some(carried)
        } else {
            None
        },
    }
}

/// How a run over `left` and `right` begins: with the left module, and no
/// directory resolved.
pub open spec fn start(left: FlashTargetView, right: FlashTargetView) -> Advance {
    let blank = FlasherView {
        left,
        right,
        side: Side::Left,
        dest_dir: Seq::empty(),
        stage: StageView::Prompting,
    };
    blank.enter(Side::Left, seq![])
}

impl FlasherView {
    /// What holds of every state that a run reaches.
    ///
    /// The operator is asked only for a module without a fixed directory,
    /// and only while no directory is resolved; a directory that is being
    /// looked for is a proper answer from the prompt. A copy goes to the
    /// module's fixed directory if it has one, else to a directory that was
    /// resolved, and fewer than [`MAX_FAILS`] attempts have failed. A run
    /// ends at the module that failed or was given up, or after the right
    /// one.
    pub open spec fn wf(self) -> bool {
        match self.stage {
            StageView::Prompting => {
                &&& self.target().module.default_dest_dir is None
                &&& self.dest_dir.len() == 0
            },
            StageView::Checking { candidate } => {
                &&& self.target().module.default_dest_dir is None
                &&& self.dest_dir.len() == 0
                &&& dest_entry(candidate) == DestEntryView::Dir(candidate)
            },
            StageView::Copying { fails } => {
                &&& fails < MAX_FAILS
                &&& match self.target().module.default_dest_dir {
                    Some(dir) => self.dest_dir == dir,
                    None => self.dest_dir.len() > 0,
                }
            },
            StageView::Finished { outcome } => match outcome {
                Outcome::Completed => self.side == Side::Right,
                Outcome::Failed(side) => self.side == side,
                Outcome::Aborted(side) => self.side == side,
            },
        }
    }

    /// The state after the events `events`, taken in order.
    pub open spec fn run(self, events: Seq<EventView>) -> FlasherView
        decreases events.len(),
    {
        if events.len() == 0 {
            self
        } else {
            self.run(events.drop_last()).next(events.last()).state
        }
    }

    /// Everything that is said while the events `events` are taken in.
    pub open spec fn said(self, events: Seq<EventView>) -> Seq<NoticeView>
        decreases events.len(),
    {
        if events.len() == 0 {
            seq![]
        } else {
            self.said(events.drop_last()) + self.run(events.drop_last()).next(
                events.last(),
            ).notices
        }
    }

    /// The state after `n` copy attempts in a row have failed.
    pub open spec fn after_failures(self, n: nat) -> FlasherView {
        self.run(Seq::new(n, |i: int| EventView::CopyDone(false)))
    }
}

/// A run begins in a state that is well formed.
pub proof fn lemma_start_is_well_formed(left: FlashTargetView, right: FlashTargetView)
    ensures
        start(left, right).state.wf(),
        start(left, right).state.side == Side::Left,
{
}

/// Every step leads from a well-formed state to a well-formed state, and
/// never from the right module back to the left one.
pub proof fn lemma_next_is_well_formed(s: FlasherView, event: EventView)
    requires
        s.wf(),
    ensures
        s.next(event).state.wf(),
        s.side == Side::Right ==> s.next(event).state.side == Side::Right,
        s.next(event).state.left == s.left,
        s.next(event).state.right == s.right,
{
}

/// Every state of a run is well formed.
pub proof fn lemma_run_is_well_formed(
    left: FlashTargetView,
    right: FlashTargetView,
    events: Seq<EventView>,
)
    ensures
        start(left, right).state.run(events).wf(),
        start(left, right).state.run(events).left == left,
        start(left, right).state.run(events).right == right,
    decreases events.len(),
{
    lemma_start_is_well_formed(left, right);
    if events.len() > 0 {
        lemma_run_is_well_formed(left, right, events.drop_last());
        lemma_next_is_well_formed(
            start(left, right).state.run(events.drop_last()),
            events.last(),
        );
    }
}

/// A run that is over stays over: whatever is reported afterwards, the state
/// does not change, nothing is said, and the caller is told to stop.
pub proof fn lemma_finished_is_final(s: FlasherView, events: Seq<EventView>)
    requires
        s.stage is Finished,
    ensures
        s.run(events) == s,
        s.said(events) == Seq::<NoticeView>::empty(),
        s.run(events).pending() is Stop,
    decreases events.len(),
{
    if events.len() > 0 {
        lemma_finished_is_final(s, events.drop_last());
    }
}

/// The retry bound: when every copy attempt for a module fails, the copy is
/// ordered [`MAX_FAILS`] times, which is three times, and then the module is
/// given up. After fewer failures the next attempt is pending; after the
/// last one the run is over, and stays so.
pub proof fn lemma_retry_bound(s: FlasherView, n: nat)
    requires
        s.stage == (StageView::Copying { fails: 0 }),
    ensures
        MAX_FAILS == 3,
        n < MAX_FAILS ==> s.after_failures(n) == (FlasherView {
            stage: StageView::Copying { fails: n as u32 },
            ..s
        }) && s.after_failures(n).pending() == ActionView::Copy(s.copy_order()),
        n >= MAX_FAILS ==> s.after_failures(n) == s.finished(Outcome::Failed(s.side))
            && s.after_failures(n).pending() == ActionView::Stop(Outcome::Failed(s.side)),
    decreases n,
{
    let fails = Seq::new(n, |i: int| EventView::CopyDone(false));
    if n > 0 {
        let fewer = Seq::new((n - 1) as nat, |i: int| EventView::CopyDone(false));
        assert(fails.drop_last() =~= fewer);
        lemma_retry_bound(s, (n - 1) as nat);
    }
}

/// The sequence of modules: the right module is taken up only when a copy
/// for the left one has succeeded.
pub proof fn lemma_right_follows_left_success(s: FlasherView, event: EventView)
    requires
        s.side == Side::Left,
        s.next(event).state.side == Side::Right,
    ensures
        s.stage is Copying,
        event == EventView::CopyDone(true),
{
}

/// When the left module fails, or the operator gives up on it, the right
/// module is never attempted: the run is over with the left module still
/// the current one, and whatever is reported afterwards, no copy is ordered.
pub proof fn lemma_left_failure_ends_run(s: FlasherView, event: EventView, later: Seq<EventView>)
    requires
        s.side == Side::Left,
        s.next(event).state.stage == (StageView::Finished { outcome: Outcome::Failed(Side::Left) })
            || s.next(event).state.stage == (StageView::Finished {
            outcome: Outcome::Aborted(Side::Left),
        }),
    ensures
        s.next(event).state.run(later) == s.next(event).state,
        s.next(event).state.run(later).side == Side::Left,
        s.next(event).state.run(later).pending() is Stop,
        s.next(event).state.said(later) == Seq::<NoticeView>::empty(),
{
    lemma_finished_is_final(s.next(event).state, later);
}

/// Reuse of the destination: when the directory that the operator entered
/// for the left module is found to exist, and the left copy succeeds after
/// `failed` failed attempts, the right module, if it has no fixed directory
/// of its own, is copied into the same directory, and the operator is not
/// asked again.
pub proof fn lemma_destination_reused(s: FlasherView, candidate: Seq<char>, failed: nat)
    requires
        s.wf(),
        s.side == Side::Left,
        s.stage == (StageView::Checking { candidate }),
        failed < MAX_FAILS,
        s.right.module.default_dest_dir is None,
    ensures
        ({
            let resolved = s.next(EventView::DirChecked(true)).state;
            let on_right = resolved.after_failures(failed).next(EventView::CopyDone(true));
            &&& resolved.dest_dir == candidate
            &&& resolved.pending() == ActionView::Copy(
                CopyOrderView {
                    source: s.left.source.path,
                    dest_dir: candidate,
                    file_name: s.left.source.file_name,
                },
            )
            &&& on_right.state.side == Side::Right
            &&& on_right.state.stage == (StageView::Copying { fails: 0 })
            &&& on_right.state.pending() == ActionView::Copy(
                CopyOrderView {
                    source: s.right.source.path,
                    dest_dir: candidate,
                    file_name: s.right.source.file_name,
                },
            )
        }),
{
    let resolved = s.next(EventView::DirChecked(true)).state;
    lemma_retry_bound(resolved, failed);
}

/// What the operator enters is what is looked for: a line that holds a
/// directory leads from the prompt to the question whether that directory,
/// the line without the white space around it, exists.
pub proof fn lemma_entered_directory_is_checked(s: FlasherView, line: Seq<char>)
    requires
        s.stage == StageView::Prompting,
    ensures
        dest_entry(trimmed(line)) is Dir ==> s.next(EventView::Line(line)).state.pending()
            == ActionView::CheckDir(trimmed(line)),
        dest_entry(trimmed(line)) is Blank ==> s.next(EventView::Line(line)).state.pending()
            == ActionView::Prompt,
        dest_entry(trimmed(line)) is Quit ==> s.next(EventView::Line(line)).state.pending()
            == ActionView::Stop(Outcome::Aborted(s.side)),
{
}

/// What an optional text stands for.
pub open spec fn text_view(text: Option<String>) -> Option<Seq<char>> {
    match text {
        Some(t) => Some(t@),
        None => None,
    }
}

/// Looks for a module's destination without asking the operator.
pub fn resolve_dest(module: &ModuleSpec, carried: &str) -> (r: Option<String>)
    ensures
        text_view(r) == resolved_dest(module@, carried@),
{
    match &module.default_dest_dir {
        Some(dir) => Some(dir.clone()),
        None => if carried.unicode_len() > 0 {
            Some(String::from_str(carried))
        } else {
            None
        },
    }
}

/// Appending a notice appends its view.
proof fn lemma_notice_pushed(notices: Seq<Notice>, notice: Notice)
    ensures
        notice_views(notices.push(notice)) == notice_views(notices).push(notice@),
{
    assert(notice_views(notices.push(notice)) =~= notice_views(notices).push(notice@));
}

/// Adds `notice` to what is to be said.
fn say(notices: &mut Vec<Notice>, notice: Notice)
    ensures
        notice_views(final(notices)@) == notice_views(old(notices)@).push(notice@),
{
    proof {
        lemma_notice_pushed(notices@, notice);
    }
    notices.push(notice);
}

impl Flasher {
    /// The target of the module that is being worked on.
    pub fn target(&self) -> (r: &FlashTarget)
        ensures
            r@ == self@.target(),
    {
        match self.side {
            Side::Left => &self.left,
            Side::Right => &self.right,
        }
    }

    /// The copy that serves the current module.
    pub fn copy_order(&self) -> (r: CopyOrder)
        ensures
            r@ == self@.copy_order(),
    {
        let target = self.target();
        CopyOrder {
            source: target.source.path.clone(),
            dest_dir: self.dest_dir.clone(),
            file_name: target.source.file_name.clone(),
        }
    }

    /// What the caller is asked to do in this state.
    pub fn pending(&self) -> (r: Action)
        ensures
            r@ == self@.pending(),
    {
        match &self.stage {
            Stage::Prompting => Action::Prompt,
            Stage::Checking { candidate } => Action::CheckDir(candidate.clone()),
            Stage::Copying { fails } => Action::Copy(self.copy_order()),
            Stage::Finished { outcome } => Action::Stop(*outcome),
        }
    }

    /// Sets out on the first copy attempt for the current module, into
    /// `dir`.
    fn begin_copy(&mut self, dir: String, notices: &mut Vec<Notice>)
        ensures
            final(self)@ == old(self)@.begin_copy(dir@, notice_views(old(notices)@)).state,
            notice_views(final(notices)@) == old(self)@.begin_copy(
                dir@,
                notice_views(old(notices)@),
            ).notices,
    {
        let target = self.target();
        let notice = Notice::Flashing {
            file_name: target.source.file_name.clone(),
            module: target.module.name.clone(),
        };
        say(notices, notice);
        self.dest_dir = dir;
        self.stage = Stage::Copying { fails: 0 };
    }

    /// Sets out on the module `side`.
    fn enter(&mut self, side: Side, notices: &mut Vec<Notice>)
        ensures
            final(self)@ == old(self)@.enter(side, notice_views(old(notices)@)).state,
            notice_views(final(notices)@) == old(self)@.enter(
                side,
                notice_views(old(notices)@),
            ).notices,
    {
        self.side = side;
        let target = self.target();
        say(notices, Notice::Processing { module: target.module.name.clone() });
        match resolve_dest(&target.module, self.dest_dir.as_str()) {
            Some(dir) => {
                self.begin_copy(dir, notices);
            },
            None => {
                self.stage = Stage::Prompting;
            },
        }
    }

    /// Begins a run over the two targets: returns the state and the first
    /// step to take.
    pub fn start(left: FlashTarget, right: FlashTarget) -> (r: (Flasher, Step))
        ensures
            r.0@ == start(left@, right@).state,
            notice_views(r.1.notices@) == start(left@, right@).notices,
            r.1.notices.len() == start(left@, right@).notices.len(),
            r.1.action@ == r.0@.pending(),
            r.0@.wf(),
    {
        let mut flasher = Flasher {
            left,
            right,
            side: Side::Left,
            dest_dir: String::new(),
            stage: Stage::Prompting,
        };
        let mut notices: Vec<Notice> = Vec::new();
        assert(notice_views(notices@) =~= seq![]);
        flasher.enter(Side::Left, &mut notices);
        let action = flasher.pending();
        assert(notice_views(notices@).len() == notices.len());
        (flasher, Step { notices, action })
    }

    /// Takes in what the caller reports and says what to do next.
    pub fn step(&mut self, event: Event) -> (r: Step)
        ensures
            final(self)@ == old(self)@.next(event@).state,
            notice_views(r.notices@) == old(self)@.next(event@).notices,
            r.notices.len() == old(self)@.next(event@).notices.len(),
            r.action@ == final(self)@.pending(),
            old(self)@.wf() ==> final(self)@.wf(),
    {
        proof {
            if self@.wf() {
                lemma_next_is_well_formed(self@, event@);
            }
        }
        let mut notices: Vec<Notice> = Vec::new();
        assert(notice_views(notices@) =~= seq![]);
        match event {
            Event::Line(text) => {
                let asked: bool = match &self.stage {
                    Stage::Prompting => true,
                    _ => false,
                };
                if asked {
                    match get_dest_dir(text.as_str()) {
                        DestEntry::Quit => {
                            self.stage = Stage::Finished { outcome: Outcome::Aborted(self.side) };
                            say(&mut notices, Notice::Aborted);
                        },
                        DestEntry::Blank => {},
                        DestEntry::Dir(candidate) => {
                            self.stage = Stage::Checking { candidate };
                        },
                    }
                }
            },
            Event::DirChecked(exists) => {
                let asked: Option<String> = match &self.stage {
                    Stage::Checking { candidate } => Some(candidate.clone()),
                    _ => None,
                };
                match asked {
                    Some(candidate) => {
                        if exists {
                            self.begin_copy(candidate, &mut notices);
                        } else {
                            self.stage = Stage::Prompting;
                        }
                    },
                    None => {},
                }
            },
            Event::CopyDone(copied) => {
                let asked: Option<u32> = match &self.stage {
                    Stage::Copying { fails } => Some(*fails),
                    _ => None,
                };
                match asked {
                    Some(fails) => match next_attempt(fails, copied) {
                        Attempt::Done => {
                            say(&mut notices, Notice::Done);
                            match self.side {
                                Side::Left => {
                                    self.enter(Side::Right, &mut notices);
                                },
                                Side::Right => {
                                    self.stage = Stage::Finished { outcome: Outcome::Completed };
                                },
                            }
                        },
                        Attempt::Retry(failed) => {
                            self.stage = Stage::Copying { fails: failed };
                            say(&mut notices, Notice::CopyFailed);
                        },
                        Attempt::GiveUp => {
                            self.stage = Stage::Finished { outcome: Outcome::Failed(self.side) };
                            say(&mut notices, Notice::CopyFailed);
                            say(&mut notices, Notice::FlashingFailed);
                        },
                    },
                    None => {},
                }
            },
        }
        let action = self.pending();
        assert(notice_views(notices@).len() == notices.len());
        Step { notices, action }
    }
}

} // verus!
