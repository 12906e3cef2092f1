use vstd::prelude::*;
use crate::video::{Playback, FRAMES_TO_SHOW, FRAME_BYTES, spec_frame_offset};

verus! {

/// The three messages the demo prints on the screen.
#[derive(Clone, Copy, PartialEq, Eq, Structural, Debug)]
pub enum Message {
    Greeting,
    NoCard,
    Done,
}

/// The literal text of each message, exactly as it is printed.
pub fn message_text(m: Message) -> (r: &'static str)
    ensures
        m == Message::Greeting ==> r@ == " Hello Rust! "@,
        m == Message::NoCard ==> r@ == " No SDCard! "@,
        m == Message::Done ==> r@ == "Done"@,
{
    match m {
        Message::Greeting => " Hello Rust! ",
        Message::NoCard => " No SDCard! ",
        Message::Done => "Done",
    }
}

/// Name of the video file looked up in the card's root directory.
pub fn video_filename() -> (r: &'static str)
    ensures
        r@ == "bmp.bin"@,
{
    "bmp.bin"
}

/// Milliseconds the demo pauses while a message stands on the screen.
pub const MESSAGE_PAUSE_MS: u32 = 800;

/// Where the demo stands.  The states follow the program's one linear
/// run: greet, wipe the screen, draw the mascot, probe the card, look
/// for the video file, play it, report, and park forever.
#[derive(Clone, Copy, PartialEq, Eq, Structural, Debug)]
pub enum DemoState {
    /// Print the greeting.
    Greet,
    /// Let the greeting stand for a pause.
    SplashPause,
    /// Clear the whole screen.
    Wiping,
    /// Draw the mascot image, centered.
    DrawingMascot,
    /// Initialize the SD card.
    ProbingCard,
    /// The card did not come up: print the failure message.
    ReportingNoCard,
    /// The card is up: open its first volume and root directory and
    /// look for the video file.
    SeekingFile,
    /// The file is there: open it for reading.
    OpeningFile,
    /// Show frames until every one is shown, then close the file.
    Playing(Playback),
    /// Print the closing message.
    Finishing,
    /// Let the closing message stand for a pause.
    FinalPause,
    /// Nothing is left to do.
    Parked,
}

/// What the surroundings report back after carrying out an action.
#[derive(Clone, Copy, PartialEq, Eq, Structural, Debug)]
pub enum DemoEvent {
    /// The action completed.
    Done,
    /// Whether the SD card initialized.
    CardUp(bool),
    /// Whether the video file is in the root directory.
    FileFound(bool),
}

/// What the demo asks its surroundings to do next.
#[derive(Clone, Copy, PartialEq, Eq, Structural, Debug)]
pub enum DemoAction {
    /// Clear the screen and print the message in the message style.
    ShowMessage(Message),
    /// Wait `MESSAGE_PAUSE_MS` milliseconds.
    Pause,
    /// Fill the whole screen black.
    ClearScreen,
    /// Blit the mascot image, centered on the screen.
    DrawMascot,
    /// Initialize the SD card; answer with `CardUp`.
    ProbeCard,
    /// Look the video file up in the root directory; answer with
    /// `FileFound`.
    SeekFile,
    /// Open the video file for reading.
    OpenFile,
    /// Read one frame at the given byte offset, blit it to the whole
    /// screen, and skip one stored frame.
    ShowFrame(u64),
    /// Close the video file.
    CloseFile,
    /// Spin forever.
    Park,
}

/// A state is well formed when a playback in it is: its cursor stands
/// where its next frame begins.
pub open spec fn state_wf(s: DemoState) -> bool {
    match s {
        DemoState::Playing(p) => p.wf(),
        _ => true,
    }
}

/// What the demo does next in each state.  While playing, it shows the
/// frame at the playback's cursor until every frame is shown, then
/// closes the file.
pub open spec fn spec_next_action(s: DemoState) -> DemoAction {
    match s {
        DemoState::Greet => DemoAction::ShowMessage(Message::Greeting),
        DemoState::SplashPause => DemoAction::Pause,
        DemoState::Wiping => DemoAction::ClearScreen,
        DemoState::DrawingMascot => DemoAction::DrawMascot,
        DemoState::ProbingCard => DemoAction::ProbeCard,
        DemoState::ReportingNoCard => DemoAction::ShowMessage(Message::NoCard),
        DemoState::SeekingFile => DemoAction::SeekFile,
        DemoState::OpeningFile => DemoAction::OpenFile,
        DemoState::Playing(p) => if p.shown < FRAMES_TO_SHOW {
            DemoAction::ShowFrame(p.cursor)
        } else {
            DemoAction::CloseFile
        },
        DemoState::Finishing => DemoAction::ShowMessage(Message::Done),
        DemoState::FinalPause => DemoAction::Pause,
        DemoState::Parked => DemoAction::Park,
    }
}

/// The transition table.  A failed card probe turns to the failure
/// report; a missing file skips playback; either way the run ends in
/// the closing message and the parked state.  An event that does not
/// answer the state's action changes nothing.
pub open spec fn spec_step(s: DemoState, e: DemoEvent) -> DemoState {
    match (s, e) {
        (DemoState::Greet, DemoEvent::Done) => DemoState::SplashPause,
        (DemoState::SplashPause, DemoEvent::Done) => DemoState::Wiping,
        (DemoState::Wiping, DemoEvent::Done) => DemoState::DrawingMascot,
        (DemoState::DrawingMascot, DemoEvent::Done) => DemoState::ProbingCard,
        (DemoState::ProbingCard, DemoEvent::CardUp(up)) => if up {
            DemoState::SeekingFile
        } else {
            DemoState::ReportingNoCard
        },
        (DemoState::ReportingNoCard, DemoEvent::Done) => DemoState::Finishing,
        (DemoState::SeekingFile, DemoEvent::FileFound(found)) => if found {
            DemoState::OpeningFile
        } else {
            DemoState::Finishing
        },
        (DemoState::OpeningFile, DemoEvent::Done) => DemoState::Playing(
            Playback { shown: 0, cursor: 0 },
        ),
        (DemoState::Playing(p), DemoEvent::Done) => if p.shown < FRAMES_TO_SHOW {
            DemoState::Playing(
                Playback {
                    shown: (p.shown + 1) as u32,
                    cursor: (p.cursor + 2 * FRAME_BYTES) as u64,
                },
            )
        } else {
            DemoState::Finishing
        },
        (DemoState::Finishing, DemoEvent::Done) => DemoState::FinalPause,
        (DemoState::FinalPause, DemoEvent::Done) => DemoState::Parked,
        (_, _) => s,
    }
}

/// Every step out of a well-formed state lands in a well-formed state:
/// however the run goes, a playback's cursor always stands where its
/// next frame begins.
pub proof fn step_preserves_wf(s: DemoState, e: DemoEvent)
    requires
        state_wf(s),
    ensures
        state_wf(spec_step(s, e)),
{
}

/// While frames remain, the frame shown next is read exactly at the
/// offset of the shown-count-th frame of the schedule.
pub proof fn playing_reads_in_order(p: Playback)
    requires
        p.wf(),
        p.shown < FRAMES_TO_SHOW,
    ensures
        spec_next_action(DemoState::Playing(p)) == DemoAction::ShowFrame(
            spec_frame_offset(p.shown as int) as u64,
        ),
{
}

impl DemoState {
    /// The state the demo starts in.
    pub fn init() -> (s: DemoState)
        ensures
            s == DemoState::Greet,
            state_wf(s),
    {
        DemoState::Greet
    }

    /// What to do in this state.
    pub fn next_action(&self) -> (a: DemoAction)
        ensures
            a == spec_next_action(*self),
    {
        match *self {
            DemoState::Greet => DemoAction::ShowMessage(Message::Greeting),
            DemoState::SplashPause => DemoAction::Pause,
            DemoState::Wiping => DemoAction::ClearScreen,
            DemoState::DrawingMascot => DemoAction::DrawMascot,
            DemoState::ProbingCard => DemoAction::ProbeCard,
            DemoState::ReportingNoCard => DemoAction::ShowMessage(Message::NoCard),
            DemoState::SeekingFile => DemoAction::SeekFile,
            DemoState::OpeningFile => DemoAction::OpenFile,
            DemoState::Playing(p) => if p.shown < FRAMES_TO_SHOW {
                DemoAction::ShowFrame(p.cursor)
            } else {
                DemoAction::CloseFile
            },
            DemoState::Finishing => DemoAction::ShowMessage(Message::Done),
            DemoState::FinalPause => DemoAction::Pause,
            DemoState::Parked => DemoAction::Park,
        }
    }

    /// The state after the surroundings report `e`.
    pub fn step(self, e: DemoEvent) -> (r: DemoState)
        requires
            state_wf(self),
        ensures
            r == spec_step(self, e),
            state_wf(r),
    {
        match (self, e) {
            (DemoState::Greet, DemoEvent::Done) => DemoState::SplashPause,
            (DemoState::SplashPause, DemoEvent::Done) => DemoState::Wiping,
            (DemoState::Wiping, DemoEvent::Done) => DemoState::DrawingMascot,
            (DemoState::DrawingMascot, DemoEvent::Done) => DemoState::ProbingCard,
            (DemoState::ProbingCard, DemoEvent::CardUp(up)) => if up {
                DemoState::SeekingFile
            } else {
                DemoState::ReportingNoCard
            },
            (DemoState::ReportingNoCard, DemoEvent::Done) => DemoState::Finishing,
            (DemoState::SeekingFile, DemoEvent::FileFound(found)) => if found {
                DemoState::OpeningFile
            } else {
                DemoState::Finishing
            },
            (DemoState::OpeningFile, DemoEvent::Done) => DemoState::Playing(Playback::begin()),
            (DemoState::Playing(p), DemoEvent::Done) => if p.shown < FRAMES_TO_SHOW {
                let mut next = p;
                next.advance();
                DemoState::Playing(next)
            } else {
                DemoState::Finishing
            },
            (DemoState::Finishing, DemoEvent::Done) => DemoState::FinalPause,
            (DemoState::FinalPause, DemoEvent::Done) => DemoState::Parked,
            (s, _) => s,
        }
    }
}

} // verus!
