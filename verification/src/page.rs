//! The state machines of a page: when to lay out and paint again, what a
//! scroll did, and the connection between a page and the browser.

use vstd::prelude::*;
use std::time::{Duration, Instant};
use crate::dom::bytes_of;
use crate::selector_match::str_eq_ignore_ascii_case;
use crate::text::eq_ignore_case;
use crate::style::Stylesheet;

verus! {

/// The browser can send these actions to the page.
#[derive(Copy, Clone, Debug, PartialEq, Eq, Structural, PartialOrd, Ord)]
pub enum PageCommandAction {
    Click,
    RightClick,
    PageUp,
    PageDown,
    ScrollToTop,
    ScrollToBottom,
}

/// How far the page has come in loading.
#[derive(Copy, Clone, Debug, PartialEq, Eq, Structural, PartialOrd, Ord)]
pub enum PageProgress {
    Initial,
    Fetched,
    ParsedHtml,
    ParsedCss,
    LayoutGenerated,
    LayoutPerformed,
    Painted,
    Ready,
}

#[derive(Copy, Clone, Debug, PartialEq, Eq, Structural, PartialOrd, Ord)]
pub enum ScrollResult {
    Unchanged,
    Changed,
}

impl ScrollResult {
    pub fn was_changed(&self) -> (r: bool)
        ensures
            r == (*self is Changed),
    {
        match self {
            ScrollResult::Changed => true,
            ScrollResult::Unchanged => false,
        }
    }
}

/// The work that a page still has to do before it is up to date, from
/// nothing to everything.
#[derive(Copy, Clone, Debug, PartialEq, Eq, Structural, PartialOrd, Ord)]
pub enum DirtyPhase {
    Ready,
    Paint,
    Layout,
    GenerateLayoutTree,
}

/// The rank of a phase: a phase with a higher rank includes the work of
/// every phase with a lower rank.
pub open spec fn phase_rank(p: DirtyPhase) -> int {
    match p {
        DirtyPhase::Ready => 0,
        DirtyPhase::Paint => 1,
        DirtyPhase::Layout => 2,
        DirtyPhase::GenerateLayoutTree => 3,
    }
}

fn rank(p: DirtyPhase) -> (r: u8)
    ensures
        r as int == phase_rank(p),
{
    match p {
        DirtyPhase::Ready => 0,
        DirtyPhase::Paint => 1,
        DirtyPhase::Layout => 2,
        DirtyPhase::GenerateLayoutTree => 3,
    }
}

#[verifier::external_type_specification]
#[verifier::external_body]
pub struct ExInstant(Instant);

/// Calls `std::time::Instant::now`; the clock's reading is not stated.
#[verifier::external_body]
fn instant_now() -> Instant {
    Instant::now()
}

/// Calls `std::time::Instant::elapsed`; the time that has passed is not
/// stated.
#[verifier::external_body]
fn instant_elapsed(instant: &Instant) -> Duration {
    instant.elapsed()
}

/// Calls `std::time::Duration::as_nanos`, which is not stated either.
#[verifier::external_body]
fn duration_nanos(duration: &Duration) -> u128 {
    duration.as_nanos()
}

/// The longest time, thirty milliseconds in nanoseconds, that a requested
/// phase may wait before the page acts on it.
pub const MAXIMUM_DELAY_BETWEEN_CLEANSING_NANOS: u128 = 30_000_000;

/// The dirty state is a mechanism for requesting a certain action (relayout,
/// repaint), without doing it immediately. Two parties can request a repaint
/// in a short amount of time, which don't have to be painted twice; one party
/// can request a repaint whilst, two milliseconds later, another requests a
/// full page layout. Both scenarios are served by stalling the phases until
/// appropriate.
#[derive(Debug)]
pub struct DirtyState {
    pub phase: DirtyPhase,
    pub last_update: Option<Instant>,
}

impl DirtyState {
    pub fn new() -> (r: DirtyState)
        ensures
            r.phase == DirtyPhase::GenerateLayoutTree,
            r.last_update is None,
    {
        DirtyState { phase: DirtyPhase::GenerateLayoutTree, last_update: None }
    }

    /// Whether the page must act on the requested phase, given whether the
    /// allowed delay has passed since the last paint: always before the
    /// first paint, and afterwards once the delay has passed and work is
    /// requested.
    pub fn must_act_given(&self, delay_passed: bool) -> (r: bool)
        ensures
            r == (self.last_update is None || (self.phase != DirtyPhase::Ready && delay_passed)),
    {
        match self.last_update {
            Some(..) => !matches!(self.phase, DirtyPhase::Ready) && delay_passed,
            None => true,
        }
    }

    /// Whether the page must act when `elapsed_nanos` nanoseconds have
    /// passed since the last paint: always before the first paint, and
    /// afterwards when work is requested and more than thirty milliseconds
    /// have passed.
    pub fn must_act_after(&self, elapsed_nanos: u128) -> (r: bool)
        ensures
            r == (self.last_update is None || (self.phase != DirtyPhase::Ready && elapsed_nanos
                > MAXIMUM_DELAY_BETWEEN_CLEANSING_NANOS)),
    {
        self.must_act_given(elapsed_nanos > MAXIMUM_DELAY_BETWEEN_CLEANSING_NANOS)
    }

    /// Whether the page must act now: [`DirtyState::must_act_after`] with
    /// the time since the last paint, which the system clock measures.
    pub fn must_act_now(&mut self) -> (r: bool)
        ensures
            *final(self) == *old(self),
            old(self).last_update is None ==> r,
            old(self).last_update is Some ==> exists|elapsed_nanos: u128|
                r == old(self).must_act_after_spec(elapsed_nanos),
            r ==> old(self).last_update is None || old(self).phase != DirtyPhase::Ready,
    {
        match &self.last_update {
            Some(instant) => {
                let elapsed_nanos = duration_nanos(&instant_elapsed(instant));
                let r = self.must_act_after(elapsed_nanos);
                proof {
                    assert(r == self.must_act_after_spec(elapsed_nanos));
                }
                r
            },
            None => self.must_act_after(0),
        }
    }

    /// What [`DirtyState::must_act_after`] answers.
    pub open spec fn must_act_after_spec(&self, elapsed_nanos: u128) -> bool {
        self.last_update is None || (self.phase != DirtyPhase::Ready && elapsed_nanos
            > MAXIMUM_DELAY_BETWEEN_CLEANSING_NANOS)
    }

    pub fn phase(&self) -> (r: DirtyPhase)
        ensures
            r == self.phase,
    {
        self.phase
    }

    /// Requests a phase; the request only raises the phase.
    pub fn request(&mut self, phase: DirtyPhase)
        ensures
            final(self).phase == (if phase_rank(phase) > phase_rank(old(self).phase) { phase } else { old(self).phase }),
            final(self).last_update == old(self).last_update,
    {
        if rank(phase) > rank(self.phase) {
            self.phase = phase;
        }
    }

    pub fn mark_layout_tree_generated(&mut self)
        ensures
            final(self).phase == DirtyPhase::Paint,
            final(self).last_update == old(self).last_update,
    {
        self.phase = DirtyPhase::Paint;
    }

    pub fn mark_layed_out(&mut self)
        ensures
            final(self).phase == (if old(self).phase == DirtyPhase::Layout { DirtyPhase::Paint } else { old(self).phase }),
            final(self).last_update == old(self).last_update,
    {
        if matches!(self.phase, DirtyPhase::Layout) {
            self.phase = DirtyPhase::Paint;
        }
    }

    /// Marks the page as painted; the moment of a paint that completes the
    /// work is recorded from the system clock.
    pub fn mark_painted(&mut self)
        ensures
            old(self).phase == DirtyPhase::Paint ==> final(self).phase == DirtyPhase::Ready
                && final(self).last_update is Some,
            old(self).phase != DirtyPhase::Paint ==> final(self).phase == old(self).phase
                && final(self).last_update == old(self).last_update,
    {
        if matches!(self.phase, DirtyPhase::Paint) {
            self.phase = DirtyPhase::Ready;
            self.last_update = Some(instant_now());
        }
    }
}

/// A request never lowers the phase, and requesting a phase leaves at least
/// that much work requested.
pub proof fn request_never_lowers(before: DirtyPhase, requested: DirtyPhase)
    ensures
        phase_rank(if phase_rank(requested) > phase_rank(before) { requested } else { before }) >= phase_rank(before),
        phase_rank(if phase_rank(requested) > phase_rank(before) { requested } else { before }) >= phase_rank(requested),
{
}

#[derive(Clone, Copy, Debug, PartialEq, Eq, Structural, PartialOrd, Ord)]
pub enum PageHandleCommunicationError {
    Disconnected,
    Timeout,
}

/// What waiting for a message from the page gave.
#[derive(Debug)]
pub enum ReceiveOutcome<T> {
    Message(T),
    Timeout,
    Disconnected,
}

/// Whether the other side of a page connection is still there.
#[derive(Clone, Copy, Debug, PartialEq, Eq, Structural)]
pub struct PageConnection {
    pub is_page_still_connected: bool,
}

impl PageConnection {
    /// The answer to a receive. A connection that is lost answers
    /// `Disconnected` without looking at `outcome` (the channel is not read
    /// then); a live one answers the message, or the error for a timeout or
    /// a closed channel, and a closed channel marks it as lost. A lost
    /// connection stays lost.
    pub fn after_receive<T>(&mut self, outcome: ReceiveOutcome<T>) -> (r: Result<T, PageHandleCommunicationError>)
        ensures
            !old(self).is_page_still_connected ==> r == Err::<T, PageHandleCommunicationError>(
                PageHandleCommunicationError::Disconnected,
            ) && !final(self).is_page_still_connected,
            old(self).is_page_still_connected ==> match outcome {
                ReceiveOutcome::Message(m) => r == Ok::<T, PageHandleCommunicationError>(m)
                    && final(self).is_page_still_connected,
                ReceiveOutcome::Timeout => r == Err::<T, PageHandleCommunicationError>(PageHandleCommunicationError::Timeout)
                    && final(self).is_page_still_connected,
                ReceiveOutcome::Disconnected => r == Err::<T, PageHandleCommunicationError>(PageHandleCommunicationError::Disconnected)
                    && !final(self).is_page_still_connected,
            },
    {
        if !self.is_page_still_connected {
            return Err(PageHandleCommunicationError::Disconnected);
        }
        match outcome {
            ReceiveOutcome::Message(message) => Ok(message),
            ReceiveOutcome::Disconnected => {
                self.is_page_still_connected = false;
                Err(PageHandleCommunicationError::Disconnected)
            },
            ReceiveOutcome::Timeout => Err(PageHandleCommunicationError::Timeout),
        }
    }

    /// The answer to a send: a connected page stays connected while its
    /// channel accepts commands; once lost, a connection stays lost.
    pub fn after_send(&mut self, sent: bool) -> (r: Result<(), PageHandleCommunicationError>)
        ensures
            final(self).is_page_still_connected == (old(self).is_page_still_connected && sent),
            r is Ok <==> final(self).is_page_still_connected,
            r is Err ==> r == Err::<(), PageHandleCommunicationError>(PageHandleCommunicationError::Disconnected),
    {
        if self.is_page_still_connected {
            self.is_page_still_connected = sent;
        }
        if self.is_page_still_connected {
            Ok(())
        } else {
            Err(PageHandleCommunicationError::Disconnected)
        }
    }
}

/// The phase after a request of `p`, if any.
pub open spec fn raised(before: DirtyPhase, p: Option<DirtyPhase>) -> DirtyPhase {
    match p {
        Some(q) => if phase_rank(q) > phase_rank(before) { q } else { before },
        None => before,
    }
}

/// What happened to a page that may call for work.
#[derive(Copy, Clone, Debug, PartialEq, Eq, Structural)]
pub enum PageEvent {
    /// A command was handled.
    CommandHandled,
    /// The browser stopped sending commands.
    CommandPipelineClosed,
    /// An action or, `by_wheel`, a scroll of the wheel moved the viewport or
    /// left it where it was.
    Scrolled { result: ScrollResult, by_wheel: bool },
    /// The canvas is to get a new size; `same_size` when it has it already.
    CanvasResize { same_size: bool },
    /// A font finished loading.
    FontLoaded(crate::fonts::FontLoadResult),
    /// A frame of an animated image is due.
    ImageFrame,
    /// An image finished loading.
    ImageLoaded,
    /// A stylesheet finished loading.
    StylesheetLoaded,
}

/// What the page does in answer to an event, besides the work it requests.
#[derive(Copy, Clone, Debug, PartialEq, Eq, Structural)]
pub struct PageReaction {
    /// Stop listening for events.
    pub stop: bool,
    /// Give the canvas and the scroller the new size.
    pub resize_canvas: bool,
    /// The painted tiles are out of date.
    pub invalidate_tiles: bool,
    /// Choose the fonts of the boxes again.
    pub rerun_font_selection: bool,
    /// The layout tree is out of date.
    pub discard_layout: bool,
    /// Tell the browser that the page is ready.
    pub report_ready: bool,
    /// Note the moment of the first scroll that awaits a paint.
    pub start_scroll_timer: bool,
}

/// The work that an event requests.
pub open spec fn requested_phase(e: PageEvent) -> Option<DirtyPhase> {
    match e {
        PageEvent::Scrolled { result: ScrollResult::Changed, .. } => Some(DirtyPhase::Paint),
        PageEvent::CanvasResize { same_size: false } => Some(DirtyPhase::Layout),
        PageEvent::FontLoaded(r) => if r.rerun_layout { Some(DirtyPhase::GenerateLayoutTree) } else { None },
        PageEvent::ImageFrame => Some(DirtyPhase::Paint),
        PageEvent::ImageLoaded => Some(DirtyPhase::GenerateLayoutTree),
        PageEvent::StylesheetLoaded => Some(DirtyPhase::GenerateLayoutTree),
        _ => None,
    }
}

/// The answer to an event; `scroll_timer_running` says whether a scroll
/// already awaits a paint.
pub open spec fn reaction(e: PageEvent, scroll_timer_running: bool) -> PageReaction {
    PageReaction {
        stop: e is CommandPipelineClosed,
        resize_canvas: e == PageEvent::CanvasResize { same_size: false },
        invalidate_tiles: e is ImageFrame,
        rerun_font_selection: match e {
            PageEvent::FontLoaded(r) => r.rerun_algorithm,
            _ => false,
        },
        discard_layout: e is StylesheetLoaded,
        report_ready: e is CommandHandled || e is StylesheetLoaded,
        start_scroll_timer: e == (PageEvent::Scrolled { result: ScrollResult::Changed, by_wheel: true })
            && !scroll_timer_running,
    }
}

/// Requests the work that an event calls for, and says what else the page
/// is to do.
pub fn react(dirty: &mut DirtyState, event: PageEvent, scroll_timer_running: bool) -> (r: PageReaction)
    ensures
        final(dirty).phase == raised(old(dirty).phase, requested_phase(event)),
        final(dirty).last_update == old(dirty).last_update,
        r == reaction(event, scroll_timer_running),
{
    let mut r = PageReaction {
        stop: false,
        resize_canvas: false,
        invalidate_tiles: false,
        rerun_font_selection: false,
        discard_layout: false,
        report_ready: false,
        start_scroll_timer: false,
    };
    match event {
        PageEvent::CommandHandled => {
            r.report_ready = true;
        },
        PageEvent::CommandPipelineClosed => {
            r.stop = true;
        },
        PageEvent::Scrolled { result, by_wheel } => {
            if result.was_changed() {
                if by_wheel && !scroll_timer_running {
                    r.start_scroll_timer = true;
                }
                dirty.request(DirtyPhase::Paint);
            }
        },
        PageEvent::CanvasResize { same_size } => {
            if !same_size {
                r.resize_canvas = true;
                dirty.request(DirtyPhase::Layout);
            }
        },
        PageEvent::FontLoaded(result) => {
            if result.rerun_layout {
                dirty.request(DirtyPhase::GenerateLayoutTree);
            }
            r.rerun_font_selection = result.rerun_algorithm;
        },
        PageEvent::ImageFrame => {
            r.invalidate_tiles = true;
            dirty.request(DirtyPhase::Paint);
        },
        PageEvent::ImageLoaded => {
            dirty.request(DirtyPhase::GenerateLayoutTree);
        },
        PageEvent::StylesheetLoaded => {
            r.discard_layout = true;
            r.report_ready = true;
            dirty.request(DirtyPhase::GenerateLayoutTree);
        },
    }
    r
}

/// The stylesheets of a page as a sequence; `None`, before any were
/// parsed, holds none.
pub open spec fn sheets_of(sheets: Option<Vec<Stylesheet>>) -> Seq<Stylesheet> {
    match sheets {
        Some(v) => v@,
        None => Seq::empty(),
    }
}

/// Takes in a stylesheet that finished loading: it is appended to the
/// page's stylesheets, and the page reacts as to
/// `PageEvent::StylesheetLoaded`: the layout tree is discarded, generating
/// it again is requested, and the browser is told that the page is ready.
pub fn stylesheet_loaded(
    style_sheets: &mut Option<Vec<Stylesheet>>,
    dirty: &mut DirtyState,
    stylesheet: Stylesheet,
) -> (r: PageReaction)
    ensures
        *final(style_sheets) is Some,
        sheets_of(*final(style_sheets)) == sheets_of(*old(style_sheets)).push(stylesheet),
        final(dirty).phase == raised(old(dirty).phase, Some(DirtyPhase::GenerateLayoutTree)),
        final(dirty).last_update == old(dirty).last_update,
        r == reaction(PageEvent::StylesheetLoaded, false),
        r.discard_layout && r.report_ready,
{
    let mut sheets = match style_sheets.take() {
        Some(v) => v,
        None => Vec::new(),
    };
    sheets.push(stylesheet);
    *style_sheets = Some(sheets);
    react(dirty, PageEvent::StylesheetLoaded, false)
}

/// The steps that bring a page up to date.
#[derive(Copy, Clone, Debug, PartialEq, Eq, Structural)]
pub enum CleaningStep {
    GenerateLayoutTree,
    Relayout,
    Paint,
}

/// The step that the page takes next to be up to date; `None` once it is.
pub open spec fn cleaning_step(p: DirtyPhase) -> Option<CleaningStep> {
    match p {
        DirtyPhase::GenerateLayoutTree => Some(CleaningStep::GenerateLayoutTree),
        DirtyPhase::Layout => Some(CleaningStep::Relayout),
        DirtyPhase::Paint => Some(CleaningStep::Paint),
        DirtyPhase::Ready => None,
    }
}

impl DirtyState {
    /// The step that the page takes next to be up to date.
    pub fn next_step(&self) -> (r: Option<CleaningStep>)
        ensures
            r == cleaning_step(self.phase),
    {
        match self.phase {
            DirtyPhase::GenerateLayoutTree => Some(CleaningStep::GenerateLayoutTree),
            DirtyPhase::Layout => Some(CleaningStep::Relayout),
            DirtyPhase::Paint => Some(CleaningStep::Paint),
            DirtyPhase::Ready => None,
        }
    }
}

/// Each step that the page takes leaves less work: generating the layout
/// tree leaves painting, laying out leaves painting, painting leaves
/// nothing; so the cleaning loop ends after at most three steps.
pub proof fn cleaning_steps_make_progress(p: DirtyPhase)
    ensures
        p == DirtyPhase::GenerateLayoutTree ==> phase_rank(DirtyPhase::Paint) < phase_rank(p),
        p == DirtyPhase::Layout ==> phase_rank(DirtyPhase::Paint) < phase_rank(p),
        p == DirtyPhase::Paint ==> phase_rank(DirtyPhase::Ready) < phase_rank(p),
        cleaning_step(p) is None <==> p == DirtyPhase::Ready,
{
}

/// A node of a document as the search for its title sees it, in document
/// order: the local name of an element (`None` for another node), and the
/// data of its first child where that child is a text node.
#[derive(Clone, Debug)]
pub struct TitleCandidate {
    pub local_name: Option<String>,
    pub first_child_text: Option<String>,
}

/// A `title` element (the name compared ignoring ASCII case) whose first
/// child is text.
pub open spec fn gives_title(c: TitleCandidate) -> bool {
    &&& c.local_name matches Some(n) && eq_ignore_case(bytes_of(n@), bytes_of("title"@))
    &&& c.first_child_text is Some
}

/// The title of a document whose nodes from `i` on are `nodes[i..]`: the
/// text of the first node that gives one.
pub open spec fn title_from(nodes: Seq<TitleCandidate>, i: int) -> Option<Seq<char>>
    decreases nodes.len() - i,
{
    if i < 0 || i >= nodes.len() {
        None
    } else if gives_title(nodes[i]) {
        Some(nodes[i].first_child_text.unwrap()@)
    } else {
        title_from(nodes, i + 1)
    }
}

/// The title of a document whose nodes, in document order, are `nodes`.
pub fn find_title(nodes: &[TitleCandidate]) -> (r: Option<String>)
    ensures
        match r {
            Some(t) => title_from(nodes@, 0) == Some(t@),
            None => title_from(nodes@, 0) is None,
        },
{
    let mut i: usize = 0;
    while i < nodes.len()
        invariant
            i <= nodes.len(),
            title_from(nodes@, 0) == title_from(nodes@, i as int),
        decreases nodes.len() - i,
    {
        let node = &nodes[i];
        if let Some(name) = &node.local_name {
            if str_eq_ignore_ascii_case(name.as_str(), "title") {
                if let Some(text) = &node.first_child_text {
                    proof {
                        assert(gives_title(nodes@[i as int]));
                    }
                    let title = text.clone();
                    return Some(title);
                }
            }
        }
        i = i + 1;
    }
    None
}

} // verus!
