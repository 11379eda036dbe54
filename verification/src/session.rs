//! The scrolling machinery: one marquee session for a single long line, and
//! the controller that reacts to new lines and to the end of input.

use vstd::prelude::*;
use crate::graphemes::{graphemes_of, views_of, split_graphemes, join_graphemes};
use crate::rotate::{rotate, rotate_spec};
use crate::truncate::{truncate_spec, truncate_graphemes};

verus! {

/// The text with leading and trailing whitespace removed.
pub uninterp spec fn trim_of(s: Seq<char>) -> Seq<char>;

/// Relies on `str::trim`: removes leading and trailing whitespace and keeps
/// the rest unchanged; the result depends on the characters alone.
#[verifier::external_body]
fn trim(s: &str) -> (r: String)
    ensures
        r@ == trim_of(s@),
        r@.len() <= s@.len(),
{
    String::from(s.trim())
}

/// One frame of a scroll session: the first `max` clusters of the current
/// rotation, concatenated, with the tail marker appended.
pub open spec fn frame_of(gs: Seq<Seq<char>>, max: nat, tail: Seq<char>) -> Seq<char> {
    truncate_spec(gs, max).flatten() + tail
}

/// The cluster sequence a session starts from: the line, trimmed, with the
/// separator appended once, split into grapheme clusters.
pub open spec fn base_clusters_of(line: Seq<char>, separator: Seq<char>) -> Seq<Seq<char>> {
    graphemes_of(trim_of(line) + separator)
}

/// One active marquee animation for a single line.
///
/// `clusters` is the current rotation of the base text's grapheme clusters;
/// each tick rotates it one cluster to the left and renders a frame.
pub struct ScrollSession {
    /// Current rotation of the base text, as whole grapheme clusters.
    pub clusters: Vec<String>,
    /// Truncation length of every rendered frame, in clusters.
    pub max: usize,
    /// Marker appended to every rendered frame.
    pub tail: String,
}

impl ScrollSession {
    /// Starts a session for `line`: the line is trimmed, the separator is
    /// appended once, and the result is split into grapheme clusters.
    pub fn new(line: &str, max: usize, tail: &str, separator: &str) -> (s: ScrollSession)
        ensures
            views_of(s.clusters@) == base_clusters_of(line@, separator@),
            s.max == max,
            s.tail@ == tail@,
    {
        let base = trim(line).concat(separator);
        let clusters = split_graphemes(base.as_str());
        ScrollSession { clusters, max, tail: String::from_str(tail) }
    }

    /// Renders the current rotation as one frame, without advancing it.
    pub fn render_frame(&self) -> (r: String)
        ensures
            r@ == frame_of(views_of(self.clusters@), self.max as nat, self.tail@),
    {
        let kept = truncate_graphemes(&self.clusters, self.max);
        let cut = join_graphemes(&kept);
        cut.concat(self.tail.as_str())
    }

    /// One tick: rotates the clusters one position to the left, then renders
    /// the new rotation as a frame.
    pub fn tick(&mut self) -> (r: String)
        ensures
            views_of(final(self).clusters@) == rotate_spec(views_of(old(self).clusters@)),
            final(self).max == old(self).max,
            final(self).tail == old(self).tail,
            r@ == frame_of(
                views_of(final(self).clusters@),
                final(self).max as nat,
                final(self).tail@,
            ),
    {
        rotate(&mut self.clusters);
        proof {
            assert(views_of(self.clusters@) =~= rotate_spec(views_of(old(self).clusters@)));
        }
        self.render_frame()
    }
}

/// What the caller must do after handing the controller an event.
pub enum Action {
    /// Write this text to output as one line.
    Print(String),
    /// Nothing to write; keep driving the controller.
    Continue,
    /// Terminate normally.
    Exit,
}

/// The top-level state machine of scroll mode.
///
/// It is fed one event at a time — a received line, a tick, or the end of
/// input — and answers with the action to perform. At most one session exists
/// at any instant: a new line replaces the previous session before a new one
/// starts, so no two sessions ever render concurrently.
pub struct Controller {
    /// Truncation length in grapheme clusters.
    pub max: usize,
    /// Marker appended to truncated frames.
    pub tail: String,
    /// Separator appended to a session's base text.
    pub separator: String,
    /// Keep ticking after input has ended.
    pub forever: bool,
    /// The active session, if any.
    pub session: Option<ScrollSession>,
}

impl Controller {
    /// A controller with no active session.
    pub fn new(max: usize, tail: String, separator: String, forever: bool) -> (c: Controller)
        ensures
            c.max == max,
            c.tail == tail,
            c.separator == separator,
            c.forever == forever,
            c.session is None,
    {
        Controller { max, tail, separator, forever, session: None }
    }

    /// Whether a session is active.
    pub fn scrolling(&self) -> (b: bool)
        ensures
            b == (self.session is Some),
    {
        match &self.session {
            Option::Some(_) => true,
            Option::None => false,
        }
    }

    /// A new line arrived. A line of at most `max` clusters stops any active
    /// session and is printed verbatim; a longer line replaces any active
    /// session with a fresh one and prints its first frame.
    pub fn on_line(&mut self, line: &str) -> (a: Action)
        ensures
            final(self).max == old(self).max,
            final(self).tail == old(self).tail,
            final(self).separator == old(self).separator,
            final(self).forever == old(self).forever,
            graphemes_of(line@).len() <= old(self).max ==> {
                &&& final(self).session is None
                &&& a matches Action::Print(out) && out@ == line@
            },
            graphemes_of(line@).len() > old(self).max ==> {
                &&& final(self).session matches Option::Some(s)
                    && views_of(s.clusters@) == base_clusters_of(line@, old(self).separator@)
                    && s.max == old(self).max
                    && s.tail@ == old(self).tail@
                &&& a matches Action::Print(out) && out@ == frame_of(
                    base_clusters_of(line@, old(self).separator@),
                    old(self).max as nat,
                    old(self).tail@,
                )
            },
    {
        let gs = split_graphemes(line);
        if gs.len() <= self.max {
            self.session = None;
            Action::Print(String::from_str(line))
        } else {
            let session = ScrollSession::new(
                line,
                self.max,
                self.tail.as_str(),
                self.separator.as_str(),
            );
            let first_frame = session.render_frame();
            self.session = Some(session);
            Action::Print(first_frame)
        }
    }

    /// One tick of the animation: with an active session, advance it one
    /// rotation and print the new frame; otherwise there is nothing to do.
    pub fn on_tick(&mut self) -> (a: Action)
        ensures
            final(self).max == old(self).max,
            final(self).tail == old(self).tail,
            final(self).separator == old(self).separator,
            final(self).forever == old(self).forever,
            old(self).session is None ==> final(self).session is None && a is Continue,
            old(self).session matches Option::Some(s) ==> {
                &&& final(self).session matches Option::Some(s2)
                    && views_of(s2.clusters@) == rotate_spec(views_of(s.clusters@))
                    && s2.max == s.max
                    && s2.tail == s.tail
                &&& a matches Action::Print(out) && out@ == frame_of(
                    rotate_spec(views_of(s.clusters@)),
                    s.max as nat,
                    s.tail@,
                )
            },
    {
        match &mut self.session {
            Option::Some(session) => {
                let frame = session.tick();
                Action::Print(frame)
            },
            Option::None => Action::Continue,
        }
    }

    /// Input has ended. With `forever` set and a session active, the session
    /// keeps ticking; in every other case the session (if any) is dropped and
    /// the process is to terminate normally.
    pub fn on_input_ended(&mut self) -> (a: Action)
        ensures
            final(self).max == old(self).max,
            final(self).tail == old(self).tail,
            final(self).separator == old(self).separator,
            final(self).forever == old(self).forever,
            old(self).forever && old(self).session is Some ==> *final(self) == *old(self)
                && a is Continue,
            !(old(self).forever && old(self).session is Some) ==> final(self).session is None
                && a is Exit,
    {
        if self.forever && self.scrolling() {
            Action::Continue
        } else {
            self.session = None;
            Action::Exit
        }
    }
}

} // verus!
