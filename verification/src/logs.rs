//! The log screen: a fixed-capacity ring of short text lines, most recent
//! first. Every recognized event formats as one short message and is pushed
//! to the front of the ring, evicting the oldest line; unrecognized events
//! are ignored without error. A line over the fixed character capacity is
//! dropped and leaves the ring untouched.

use vstd::prelude::*;

use crate::draw::{plan_view, DrawCommand, FontChoice, SpecCommand};
use crate::event::{Event, RadioPhase};
use crate::text::{decimal_spec, decimal_str, fits_within, push_str};

verus! {

/// How many lines the ring holds: enough to fill the panel height at the
/// small font's line height.
pub const LOG_LINES: usize = 25;

/// The per-line character capacity.
pub const LOG_COLUMNS: usize = 16;

/// The vertical distance between two log lines, in pixels.
pub const LOG_LINE_HEIGHT: usize = 6;

/// The one local, recoverable failure of the log screen.
#[derive(Clone, Copy, Debug, PartialEq, Eq, Structural)]
pub enum LogError {
    /// A line was longer than `LOG_COLUMNS` characters and was dropped.
    LineTooLong,
}

/// The log prefix naming a radio profile index; empty for an index outside
/// the stored profiles.
pub open spec fn profile_prefix_spec(p: int) -> Seq<char> {
    if p == 0 {
        "prof 0 "@
    } else if p == 1 {
        "prof 1 "@
    } else if p == 2 {
        "prof 2 "@
    } else {
        ""@
    }
}

/// The log suffix naming a radio phase.
pub open spec fn phase_suffix_spec(ph: RadioPhase) -> Seq<char> {
    match ph {
        RadioPhase::Advertising => "advr"@,
        RadioPhase::Connected => "conn"@,
        RadioPhase::Idle => "none"@,
    }
}

/// The one-line message an event logs as, or nothing for a discriminant the
/// log does not recognize.
pub open spec fn log_message(e: Event) -> Option<Seq<char>> {
    match e {
        Event::Layer(l) => Some(
            if l == 0 {
                "layer base"@
            } else if l == 1 {
                "layer nav"@
            } else if l == 2 {
                "layer prog"@
            } else if l == 3 {
                "layer peri"@
            } else {
                ""@
            },
        ),
        Event::Battery(l) => Some("bat"@ + decimal_spec(l as int)),
        Event::BleState(p, ph) => Some(profile_prefix_spec(p as int) + phase_suffix_spec(ph)),
        Event::BleProfile(p) => Some(profile_prefix_spec(p as int)),
        Event::ChargingState(c) => Some(if c { "charge oui"@ } else { "charge non"@ }),
        Event::ConnectionType(t) => Some(if t == 0 { "conn USB"@ } else { "conn BLE"@ }),
        Event::SplitPeripheral(_, c) => Some(if c { "peri oui"@ } else { "peri non"@ }),
        Event::SplitCentral(c) => Some(if c { "peri oui"@ } else { "peri non"@ }),
        Event::Sleep(s) => Some(if s { "dodo oui"@ } else { "dodo non"@ }),
        Event::ClearPeer => Some("clear peer"@),
        Event::Other => None,
    }
}

/// Every message the log formats fits the per-line capacity: the longest is
/// a profile prefix with a phase suffix, eleven characters.
pub proof fn lemma_message_fits(e: Event)
    ensures
        log_message(e) matches Some(m) ==> m.len() <= LOG_COLUMNS,
{
    reveal_strlit("layer base");
    reveal_strlit("layer nav");
    reveal_strlit("layer prog");
    reveal_strlit("layer peri");
    reveal_strlit("");
    reveal_strlit("bat");
    reveal_strlit("prof 0 ");
    reveal_strlit("prof 1 ");
    reveal_strlit("prof 2 ");
    reveal_strlit("advr");
    reveal_strlit("conn");
    reveal_strlit("none");
    reveal_strlit("charge oui");
    reveal_strlit("charge non");
    reveal_strlit("conn USB");
    reveal_strlit("conn BLE");
    reveal_strlit("peri oui");
    reveal_strlit("peri non");
    reveal_strlit("dodo oui");
    reveal_strlit("dodo non");
    reveal_strlit("clear peer");
}

/// What one accepted line does to the ring: in at the front, the oldest
/// line out at the tail.
pub open spec fn push_spec(h: Seq<Option<Seq<char>>>, m: Seq<char>) -> Seq<Option<Seq<char>>> {
    seq![Some(m)] + h.drop_last()
}

/// The ring after a whole sequence of events, oldest event first.
pub open spec fn run_spec(h: Seq<Option<Seq<char>>>, es: Seq<Event>) -> Seq<Option<Seq<char>>>
    decreases es.len(),
{
    if es.len() == 0 {
        h
    } else {
        let prev = run_spec(h, es.drop_last());
        match log_message(es.last()) {
            Some(m) => push_spec(prev, m),
            None => prev,
        }
    }
}

/// The messages of the recognized events, most recent first.
pub open spec fn recent_messages(es: Seq<Event>) -> Seq<Option<Seq<char>>>
    decreases es.len(),
{
    if es.len() == 0 {
        Seq::empty()
    } else {
        match log_message(es.last()) {
            Some(m) => seq![Some(m)] + recent_messages(es.drop_last()),
            None => recent_messages(es.drop_last()),
        }
    }
}

/// After any sequence of events, the ring holds the accepted messages most
/// recent first, cut to its fixed capacity ahead of the lines it started
/// with: older lines leave strictly in the order they arrived.
pub proof fn lemma_log_history(h: Seq<Option<Seq<char>>>, es: Seq<Event>)
    requires
        h.len() == LOG_LINES,
    ensures
        run_spec(h, es) == (recent_messages(es) + h).take(LOG_LINES as int),
    decreases es.len(),
{
    if es.len() == 0 {
        assert(run_spec(h, es) =~= (recent_messages(es) + h).take(LOG_LINES as int));
    } else {
        lemma_log_history(h, es.drop_last());
        match log_message(es.last()) {
            Some(m) => {
                assert(run_spec(h, es) =~= (recent_messages(es) + h).take(LOG_LINES as int));
            },
            None => {
                assert(recent_messages(es) == recent_messages(es.drop_last()));
            },
        }
    }
}

/// The fixed-capacity ring of log lines, most recent first. Slots that
/// never held a line are empty and are skipped when rendering.
pub struct LogScreen {
    lines: Vec<Option<String>>,
}

impl View for LogScreen {
    type V = Seq<Option<Seq<char>>>;

    closed spec fn view(&self) -> Seq<Option<Seq<char>>> {
        self.lines@.map_values(
            |o: Option<String>|
                match o {
                    Option::Some(s) => Some(s@),
                    Option::None => None,
                },
        )
    }
}

impl LogScreen {
    /// The ring's shape: exactly `LOG_LINES` slots, every held line within
    /// the per-line capacity.
    pub closed spec fn wf(self) -> bool {
        &&& self.lines@.len() == LOG_LINES
        &&& forall|i: int|
            0 <= i < self.lines@.len() ==> match #[trigger] self.lines@[i] {
                Option::Some(s) => s@.len() <= LOG_COLUMNS,
                Option::None => true,
            }
    }

    /// An all-empty ring.
    pub fn new() -> (r: Self)
        ensures
            r.wf(),
            r@ =~= Seq::new(LOG_LINES as nat, |i: int| None::<Seq<char>>),
    {
        let mut lines: Vec<Option<String>> = Vec::new();
        let mut i: usize = 0;
        while i < LOG_LINES
            invariant
                i <= LOG_LINES,
                lines@.len() == i,
                forall|j: int| 0 <= j < i ==> lines@[j] is None,
            decreases LOG_LINES - i,
        {
            lines.push(Option::None);
            i = i + 1;
        }
        LogScreen { lines }
    }

    /// Pushes one line to the front of the ring, evicting the oldest, unless
    /// the line is over the per-line capacity, in which case it is dropped
    /// and the ring stays as it was.
    pub fn try_append(&mut self, line: String) -> (r: Result<(), LogError>)
        requires
            old(self).wf(),
        ensures
            final(self).wf(),
            line@.len() <= LOG_COLUMNS ==> r == Ok::<(), LogError>(())
                && final(self)@ == push_spec(old(self)@, line@),
            line@.len() > LOG_COLUMNS ==> r == Err::<(), LogError>(LogError::LineTooLong)
                && final(self)@ == old(self)@,
    {
        if !fits_within(line.as_str(), LOG_COLUMNS) {
            return Err(LogError::LineTooLong);
        }
        self.lines.insert(0, Option::Some(line));
        self.lines.pop();
        proof {
            assert(self@ =~= push_spec(old(self)@, line@));
        }
        Ok(())
    }

    /// Formats one event as its log line, or nothing for a discriminant the
    /// log does not recognize, and pushes it to the front of the ring. The
    /// result says whether a line was appended, which is exactly when the
    /// screen must be redrawn; `Err` is how an over-long line would be
    /// reported, and no event formats one.
    pub fn log_event(&mut self, event: &Event) -> (r: Result<bool, LogError>)
        requires
            old(self).wf(),
        ensures
            final(self).wf(),
            match log_message(*event) {
                Some(m) => r == Ok::<bool, LogError>(true)
                    && final(self)@ == push_spec(old(self)@, m),
                None => r == Ok::<bool, LogError>(false) && final(self)@ == old(self)@,
            },
    {
        proof {
            lemma_message_fits(*event);
        }
        match format_message(event) {
            Option::Some(line) => {
                match self.try_append(line) {
                    Ok(()) => Ok(true),
                    Err(e) => Err(e),
                }
            },
            Option::None => Ok(false),
        }
    }

    /// Folds one event into the ring, swallowing the capacity error as the
    /// host's event loop does. Returns whether the screen must be redrawn.
    pub fn process_event(&mut self, event: &Event) -> (redraw: bool)
        requires
            old(self).wf(),
        ensures
            final(self).wf(),
            match log_message(*event) {
                Some(m) => redraw && final(self)@ == push_spec(old(self)@, m),
                None => !redraw && final(self)@ == old(self)@,
            },
    {
        match self.log_event(event) {
            Ok(b) => b,
            Err(_) => false,
        }
    }

    /// The line in slot `i` of the ring, most recent first; empty slots and
    /// slots past the capacity read as nothing.
    pub fn line(&self, i: usize) -> (r: Option<String>)
        ensures
            (match r {
                Option::Some(s) => i < self@.len() && self@[i as int] == Some(s@),
                Option::None => i >= self@.len() || self@[i as int] is None,
            }),
    {
        if i >= self.lines.len() {
            return Option::None;
        }
        match &self.lines[i] {
            Option::Some(s) => Option::Some(s.clone()),
            Option::None => Option::None,
        }
    }

    /// Composes the stacked text lines, top of the panel first: the line in
    /// slot `i` sits at height `(i + 1) * LOG_LINE_HEIGHT`, and empty slots
    /// are skipped. The host clears the framebuffer, draws the plan in
    /// order, and flushes the changed lines.
    pub fn render_plan(&self) -> (r: Vec<DrawCommand>)
        requires
            self.wf(),
        ensures
            plan_view(r@) == log_plan_spec(self@),
    {
        let mut v: Vec<DrawCommand> = Vec::new();
        let mut i: usize = 0;
        while i < self.lines.len()
            invariant
                self.wf(),
                i <= self.lines@.len(),
                plan_view(v@) == log_plan_upto(self@, i as int),
            decreases self.lines@.len() - i,
        {
            match &self.lines[i] {
                Option::Some(text) => {
                    let y = ((i + 1) * LOG_LINE_HEIGHT) as i32;
                    v.push(
                        DrawCommand::Label {
                            text: text.clone(),
                            font: FontChoice::Small4x6,
                            x: 2,
                            y,
                        },
                    );
                },
                Option::None => {},
            }
            i = i + 1;
            proof {
                assert(plan_view(v@) =~= log_plan_upto(self@, i as int));
            }
        }
        v
    }
}

/// The commands for the first `n` slots of a ring.
pub open spec fn log_plan_upto(h: Seq<Option<Seq<char>>>, n: int) -> Seq<SpecCommand>
    decreases n,
{
    if n <= 0 {
        Seq::empty()
    } else {
        log_plan_upto(h, n - 1) + (match h[n - 1] {
            Some(t) => seq![
                SpecCommand::Label {
                    text: t,
                    font: FontChoice::Small4x6,
                    x: 2,
                    y: LOG_LINE_HEIGHT * n,
                },
            ],
            None => Seq::empty(),
        })
    }
}

/// The whole ring's stacked text lines, top first.
pub open spec fn log_plan_spec(h: Seq<Option<Seq<char>>>) -> Seq<SpecCommand> {
    log_plan_upto(h, h.len() as int)
}

/// Formats one event as its log line, without touching the ring.
pub fn format_message(event: &Event) -> (r: Option<String>)
    ensures
        (r is Some) == (log_message(*event) is Some),
        r matches Some(s) ==> log_message(*event) == Some(s@),
{
    match *event {
        Event::Layer(l) => {
            let text = match l {
                0 => "layer base",
                1 => "layer nav",
                2 => "layer prog",
                3 => "layer peri",
                _ => "",
            };
            Option::Some(text.to_owned())
        },
        Event::Battery(l) => {
            let mut s = "bat".to_owned();
            let digits = decimal_str(l);
            push_str(&mut s, digits.as_str());
            Option::Some(s)
        },
        Event::BleState(p, ph) => {
            let mut s = profile_prefix(p);
            let suffix = match ph {
                RadioPhase::Advertising => "advr",
                RadioPhase::Connected => "conn",
                RadioPhase::Idle => "none",
            };
            push_str(&mut s, suffix);
            Option::Some(s)
        },
        Event::BleProfile(p) => Option::Some(profile_prefix(p)),
        Event::ChargingState(c) => Option::Some(
            (if c {
                "charge oui"
            } else {
                "charge non"
            }).to_owned(),
        ),
        Event::ConnectionType(t) => Option::Some(
            (if t == 0 {
                "conn USB"
            } else {
                "conn BLE"
            }).to_owned(),
        ),
        Event::SplitPeripheral(_, c) => Option::Some(
            (if c {
                "peri oui"
            } else {
                "peri non"
            }).to_owned(),
        ),
        Event::SplitCentral(c) => Option::Some(
            (if c {
                "peri oui"
            } else {
                "peri non"
            }).to_owned(),
        ),
        Event::Sleep(s) => Option::Some(
            (if s {
                "dodo oui"
            } else {
                "dodo non"
            }).to_owned(),
        ),
        Event::ClearPeer => Option::Some("clear peer".to_owned()),
        Event::Other => Option::None,
    }
}

/// The log prefix naming a radio profile index, as logged.
pub fn profile_prefix(p: u8) -> (r: String)
    ensures
        r@ == profile_prefix_spec(p as int),
{
    match p {
        0 => "prof 0 ".to_owned(),
        1 => "prof 1 ".to_owned(),
        2 => "prof 2 ".to_owned(),
        _ => "".to_owned(),
    }
}

} // verus!
