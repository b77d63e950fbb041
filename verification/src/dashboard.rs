use vstd::prelude::*;

use crate::buffer::SampleBuffer;
use crate::sample::{Sample, VALUE_RANGE_MILLI};

verus! {

/// A key press as the interaction logic reads it: the characters the
/// mapping distinguishes, the enter key, or any other key. The embedding
/// translates the terminal's own key codes into this form.
#[derive(Clone, Copy, Debug, PartialEq, Eq)]
pub enum Key {
    Char(char),
    Enter,
    Other,
}

/// A stimulus from the terminal collaborator: a key press, or a timer
/// tick asking for a redraw. Transient; consumed within one loop
/// iteration.
#[derive(Clone, Copy, Debug, PartialEq, Eq)]
pub enum Event {
    Key(Key),
    Tick,
}

/// The intent derived from an event, consumed by the transition step.
#[derive(Clone, Copy, Debug, PartialEq, Eq, Structural)]
pub enum Message {
    StartOrSplit,
    Stop,
    Tick,
    Quit,
}

/// The dashboard's interaction mode. `Paused` is the initial state;
/// `Quitting` is terminal: once entered, the render/input loop exits
/// after its current iteration.
#[derive(Clone, Copy, Debug, PartialEq, Eq, Structural)]
pub enum AppState {
    Paused,
    Running,
    Quitting,
}

/// The fatal conditions of an interactive session: the event source
/// ended before a quit transition, a draw call failed, or the shared
/// buffer became unusable. All three end the session; none is retried.
#[derive(Clone, Copy, Debug, PartialEq, Eq, Structural)]
pub enum DashboardError {
    EventSourceExhausted,
    RenderFailure,
    SharedStateUnavailable,
}

/// The event-to-message table: `q` quits, space starts or splits, `s`
/// or enter stops, and every other key, as well as the tick event, is a
/// plain redraw request.
pub open spec fn message_of(event: Event) -> Message {
    match event {
        Event::Key(key) => match key {
            Key::Char(c) => if c == 'q' {
                Message::Quit
            } else if c == ' ' {
                Message::StartOrSplit
            } else if c == 's' {
                Message::Stop
            } else {
                Message::Tick
            },
            Key::Enter => Message::Stop,
            Key::Other => Message::Tick,
        },
        Event::Tick => Message::Tick,
    }
}

/// The transition table: `Quit` sends every state to `Quitting`; the
/// other three messages leave the state unchanged. The start/stop names
/// point at an intended pause/run cycle that is deliberately not wired
/// up yet, so only rendering reacts to the unchanged state.
pub open spec fn transition(state: AppState, message: Message) -> AppState {
    match message {
        Message::Quit => AppState::Quitting,
        _ => state,
    }
}

/// The render/input loop, in the abstract: starting from `state`,
/// consume events in order, deriving and applying the message of each,
/// until the state is `Quitting` or the events run out. Yields the
/// final state and how many events were consumed.
pub open spec fn run(state: AppState, events: Seq<Event>) -> (AppState, nat)
    decreases events.len(),
{
    if state == AppState::Quitting {
        (state, 0 as nat)
    } else if events.len() == 0 {
        (state, 0 as nat)
    } else {
        let rest = run(transition(state, message_of(events[0])), events.drop_first());
        (rest.0, (rest.1 + 1) as nat)
    }
}

/// A rectangular region of the terminal surface, in character cells.
#[derive(Clone, Copy, Debug, PartialEq, Eq, Structural)]
pub struct Region {
    pub x: u16,
    pub y: u16,
    pub width: u16,
    pub height: u16,
}

/// Height of the header region, in rows.
pub const HEADER_HEIGHT: u16 = 3;

/// Height of the chart region, in rows.
pub const CHART_HEIGHT: u16 = 20;

/// The first of the two fixed layout regions: a header strip at the top
/// of the area, [`HEADER_HEIGHT`] rows tall, clipped to the area.
pub open spec fn header_region(area: Region) -> Region {
    Region {
        x: area.x,
        y: area.y,
        width: area.width,
        height: if area.height < HEADER_HEIGHT {
            area.height
        } else {
            HEADER_HEIGHT
        },
    }
}

/// The second fixed layout region: a chart panel directly under the
/// header, [`CHART_HEIGHT`] rows tall, clipped to what the area has
/// left.
pub open spec fn chart_region(area: Region) -> Region {
    Region {
        x: area.x,
        y: (area.y + header_region(area).height) as u16,
        width: area.width,
        height: ({
            let rest = (area.height - header_region(area).height) as u16;
            if rest < CHART_HEIGHT {
                rest
            } else {
                CHART_HEIGHT
            }
        }),
    }
}

/// Everything one render step draws, as plain values: the two layout
/// regions, the full current snapshot of the buffer as the chart
/// series, and the fixed axes — both running `[0, 10.0]` units with
/// labels at `0.0`, `5.0` and `10.0`, in thousandths here. The chart
/// never autoscales; values outside the range are simply not visible.
/// The rendering collaborator turns this plan into widgets.
pub struct RenderPlan {
    pub header: Region,
    pub chart: Region,
    pub series: Vec<Sample>,
    pub axis_min_milli: u64,
    pub axis_max_milli: u64,
    pub axis_labels_milli: Vec<u64>,
}

/// The dashboard: owns the interaction state, interprets events, and
/// decides when the loop ends. The rendering side hands it the drawing
/// surface and a buffer snapshot each tick and receives a render plan
/// back.
#[derive(Debug)]
pub struct LoadApp {
    pub state: AppState,
}

impl AppState {
    /// Whether this is the terminal state: true exactly on `Quitting`.
    pub fn is_quitting(&self) -> (quitting: bool)
        ensures
            quitting == (*self == AppState::Quitting),
    {
        match self {
            AppState::Quitting => true,
            _ => false,
        }
    }
}

impl Default for AppState {
    /// `Paused` is the initial state.
    fn default() -> (state: Self)
        ensures
            state == AppState::Paused,
    {
        AppState::Paused
    }
}

impl LoadApp {
    /// A fresh dashboard starts paused.
    pub fn new() -> (app: Self)
        ensures
            app.state == AppState::Paused,
    {
        LoadApp { state: AppState::default() }
    }

    /// Derive the message for an event, exactly as the mapping table
    /// says. Total: every event yields a message.
    pub fn handle_event(&self, event: Event) -> (message: Message)
        ensures
            message == message_of(event),
    {
        match event {
            Event::Key(key) => match key {
                Key::Char(c) => if c == 'q' {
                    Message::Quit
                } else if c == ' ' {
                    Message::StartOrSplit
                } else if c == 's' {
                    Message::Stop
                } else {
                    Message::Tick
                },
                Key::Enter => Message::Stop,
                Key::Other => Message::Tick,
            },
            Event::Tick => Message::Tick,
        }
    }

    /// Apply one message to the interaction state, exactly as the
    /// transition table says.
    pub fn update(&mut self, message: Message)
        ensures
            final(self).state == transition(old(self).state, message),
    {
        match message {
            Message::StartOrSplit => (),
            Message::Stop => (),
            Message::Tick => (),
            Message::Quit => self.quit(),
        }
    }

    /// Enter the terminal state.
    pub fn quit(&mut self)
        ensures
            final(self).state == AppState::Quitting,
    {
        self.state = AppState::Quitting;
    }

    /// Split the drawing area into the two fixed regions: the header
    /// strip on top, the chart panel under it.
    pub fn layout(&self, area: Region) -> (regions: Vec<Region>)
        requires
            area.y + area.height <= u16::MAX,
        ensures
            regions@.len() == 2,
            regions@[0] == header_region(area),
            regions@[1] == chart_region(area),
    {
        let header_height: u16 = if area.height < HEADER_HEIGHT {
            area.height
        } else {
            HEADER_HEIGHT
        };
        let header = Region { x: area.x, y: area.y, width: area.width, height: header_height };
        let rest: u16 = area.height - header_height;
        let chart_height: u16 = if rest < CHART_HEIGHT {
            rest
        } else {
            CHART_HEIGHT
        };
        let chart = Region {
            x: area.x,
            y: area.y + header_height,
            width: area.width,
            height: chart_height,
        };
        let mut regions: Vec<Region> = Vec::new();
        regions.push(header);
        regions.push(chart);
        regions
    }

    /// One render step's computation: lay the area out, snapshot the
    /// buffer for the series, and fix the axes. What comes back is the
    /// whole plan the rendering collaborator needs for this frame.
    pub fn ui(&self, area: Region, buffer: &SampleBuffer) -> (plan: RenderPlan)
        requires
            area.y + area.height <= u16::MAX,
        ensures
            plan.header == header_region(area),
            plan.chart == chart_region(area),
            plan.series@ == buffer@,
            plan.axis_min_milli == 0,
            plan.axis_max_milli == VALUE_RANGE_MILLI,
            plan.axis_labels_milli@ == seq![0u64, VALUE_RANGE_MILLI / 2, VALUE_RANGE_MILLI],
    {
        let regions = self.layout(area);
        let series = buffer.snapshot();
        let mut axis_labels_milli: Vec<u64> = Vec::new();
        axis_labels_milli.push(0);
        axis_labels_milli.push(VALUE_RANGE_MILLI / 2);
        axis_labels_milli.push(VALUE_RANGE_MILLI);
        proof {
            assert(axis_labels_milli@ =~= seq![0u64, VALUE_RANGE_MILLI / 2, VALUE_RANGE_MILLI]);
        }
        RenderPlan {
            header: regions[0],
            chart: regions[1],
            series,
            axis_min_milli: 0,
            axis_max_milli: VALUE_RANGE_MILLI,
            axis_labels_milli,
        }
    }

    /// The loop's decisions, run over a finite queue of events: each
    /// event in turn is interpreted and applied until the state is
    /// `Quitting`. Returns how many events were consumed; if the queue
    /// ends first, the state is left as it was reached and the exhausted
    /// event source is reported as the fatal condition it is.
    #[verifier::loop_isolation(false)]
    pub fn run_events(&mut self, events: &Vec<Event>) -> (outcome: Result<usize, DashboardError>)
        ensures
            ({
                let end = run(old(self).state, events@);
                &&& final(self).state == end.0
                &&& (end.0 == AppState::Quitting ==> outcome == Ok::<usize, DashboardError>(
                    end.1 as usize,
                ))
                &&& (end.0 != AppState::Quitting ==> outcome == Err::<usize, DashboardError>(
                    DashboardError::EventSourceExhausted,
                ) && end.1 == events@.len())
            }),
    {
        let ghost initial = self.state;
        let mut index: usize = 0;
        proof {
            assert(events@.skip(0) =~= events@);
        }
        loop
            invariant
                index <= events@.len(),
                run(initial, events@).0 == run(self.state, events@.skip(index as int)).0,
                run(initial, events@).1 == index + run(self.state, events@.skip(index as int)).1,
            decreases events@.len() - index,
        {
            if self.state.is_quitting() {
                proof {
                    assert(run(self.state, events@.skip(index as int)) == (
                        self.state,
                        0 as nat,
                    ));
                }
                return Ok(index);
            }
            if index == events.len() {
                proof {
                    assert(events@.skip(index as int) =~= Seq::<Event>::empty());
                }
                return Err(DashboardError::EventSourceExhausted);
            }
            let event = events[index];
            proof {
                assert(events@.skip(index as int)[0] == events@[index as int]);
                assert(events@.skip(index as int).drop_first() =~= events@.skip(index as int + 1));
            }
            let message = self.handle_event(event);
            self.update(message);
            index = index + 1;
        }
    }
}

/// The mapping from events to messages is pure (a function of the event
/// alone) and total: the four named keys map as the table says, and
/// every other key code, as well as the tick event, maps to `Tick`.
pub proof fn lemma_mapping_total()
    ensures
        message_of(Event::Key(Key::Char('q'))) == Message::Quit,
        message_of(Event::Key(Key::Char(' '))) == Message::StartOrSplit,
        message_of(Event::Key(Key::Char('s'))) == Message::Stop,
        message_of(Event::Key(Key::Enter)) == Message::Stop,
        forall|c: char|
            c != 'q' && c != ' ' && c != 's' ==> message_of(Event::Key(Key::Char(c)))
                == Message::Tick,
        message_of(Event::Key(Key::Other)) == Message::Tick,
        message_of(Event::Tick) == Message::Tick,
{
}

/// Delivering `Tick` messages while paused never changes the state, no
/// matter how many arrive: a run over an all-tick queue consumes every
/// event and ends still `Paused`.
pub proof fn lemma_tick_idempotent_while_paused(events: Seq<Event>)
    requires
        forall|i: int| 0 <= i < events.len() ==> message_of(events[i]) == Message::Tick,
    ensures
        run(AppState::Paused, events).0 == AppState::Paused,
        run(AppState::Paused, events).1 == events.len(),
    decreases events.len(),
{
    if events.len() > 0 {
        assert(message_of(events[0]) == Message::Tick);
        assert forall|i: int|
            0 <= i < events.drop_first().len() implies message_of(events.drop_first()[i])
            == Message::Tick by {
            assert(events.drop_first()[i] == events[i + 1]);
        }
        lemma_tick_idempotent_while_paused(events.drop_first());
    }
}

/// A `Quit` message sends every state to `Quitting`, and the loop then
/// stops within one further iteration: whenever the next event maps to
/// `Quit`, the run ends in `Quitting` after consuming at most that one
/// event, whatever follows it.
pub proof fn lemma_quit_terminates(state: AppState, events: Seq<Event>)
    requires
        events.len() > 0,
        message_of(events[0]) == Message::Quit,
    ensures
        transition(state, Message::Quit) == AppState::Quitting,
        run(state, events).0 == AppState::Quitting,
        run(state, events).1 <= 1,
{
    if state != AppState::Quitting {
        assert(run(AppState::Quitting, events.drop_first()).1 == 0);
    }
}

} // verus!
