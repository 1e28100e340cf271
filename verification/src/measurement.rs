//! The course of one measurement: a snapshot, a pause, a second snapshot, and
//! the difference of the two. The caller does the work with the telemetry
//! service and reports what came of it; this module decides what is next.

use crate::delta::{delta_of, DeltaOutcome};
use crate::ioreport::{
    channels_view, ChannelView, GPUChannel, IOReport, IOReportError, ReportView, Sample,
    SampleView,
};
use vstd::prelude::*;

verus! {

/// What the caller reports.
#[derive(Debug)]
pub enum Event {
    /// A snapshot was asked for, and the service gave one or not.
    Sampled(bool),
    /// The pause between the two snapshots has passed.
    Waited,
    /// The difference of the two snapshots was asked for.
    Delta(DeltaOutcome),
}

/// What the caller is to do next.
#[derive(Debug)]
pub enum Step {
    /// Ask the service for a snapshot and report `Event::Sampled`.
    TakeSample,
    /// Let the sampling interval pass and report `Event::Waited`.
    Wait,
    /// Ask the service for the difference of these two snapshots and report
    /// `Event::Delta`.
    ComputeDelta { earlier: Sample, later: Sample },
    /// The measurement is done: these are its channels.
    Report(Vec<GPUChannel>),
    /// The measurement has failed.
    Fail(IOReportError),
    /// The measurement is over; nothing is left to do.
    Closed,
}

/// What a [`Step`] stands for.
pub enum StepView {
    TakeSample,
    Wait,
    ComputeDelta { earlier: SampleView, later: SampleView },
    Report(Seq<ChannelView>),
    Fail(IOReportError),
    Closed,
}

impl View for Step {
    type V = StepView;

    open spec fn view(&self) -> StepView {
        match self {
            Step::TakeSample => StepView::TakeSample,
            Step::Wait => StepView::Wait,
            Step::ComputeDelta { earlier, later } => StepView::ComputeDelta {
                earlier: earlier@,
                later: later@,
            },
            Step::Report(channels) => StepView::Report(channels_view(channels@)),
            Step::Fail(e) => StepView::Fail(*e),
            Step::Closed => StepView::Closed,
        }
    }
}

#[derive(Debug, Clone, Copy)]
enum Stage {
    First,
    Pause { first: Sample },
    Second { first: Sample },
    Difference { first: Sample, second: Sample },
    Closed,
}

/// How far a measurement has come.
pub enum StageView {
    /// The first snapshot is to be taken.
    First,
    /// The first snapshot is there; the pause is to pass.
    Pause { first: SampleView },
    /// The pause has passed; the second snapshot is to be taken.
    Second { first: SampleView },
    /// Both snapshots are there; their difference is to be computed.
    Difference { first: SampleView, second: SampleView },
    /// The measurement is over.
    Closed,
}

/// One measurement on one subscription.
#[derive(Debug)]
pub struct Measurement {
    report: IOReport,
    stage: Stage,
}

/// What a [`Measurement`] stands for.
pub struct MeasurementView {
    pub report: ReportView,
    pub stage: StageView,
}

impl MeasurementView {
    /// Whether `stamp` was given out by the subscription of this measurement.
    pub open spec fn issued(self, stamp: SampleView) -> bool {
        stamp.subscription == self.report.id && stamp.sequence < self.report.taken
    }

    /// The snapshots that a measurement holds were given out by its
    /// subscription, the first before the second.
    pub open spec fn wf(self) -> bool {
        match self.stage {
            StageView::First => true,
            StageView::Pause { first } => self.issued(first),
            StageView::Second { first } => self.issued(first),
            StageView::Difference { first, second } => self.issued(second) && first.precedes(
                second,
            ),
            StageView::Closed => true,
        }
    }

    /// The step that the measurement waits for.
    pub open spec fn pending(self) -> StepView {
        match self.stage {
            StageView::First => StepView::TakeSample,
            StageView::Pause { .. } => StepView::Wait,
            StageView::Second { .. } => StepView::TakeSample,
            StageView::Difference { first, second } => StepView::ComputeDelta {
                earlier: first,
                later: second,
            },
            StageView::Closed => StepView::Closed,
        }
    }

    /// Whether `event` answers the step that the measurement waits for.
    pub open spec fn answers(self, event: Event) -> bool {
        match (self.stage, event) {
            (StageView::First, Event::Sampled(_)) => true,
            (StageView::Pause { .. }, Event::Waited) => true,
            (StageView::Second { .. }, Event::Sampled(_)) => true,
            (StageView::Difference { .. }, Event::Delta(_)) => true,
            _ => false,
        }
    }

    /// The measurement after `event`. An event that does not answer the
    /// pending step changes nothing. A snapshot that the service refused, and
    /// any answer to the request for the difference, closes the measurement.
    pub open spec fn after(self, event: Event) -> MeasurementView {
        match (self.stage, event) {
            (StageView::First, Event::Sampled(captured)) => MeasurementView {
                report: self.report.after_sample(captured),
                stage: if self.report.yields_sample(captured) {
                    StageView::Pause { first: self.report.next_stamp() }
                } else {
                    StageView::Closed
                },
            },
            (StageView::Pause { first }, Event::Waited) => MeasurementView {
                report: self.report,
                stage: StageView::Second { first },
            },
            (StageView::Second { first }, Event::Sampled(captured)) => MeasurementView {
                report: self.report.after_sample(captured),
                stage: if self.report.yields_sample(captured) {
                    StageView::Difference { first, second: self.report.next_stamp() }
                } else {
                    StageView::Closed
                },
            },
            (StageView::Difference { .. }, Event::Delta(_)) => MeasurementView {
                report: self.report,
                stage: StageView::Closed,
            },
            _ => self,
        }
    }

    /// The step that follows `event`.
    pub open spec fn step_after(self, event: Event) -> StepView {
        match (self.stage, event) {
            (StageView::First, Event::Sampled(captured)) => if self.report.yields_sample(
                captured,
            ) {
                StepView::Wait
            } else {
                StepView::Fail(IOReportError::SampleFailed)
            },
            (StageView::Second { first }, Event::Sampled(captured)) => if self.report.yields_sample(
                captured,
            ) {
                StepView::ComputeDelta { earlier: first, later: self.report.next_stamp() }
            } else {
                StepView::Fail(IOReportError::SampleFailed)
            },
            (StageView::Difference { .. }, Event::Delta(outcome)) => match delta_of(outcome) {
                Ok(channels) => StepView::Report(channels),
                Err(e) => StepView::Fail(e),
            },
            _ => self.after(event).pending(),
        }
    }

    /// The measurement after a row of events, in order.
    pub open spec fn after_all(self, events: Seq<Event>) -> MeasurementView
        decreases events.len(),
    {
        if events.len() == 0 {
            self
        } else {
            self.after_all(events.drop_last()).after(events.last())
        }
    }
}

/// An event that does not answer the pending step changes nothing, and the
/// pending step is given once more.
pub proof fn lemma_unanswered_changes_nothing(m: MeasurementView, event: Event)
    requires
        !m.answers(event),
    ensures
        m.after(event) == m,
        m.step_after(event) == m.pending(),
{
}

/// An event that answers the pending step moves the measurement on: to the
/// next stage, or to its end.
pub proof fn lemma_answered_moves_on(m: MeasurementView, event: Event)
    requires
        m.answers(event),
    ensures
        m.after(event).stage != m.stage,
        m.stage is First ==> m.after(event).stage is Pause || m.after(event).stage is Closed,
        m.stage is Pause ==> m.after(event).stage is Second,
        m.stage is Second ==> m.after(event).stage is Difference || m.after(event).stage is Closed,
        m.stage is Difference ==> m.after(event).stage is Closed,
{
}

/// No event breaks a measurement, and the difference is asked only of two
/// snapshots of one subscription, the earlier one first.
pub proof fn lemma_delta_on_ordered_pair(m: MeasurementView, event: Event)
    requires
        m.wf(),
    ensures
        m.after(event).wf(),
        m.step_after(event) matches StepView::ComputeDelta { earlier, later } ==> earlier.precedes(
            later,
        ),
        m.pending() matches StepView::ComputeDelta { earlier, later } ==> earlier.precedes(later),
{
}

/// Whatever is reported to a measurement from its beginning on, and in
/// whatever order, the difference that it asks for is that of two snapshots
/// of its subscription, the earlier one first.
pub proof fn lemma_every_delta_is_ordered(report: ReportView, events: Seq<Event>)
    ensures
        ({
            let m = (MeasurementView { report, stage: StageView::First }).after_all(events);
            &&& m.wf()
            &&& m.report.id == report.id
            &&& m.pending() matches StepView::ComputeDelta { earlier, later } ==> {
                &&& earlier.precedes(later)
                &&& later.subscription == report.id
            }
        }),
    decreases events.len(),
{
    if events.len() > 0 {
        lemma_every_delta_is_ordered(report, events.drop_last());
        let before = (MeasurementView { report, stage: StageView::First }).after_all(
            events.drop_last(),
        );
        lemma_delta_on_ordered_pair(before, events.last());
    }
}

impl Stage {
    spec fn view(&self) -> StageView {
        match self {
            Stage::First => StageView::First,
            Stage::Pause { first } => StageView::Pause { first: first@ },
            Stage::Second { first } => StageView::Second { first: first@ },
            Stage::Difference { first, second } => StageView::Difference {
                first: first@,
                second: second@,
            },
            Stage::Closed => StageView::Closed,
        }
    }
}

impl View for Measurement {
    type V = MeasurementView;

    closed spec fn view(&self) -> MeasurementView {
        MeasurementView { report: self.report@, stage: self.stage.view() }
    }
}

impl Measurement {
    #[verifier::type_invariant]
    spec fn well_formed(self) -> bool {
        self@.wf()
    }

    /// A measurement on `report`, of which nothing is done yet: its first
    /// step is to take a snapshot.
    pub fn begin(report: IOReport) -> (m: Measurement)
        ensures
            m@ == (MeasurementView { report: report@, stage: StageView::First }),
            m@.wf(),
    {
        Measurement { report, stage: Stage::First }
    }

    /// The subscription that is measured.
    pub fn report(&self) -> (report: &IOReport)
        ensures
            report@ == self@.report,
    {
        &self.report
    }

    /// The step that the measurement waits for. It is never `Report` or
    /// `Fail`: those come once, from [`Measurement::advance`].
    pub fn pending(&self) -> (step: Step)
        ensures
            step@ == self@.pending(),
            self@.wf(),
            step matches Step::ComputeDelta { earlier, later } ==> earlier@.precedes(later@),
    {
        proof {
            use_type_invariant(self);
        }
        match self.stage {
            Stage::First => Step::TakeSample,
            Stage::Pause { .. } => Step::Wait,
            Stage::Second { .. } => Step::TakeSample,
            Stage::Difference { first, second } => Step::ComputeDelta {
                earlier: first,
                later: second,
            },
            Stage::Closed => Step::Closed,
        }
    }

    /// Takes in what the caller reports and says what is next. The
    /// difference is only ever asked of two snapshots of this measurement's
    /// subscription, the earlier one first.
    pub fn advance(&mut self, event: Event) -> (step: Step)
        ensures
            final(self)@ == old(self)@.after(event),
            step@ == old(self)@.step_after(event),
            final(self)@.wf(),
            step matches Step::ComputeDelta { earlier, later } ==> earlier@.precedes(later@),
    {
        proof {
            use_type_invariant(&*self);
        }
        match (self.stage, event) {
            (Stage::First, Event::Sampled(captured)) => match self.report.sample(captured) {
                Ok(first) => {
                    self.stage = Stage::Pause { first };
                    Step::Wait
                },
                Err(e) => {
                    self.stage = Stage::Closed;
                    Step::Fail(e)
                },
            },
            (Stage::Pause { first }, Event::Waited) => {
                self.stage = Stage::Second { first };
                Step::TakeSample
            },
            (Stage::Second { first }, Event::Sampled(captured)) => match self.report.sample(
                captured,
            ) {
                Ok(second) => {
                    self.stage = Stage::Difference { first, second };
                    Step::ComputeDelta { earlier: first, later: second }
                },
                Err(e) => {
                    self.stage = Stage::Closed;
                    Step::Fail(e)
                },
            },
            (Stage::Difference { first, second }, Event::Delta(outcome)) => {
                self.stage = Stage::Closed;
                match IOReport::get_delta(&first, &second, outcome) {
                    Ok(channels) => Step::Report(channels),
                    Err(e) => Step::Fail(e),
                }
            },
            _ => self.pending(),
        }
    }
}

} // verus!
