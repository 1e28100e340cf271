//! Channels of performance states and their residency totals, and the
//! bookkeeping of a subscription to the telemetry service.

use crate::classifier::{classify, is_active_name};
use crate::delta::{delta_of, extract, result_view, DeltaOutcome};
use vstd::prelude::*;

verus! {

/// A single GPU performance state (e.g., "P1", "IDLE").
#[derive(Debug)]
pub struct GPUState {
    /// The name of the state (e.g., "P1", "IDLE").
    pub name: String,
    /// The time spent in this state in microseconds.
    pub residency: i64,
    /// Whether this state counts as active: by its name, see
    /// [`is_active_name`].
    pub is_active: bool,
}

/// A channel of GPU statistics: its names and its states, in the order in
/// which the telemetry source reported them.
#[derive(Debug)]
pub struct GPUChannel {
    /// The group name (e.g., "GPU Stats").
    pub group: String,
    /// The subgroup name (e.g., "GPU Performance States").
    pub subgroup: String,
    /// The performance states of this channel.
    pub states: Vec<GPUState>,
}

/// What a [`GPUState`] stands for.
pub struct StateView {
    pub name: Seq<char>,
    pub residency: int,
    pub is_active: bool,
}

/// What a [`GPUChannel`] stands for.
pub struct ChannelView {
    pub group: Seq<char>,
    pub subgroup: Seq<char>,
    pub states: Seq<StateView>,
}

impl View for GPUState {
    type V = StateView;

    open spec fn view(&self) -> StateView {
        StateView { name: self.name@, residency: self.residency as int, is_active: self.is_active }
    }
}

impl View for GPUChannel {
    type V = ChannelView;

    open spec fn view(&self) -> ChannelView {
        ChannelView {
            group: self.group@,
            subgroup: self.subgroup@,
            states: states_view(self.states@),
        }
    }
}

/// The views of `states`, in order.
pub open spec fn states_view(states: Seq<GPUState>) -> Seq<StateView> {
    states.map_values(|s: GPUState| s@)
}

/// The views of `channels`, in order.
pub open spec fn channels_view(channels: Seq<GPUChannel>) -> Seq<ChannelView> {
    channels.map_values(|c: GPUChannel| c@)
}

/// The sum of the residencies of those of `states` that `counted` holds of.
pub open spec fn sum_where(states: Seq<StateView>, counted: spec_fn(StateView) -> bool) -> int
    decreases states.len(),
{
    if states.len() == 0 {
        0
    } else {
        sum_where(states.drop_last(), counted) + if counted(states.last()) {
            states.last().residency
        } else {
            0
        }
    }
}

/// The sum of the residencies of `states`.
pub open spec fn total_of(states: Seq<StateView>) -> int {
    sum_where(states, |s: StateView| true)
}

/// The sum of the residencies of those of `states` that are flagged active.
pub open spec fn active_of(states: Seq<StateView>) -> int {
    sum_where(states, |s: StateView| s.is_active)
}

/// The sum of the residencies of those of `states` whose name classifies as
/// active, whatever their flag says.
pub open spec fn active_by_name_of(states: Seq<StateView>) -> int {
    sum_where(states, |s: StateView| is_active_name(s.name))
}

/// `x` held to the range of `i64`.
pub open spec fn saturated(x: int) -> int {
    if x < i64::MIN {
        i64::MIN as int
    } else if x > i64::MAX {
        i64::MAX as int
    } else {
        x
    }
}

/// The operands of the usage percentage of `states`: none where their total
/// residency is zero, else the active and the total residency.
pub open spec fn usage_ratio_of(states: Seq<StateView>) -> Option<(i64, i64)> {
    if saturated(total_of(states)) == 0 {
        None
    } else {
        Some((saturated(active_of(states)) as i64, saturated(total_of(states)) as i64))
    }
}

/// The usage has operands exactly where the total residency is not zero,
/// however many states there are; with no states at all it has none. Where it
/// has them, they are the active and the total residency.
pub proof fn lemma_usage_ratio_none_iff_zero_total(states: Seq<StateView>)
    ensures
        usage_ratio_of(states) is None <==> total_of(states) == 0,
        states.len() == 0 ==> usage_ratio_of(states) is None,
        usage_ratio_of(states) matches Some((active, total)) ==> {
            &&& active == saturated(active_of(states))
            &&& total == saturated(total_of(states))
            &&& total != 0
        },
{
}

/// A sum that counts by one test equals the sum that counts by another,
/// where the two tests agree on every state.
pub proof fn lemma_sum_where_agrees(
    states: Seq<StateView>,
    f: spec_fn(StateView) -> bool,
    g: spec_fn(StateView) -> bool,
)
    requires
        forall|i: int| 0 <= i < states.len() ==> f(#[trigger] states[i]) == g(states[i]),
    ensures
        sum_where(states, f) == sum_where(states, g),
    decreases states.len(),
{
    if states.len() > 0 {
        lemma_sum_where_agrees(states.drop_last(), f, g);
    }
}

/// Where every flag agrees with its name, the active residency is the sum
/// over the states whose name, in upper case, contains none of the markers.
pub proof fn lemma_active_follows_names(states: Seq<StateView>)
    requires
        forall|i: int|
            0 <= i < states.len() ==> (#[trigger] states[i]).is_active == is_active_name(
                states[i].name,
            ),
    ensures
        active_of(states) == active_by_name_of(states),
{
    lemma_sum_where_agrees(
        states,
        |s: StateView| s.is_active,
        |s: StateView| is_active_name(s.name),
    );
}

/// Taking one state out of a sum takes its share out.
pub proof fn lemma_sum_where_remove(
    states: Seq<StateView>,
    counted: spec_fn(StateView) -> bool,
    i: int,
)
    requires
        0 <= i < states.len(),
    ensures
        sum_where(states, counted) == sum_where(states.remove(i), counted) + if counted(
            states[i],
        ) {
            states[i].residency
        } else {
            0
        },
    decreases states.len(),
{
    if i < states.len() - 1 {
        lemma_sum_where_remove(states.drop_last(), counted, i);
        assert(states.remove(i).drop_last() =~= states.drop_last().remove(i));
    }
}

/// A sum does not depend on the order of the states.
pub proof fn lemma_sum_where_ignores_order(
    a: Seq<StateView>,
    b: Seq<StateView>,
    counted: spec_fn(StateView) -> bool,
)
    requires
        a.to_multiset() == b.to_multiset(),
    ensures
        sum_where(a, counted) == sum_where(b, counted),
    decreases a.len(),
{
    vstd::seq_lib::to_multiset_len(a);
    vstd::seq_lib::to_multiset_len(b);
    if a.len() > 0 {
        let x = a.last();
        let k = a.len() - 1;
        vstd::seq_lib::to_multiset_contains(a, x);
        vstd::seq_lib::to_multiset_contains(b, x);
        let j = choose|j: int| 0 <= j < b.len() && b[j] == x;
        vstd::seq_lib::to_multiset_remove(a, k);
        vstd::seq_lib::to_multiset_remove(b, j);
        lemma_sum_where_ignores_order(a.drop_last(), b.remove(j), counted);
        lemma_sum_where_remove(b, counted, j);
    }
}

/// The total and the active residency of a channel do not depend on the
/// order of its states.
pub proof fn lemma_residencies_ignore_order(a: Seq<StateView>, b: Seq<StateView>)
    requires
        a.to_multiset() == b.to_multiset(),
    ensures
        total_of(a) == total_of(b),
        active_of(a) == active_of(b),
        active_by_name_of(a) == active_by_name_of(b),
        usage_ratio_of(a) == usage_ratio_of(b),
{
    lemma_sum_where_ignores_order(a, b, |s: StateView| true);
    lemma_sum_where_ignores_order(a, b, |s: StateView| s.is_active);
    lemma_sum_where_ignores_order(a, b, |s: StateView| is_active_name(s.name));
}

fn saturate(x: i128) -> (r: i64)
    ensures
        r == saturated(x as int),
{
    if x < i64::MIN as i128 {
        i64::MIN
    } else if x > i64::MAX as i128 {
        i64::MAX
    } else {
        x as i64
    }
}

impl GPUState {
    /// Whether the flag agrees with the name.
    pub open spec fn wf(&self) -> bool {
        self.is_active == is_active_name(self.name@)
    }

    /// A state with the given name and residency, classified by its name.
    pub fn new(name: String, residency: i64) -> (state: GPUState)
        ensures
            state.name == name,
            state.residency == residency,
            state.is_active == is_active_name(name@),
            state.wf(),
    {
        let is_active = classify(name.as_str());
        GPUState { name, residency, is_active }
    }
}

impl GPUChannel {
    /// Whether every state's flag agrees with its name.
    pub open spec fn wf(&self) -> bool {
        forall|i: int| 0 <= i < self.states@.len() ==> (#[trigger] self.states@[i]).wf()
    }

    /// The total residency time across all states of this channel, in
    /// microseconds: the exact sum where it fits in an `i64`, else the nearest
    /// bound.
    pub fn total_residency(&self) -> (total: i64)
        ensures
            total == saturated(total_of(self@.states)),
    {
        let n: usize = self.states.len();
        let mut acc: i128 = 0;
        let mut i: usize = 0;
        while i < n
            invariant
                n == self.states@.len(),
                i <= n,
                acc == total_of(self@.states.take(i as int)),
                -(i as int) * 0x8000_0000_0000_0000 <= acc <= (i as int) * 0x8000_0000_0000_0000,
            decreases n - i,
        {
            proof {
                let next = self@.states.take(i + 1);
                assert(next.drop_last() =~= self@.states.take(i as int));
            }
            acc = acc + self.states[i].residency as i128;
            i += 1;
        }
        assert(self@.states.take(n as int) =~= self@.states);
        saturate(acc)
    }

    /// The residency time of the states flagged active, in microseconds: the
    /// exact sum where it fits in an `i64`, else the nearest bound.
    pub fn active_residency(&self) -> (active: i64)
        ensures
            active == saturated(active_of(self@.states)),
            self.wf() ==> active == saturated(active_by_name_of(self@.states)),
    {
        let n: usize = self.states.len();
        let mut acc: i128 = 0;
        let mut i: usize = 0;
        while i < n
            invariant
                n == self.states@.len(),
                i <= n,
                acc == active_of(self@.states.take(i as int)),
                -(i as int) * 0x8000_0000_0000_0000 <= acc <= (i as int) * 0x8000_0000_0000_0000,
            decreases n - i,
        {
            proof {
                let next = self@.states.take(i + 1);
                assert(next.drop_last() =~= self@.states.take(i as int));
            }
            if self.states[i].is_active {
                acc = acc + self.states[i].residency as i128;
            }
            i += 1;
        }
        assert(self@.states.take(n as int) =~= self@.states);
        proof {
            if self.wf() {
                lemma_active_follows_names(self@.states);
            }
        }
        saturate(acc)
    }

    /// The two operands of the usage percentage, `100 * active / total`:
    /// `None` where the total residency is zero, for which the usage is
    /// defined as zero and nothing is to be divided; else the active and the
    /// total residency.
    pub fn usage_ratio(&self) -> (ratio: Option<(i64, i64)>)
        ensures
            ratio == usage_ratio_of(self@.states),
    {
        let total: i64 = self.total_residency();
        if total == 0 {
            None
        } else {
            Some((self.active_residency(), total))
        }
    }
}

/// The ways in which the interaction with the telemetry service can fail.
#[derive(Debug, Clone, Copy, PartialEq, Eq, Structural)]
pub enum IOReportError {
    /// The named group and subgroup resolve to no channels.
    ChannelsUnavailable,
    /// The service refuses to open a subscription for the resolved channels.
    SubscriptionFailed,
    /// The service refuses to produce a snapshot.
    SampleFailed,
    /// The service refuses to compute the difference of two snapshots.
    DeltaFailed,
    /// A delta was produced but lacks the list of channels.
    MissingChannelArray,
}

impl IOReportError {
    /// The text of [`IOReportError::message`].
    pub open spec fn message_text(&self) -> Seq<char> {
        match self {
            IOReportError::ChannelsUnavailable => "IOReport channels unavailable"@,
            IOReportError::SubscriptionFailed => "Failed to create IOReport subscription"@,
            IOReportError::SampleFailed => "Failed to capture IOReport sample"@,
            IOReportError::DeltaFailed => "Failed to compute IOReport sample delta"@,
            IOReportError::MissingChannelArray => "IOReport response missing channel data"@,
        }
    }

    /// A sentence that names the failure.
    pub fn message(&self) -> (text: String)
        ensures
            text@ == self.message_text(),
    {
        match self {
            IOReportError::ChannelsUnavailable => "IOReport channels unavailable".to_owned(),
            IOReportError::SubscriptionFailed => "Failed to create IOReport subscription".to_owned(),
            IOReportError::SampleFailed => "Failed to capture IOReport sample".to_owned(),
            IOReportError::DeltaFailed => "Failed to compute IOReport sample delta".to_owned(),
            IOReportError::MissingChannelArray => "IOReport response missing channel data".to_owned(),
        }
    }
}

/// The stamp of one snapshot: the subscription that it was taken from and
/// its place among the snapshots of that subscription.
#[derive(Debug, Clone, Copy, PartialEq, Eq, Structural)]
pub struct Sample {
    subscription: u64,
    sequence: u64,
}

/// What a [`Sample`] stands for.
pub struct SampleView {
    pub subscription: u64,
    pub sequence: nat,
}

impl SampleView {
    /// Whether `self` and `later` come from one subscription, `self` taken
    /// before `later`: the pairs whose difference has a meaning.
    pub open spec fn precedes(self, later: SampleView) -> bool {
        self.subscription == later.subscription && self.sequence < later.sequence
    }
}

impl View for Sample {
    type V = SampleView;

    closed spec fn view(&self) -> SampleView {
        SampleView { subscription: self.subscription, sequence: self.sequence as nat }
    }
}

impl Sample {
    /// The number of the subscription that the snapshot was taken from.
    pub fn subscription(&self) -> (id: u64)
        ensures
            id == self@.subscription,
    {
        self.subscription
    }

    /// How many snapshots the subscription had produced before this one.
    pub fn sequence(&self) -> (n: u64)
        ensures
            n == self@.sequence,
    {
        self.sequence
    }

    /// Tests whether `self` and `later` come from one subscription, `self`
    /// taken before `later`.
    pub fn precedes(&self, later: &Sample) -> (b: bool)
        ensures
            b == self@.precedes(later@),
    {
        self.subscription == later.subscription && self.sequence < later.sequence
    }
}

/// A subscription to the channels of one group and subgroup: the names it
/// was created with, which never change, and the count of the snapshots taken
/// from it.
#[derive(Debug)]
pub struct IOReport {
    id: u64,
    group: String,
    subgroup: String,
    taken: u64,
}

/// What an [`IOReport`] stands for.
pub struct ReportView {
    pub id: u64,
    pub group: Seq<char>,
    pub subgroup: Seq<char>,
    pub taken: nat,
}

impl ReportView {
    /// Whether the subscription can stamp one more snapshot.
    pub open spec fn can_stamp(self) -> bool {
        self.taken < u64::MAX
    }

    /// The stamp of the next snapshot.
    pub open spec fn next_stamp(self) -> SampleView {
        SampleView { subscription: self.id, sequence: self.taken }
    }

    /// Whether a request for a snapshot, which the service answered with one
    /// or not (`captured`), yields a sample.
    pub open spec fn yields_sample(self, captured: bool) -> bool {
        captured && self.can_stamp()
    }

    /// The subscription after such a request.
    pub open spec fn after_sample(self, captured: bool) -> ReportView {
        if self.yields_sample(captured) {
            ReportView { taken: self.taken + 1, ..self }
        } else {
            self
        }
    }

    /// The subscription after a row of such requests, in order.
    pub open spec fn after_samples(self, answers: Seq<bool>) -> ReportView
        decreases answers.len(),
    {
        if answers.len() == 0 {
            self
        } else {
            self.after_samples(answers.drop_last()).after_sample(answers.last())
        }
    }
}

/// Requests for snapshots change neither the number nor the names of a
/// subscription, and never lower its count.
pub proof fn lemma_samples_keep_subscription(report: ReportView, answers: Seq<bool>)
    ensures
        report.after_samples(answers).id == report.id,
        report.after_samples(answers).group == report.group,
        report.after_samples(answers).subgroup == report.subgroup,
        report.after_samples(answers).taken >= report.taken,
    decreases answers.len(),
{
    if answers.len() > 0 {
        lemma_samples_keep_subscription(report, answers.drop_last());
    }
}

/// Of two snapshots of one subscription, the one taken first precedes the
/// other, whatever was asked of the subscription in between.
pub proof fn lemma_samples_in_order(report: ReportView, between: Seq<bool>)
    requires
        report.can_stamp(),
    ensures
        report.next_stamp().precedes(
            report.after_sample(true).after_samples(between).next_stamp(),
        ),
{
    lemma_samples_keep_subscription(report.after_sample(true), between);
}

impl View for IOReport {
    type V = ReportView;

    closed spec fn view(&self) -> ReportView {
        ReportView {
            id: self.id,
            group: self.group@,
            subgroup: self.subgroup@,
            taken: self.taken as nat,
        }
    }
}

impl IOReport {
    /// Records the creation of a subscription for `group_name` and
    /// `subgroup_name`. `channels_found` says whether the service resolved the
    /// two names to a set of channels, `subscription_opened` whether it then
    /// opened a subscription for that set. `id` is a number that tells this
    /// subscription from every other one.
    pub fn new(
        id: u64,
        group_name: &str,
        subgroup_name: &str,
        channels_found: bool,
        subscription_opened: bool,
    ) -> (result: Result<IOReport, IOReportError>)
        ensures
            !channels_found ==> result == Err::<IOReport, IOReportError>(
                IOReportError::ChannelsUnavailable,
            ),
            channels_found && !subscription_opened ==> result == Err::<IOReport, IOReportError>(
                IOReportError::SubscriptionFailed,
            ),
            channels_found && subscription_opened ==> result is Ok && result->Ok_0@ == (ReportView {
                id,
                group: group_name@,
                subgroup: subgroup_name@,
                taken: 0,
            }),
    {
        if !channels_found {
            Err(IOReportError::ChannelsUnavailable)
        } else if !subscription_opened {
            Err(IOReportError::SubscriptionFailed)
        } else {
            Ok(
                IOReport {
                    id,
                    group: group_name.to_owned(),
                    subgroup: subgroup_name.to_owned(),
                    taken: 0,
                },
            )
        }
    }

    /// The number given at creation.
    pub fn id(&self) -> (id: u64)
        ensures
            id == self@.id,
    {
        self.id
    }

    /// The name of the group subscribed to.
    pub fn group(&self) -> (name: &str)
        ensures
            name@ == self@.group,
    {
        self.group.as_str()
    }

    /// The name of the subgroup subscribed to.
    pub fn subgroup(&self) -> (name: &str)
        ensures
            name@ == self@.subgroup,
    {
        self.subgroup.as_str()
    }

    /// Tests whether `channel` is one of the channels subscribed to: whether
    /// it carries the names of the group and the subgroup of this
    /// subscription.
    pub fn covers(&self, channel: &GPUChannel) -> (b: bool)
        ensures
            b == (channel@.group == self@.group && channel@.subgroup == self@.subgroup),
    {
        channel.group == self.group && channel.subgroup == self.subgroup
    }

    /// How many snapshots were taken so far.
    pub fn samples_taken(&self) -> (n: u64)
        ensures
            n == self@.taken,
    {
        self.taken
    }

    /// Records a request for a snapshot, which the service answered with one
    /// or not (`captured`). A snapshot gets the next stamp of this
    /// subscription. Without one, and when the stamps have run out, the
    /// request fails and the subscription stays as it was.
    pub fn sample(&mut self, captured: bool) -> (result: Result<Sample, IOReportError>)
        ensures
            final(self)@ == old(self)@.after_sample(captured),
            old(self)@.yields_sample(captured) ==> result is Ok && result->Ok_0@ == old(
                self,
            )@.next_stamp(),
            !old(self)@.yields_sample(captured) ==> result == Err::<Sample, IOReportError>(
                IOReportError::SampleFailed,
            ),
        no_unwind
    {
        if captured && self.taken < u64::MAX {
            let stamp = Sample { subscription: self.id, sequence: self.taken };
            self.taken = self.taken + 1;
            Ok(stamp)
        } else {
            Err(IOReportError::SampleFailed)
        }
    }

    /// Turns what came of asking the service for the difference of `sample1`
    /// and `sample2` into channels.
    ///
    /// The difference has a meaning only for two snapshots of one
    /// subscription, the earlier one first, and that is for the caller to see
    /// to. The two stamps are not examined when the program runs: the readings
    /// of any other pair are turned into channels all the same, and may hold
    /// negative residencies.
    #[allow(unused_variables)]
    pub fn get_delta(sample1: &Sample, sample2: &Sample, outcome: DeltaOutcome) -> (result: Result<
        Vec<GPUChannel>,
        IOReportError,
    >)
        requires
            sample1@.precedes(sample2@),
        ensures
            result_view(result) == delta_of(outcome),
            result matches Ok(channels) ==> forall|i: int|
                0 <= i < channels@.len() ==> (#[trigger] channels@[i]).wf(),
    {
        match outcome {
            DeltaOutcome::Refused => Err(IOReportError::DeltaFailed),
            DeltaOutcome::NoChannelArray => Err(IOReportError::MissingChannelArray),
            DeltaOutcome::Channels(readings) => Ok(extract(readings)),
        }
    }
}

} // verus!
