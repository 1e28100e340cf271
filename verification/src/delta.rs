//! What is read off the difference of two snapshots, and the channels that
//! it stands for.

use crate::classifier::is_active_name;
use crate::ioreport::{
    channels_view, states_view, ChannelView, GPUChannel, GPUState, IOReportError, StateView,
};
use vstd::prelude::*;

verus! {

/// One state as read off a delta: its name and the residency accrued.
#[derive(Debug)]
pub struct StateReading {
    pub name: String,
    pub residency: i64,
}

/// One channel as read off a delta, its states in the order reported.
#[derive(Debug)]
pub struct ChannelReading {
    pub group: String,
    pub subgroup: String,
    pub states: Vec<StateReading>,
}

/// What came of asking the service for the difference of two snapshots.
#[derive(Debug)]
pub enum DeltaOutcome {
    /// The service computed no difference.
    Refused,
    /// The service computed a difference that holds no list of channels.
    NoChannelArray,
    /// The channels of the difference, in the order of its list.
    Channels(Vec<ChannelReading>),
}

/// The state that `reading` stands for, classified by its name.
pub open spec fn classified(reading: StateReading) -> StateView {
    StateView {
        name: reading.name@,
        residency: reading.residency as int,
        is_active: is_active_name(reading.name@),
    }
}

/// The channel that `reading` stands for: the same names, and the same states
/// in the same order, each classified by its name.
pub open spec fn extracted(reading: ChannelReading) -> ChannelView {
    ChannelView {
        group: reading.group@,
        subgroup: reading.subgroup@,
        states: reading.states@.map_values(|s: StateReading| classified(s)),
    }
}

/// Classifies the states read off one channel, keeping their order.
pub fn classify_states(readings: Vec<StateReading>) -> (states: Vec<GPUState>)
    ensures
        states@.len() == readings@.len(),
        states_view(states@) == readings@.map_values(|s: StateReading| classified(s)),
        forall|i: int| 0 <= i < states@.len() ==> (#[trigger] states@[i]).wf(),
{
    let mut states: Vec<GPUState> = Vec::new();
    for reading in it: readings
        invariant
            states@.len() == it.index(),
            states_view(states@) == it.seq().take(it.index() as int).map_values(
                |s: StateReading| classified(s),
            ),
            forall|i: int| 0 <= i < states@.len() ==> (#[trigger] states@[i]).wf(),
    {
        let ghost classified_reading = classified(reading);
        states.push(GPUState::new(reading.name, reading.residency));
        proof {
            let k = it.index() as int;
            assert(it.seq().take(k + 1).map_values(|s: StateReading| classified(s))
                =~= it.seq().take(k).map_values(|s: StateReading| classified(s)).push(
                classified_reading,
            ));
        }
    }
    states
}

/// Builds the channels that a list of readings stands for. The channels come
/// in the order of the readings; none is dropped, merged or moved, so two
/// readings of one name give two channels.
pub fn extract(readings: Vec<ChannelReading>) -> (channels: Vec<GPUChannel>)
    ensures
        channels@.len() == readings@.len(),
        channels_view(channels@) == readings@.map_values(|r: ChannelReading| extracted(r)),
        forall|i: int| 0 <= i < channels@.len() ==> (#[trigger] channels@[i]).wf(),
{
    let mut channels: Vec<GPUChannel> = Vec::new();
    for reading in it: readings
        invariant
            channels@.len() == it.index(),
            channels_view(channels@) == it.seq().take(it.index() as int).map_values(
                |r: ChannelReading| extracted(r),
            ),
            forall|i: int| 0 <= i < channels@.len() ==> (#[trigger] channels@[i]).wf(),
    {
        let ghost extracted_reading = extracted(reading);
        let states = classify_states(reading.states);
        channels.push(GPUChannel { group: reading.group, subgroup: reading.subgroup, states });
        proof {
            let k = it.index() as int;
            assert(it.seq().take(k + 1).map_values(|r: ChannelReading| extracted(r))
                =~= it.seq().take(k).map_values(|r: ChannelReading| extracted(r)).push(
                extracted_reading,
            ));
        }
    }
    channels
}

/// The views of the channels in a result, the error kept.
pub open spec fn result_view(result: Result<Vec<GPUChannel>, IOReportError>) -> Result<
    Seq<ChannelView>,
    IOReportError,
> {
    match result {
        Ok(channels) => Ok(channels_view(channels@)),
        Err(e) => Err(e),
    }
}

/// What a delta outcome amounts to: a failure for each of the two ways in
/// which no list of channels came, else the channels that the readings stand
/// for.
pub open spec fn delta_of(outcome: DeltaOutcome) -> Result<Seq<ChannelView>, IOReportError> {
    match outcome {
        DeltaOutcome::Refused => Err(IOReportError::DeltaFailed),
        DeltaOutcome::NoChannelArray => Err(IOReportError::MissingChannelArray),
        DeltaOutcome::Channels(readings) => Ok(
            readings@.map_values(|r: ChannelReading| extracted(r)),
        ),
    }
}

} // verus!
