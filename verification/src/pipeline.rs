//! The periodic dual-sensor sampling producer, as an explicit state
//! machine.
//!
//! The producer alternates outside work — bus transactions, the interval
//! timer, the enqueue — with decisions. All decisions live here: `step`
//! maps the current state and the outcome of the last piece of outside work
//! to the next state and the next piece of work. The caller performs the
//! returned action, suspends where the action says to wait, and feeds the
//! outcome back in. Identification failure at startup is fatal — the
//! machine halts and stays halted; a failed sampling cycle is discarded
//! without retry and the machine simply waits for the next interval.

use crate::measurement::Measurement;
use crate::mcp9808::{Address, MCP9808};
use crate::registers::device_id::DevInfoReg;
use crate::registers::resolution::TempRes;
use crate::registers::temperature::{spec_celsius_sixteenths, Temperature};
use vstd::prelude::*;

verus! {

/// Where the producer stands.
#[derive(Clone, Copy, Debug)]
pub enum PipelineState {
    /// Waiting for the one-time identification of both sensors.
    Identifying,
    /// Identification failed; the producer is stopped for good.
    Halted,
    /// Steady state: both sensors identified, sampling every interval.
    /// `batched` counts the measurements enqueued towards the current
    /// batch, wrapping at the batch size.
    Sampling { in_id: u8, out_id: u8, batched: u8 },
}

/// The outcome of the last piece of outside work, fed back into `step`.
#[derive(Clone, Copy, Debug)]
pub enum PipelineEvent {
    /// Both device-id reads finished; `None` stands for an unreachable
    /// device.
    Identified { inside: Option<DevInfoReg>, outside: Option<DevInfoReg> },
    /// A sampling cycle finished; `None` stands for a failed cycle.
    Measured { result: Option<Measurement> },
    /// The queue accepted the measurement handed out by the last action.
    Enqueued,
    /// The sampling interval elapsed.
    IntervalElapsed,
}

/// What the caller is to do next.
#[derive(Clone, Copy, Debug)]
pub enum PipelineAction {
    /// Read both device-id registers.
    Identify,
    /// Read both temperature registers and build a measurement.
    ReadSensors,
    /// Enqueue this measurement, suspending while the queue is full.
    Enqueue(Measurement),
    /// Suspend until the sampling interval elapses.
    WaitInterval,
    /// Stop this producer for good.
    Halt,
}

/// The transition table of the producer.
///
/// From `Identifying`, an identification outcome either enters the steady
/// state — both devices reachable and carrying the known device id — or
/// halts the machine for good. In the steady state, a successful cycle is
/// enqueued; a failed cycle is discarded and the producer waits out the
/// interval; an accepted enqueue advances the batch counter and starts the
/// wait; an elapsed interval starts the next cycle. A halted machine stays
/// halted.
pub open spec fn spec_step(s: PipelineState, batch_size: u8, e: PipelineEvent) -> (PipelineState,
    PipelineAction) {
    match s {
        PipelineState::Identifying => match e {
            PipelineEvent::Identified { inside, outside } => match (inside, outside) {
                (Some(din), Some(dout)) => if din.spec_is_valid_device()
                    && dout.spec_is_valid_device() {
                    (
                        PipelineState::Sampling {
                            in_id: din.reg@.b0,
                            out_id: dout.reg@.b0,
                            batched: 0,
                        },
                        PipelineAction::ReadSensors,
                    )
                } else {
                    (PipelineState::Halted, PipelineAction::Halt)
                },
                _ => (PipelineState::Halted, PipelineAction::Halt),
            },
            _ => (s, PipelineAction::Identify),
        },
        PipelineState::Halted => (s, PipelineAction::Halt),
        PipelineState::Sampling { in_id, out_id, batched } => match e {
            PipelineEvent::Measured { result } => match result {
                Some(m) => (s, PipelineAction::Enqueue(m)),
                None => (s, PipelineAction::WaitInterval),
            },
            PipelineEvent::Enqueued => (
                PipelineState::Sampling {
                    in_id,
                    out_id,
                    batched: if batched + 1 >= batch_size {
                        0u8
                    } else {
                        (batched + 1) as u8
                    },
                },
                PipelineAction::WaitInterval,
            ),
            PipelineEvent::IntervalElapsed => (s, PipelineAction::ReadSensors),
            PipelineEvent::Identified { .. } => (s, PipelineAction::ReadSensors),
        },
    }
}

/// The sampling producer: two configured sensor endpoints, the sampling
/// interval, the batch size, and the machine state.
pub struct AcquisitionPipeline {
    in_sensor: MCP9808,
    out_sensor: MCP9808,
    interval_ticks: u64,
    batch_size: u8,
    state: PipelineState,
}

impl AcquisitionPipeline {
    /// The machine state.
    pub closed spec fn spec_state(self) -> PipelineState {
        self.state
    }

    /// The fixed batch size the counter wraps at.
    pub closed spec fn spec_batch_size(self) -> u8 {
        self.batch_size
    }

    /// The inside sensor's bus address.
    pub closed spec fn spec_in_address(self) -> u8 {
        self.in_sensor.spec_address()
    }

    /// The outside sensor's bus address.
    pub closed spec fn spec_out_address(self) -> u8 {
        self.out_sensor.spec_address()
    }

    /// The sampling interval in ticks.
    pub closed spec fn spec_interval_ticks(self) -> u64 {
        self.interval_ticks
    }

    /// Well-formedness: the batch size is positive and the batch counter
    /// stays below it.
    pub open spec fn wf(self) -> bool {
        &&& self.spec_batch_size() >= 1
        &&& match self.spec_state() {
            PipelineState::Sampling { batched, .. } => batched < self.spec_batch_size(),
            _ => true,
        }
    }

    /// A fresh producer over the two sensor addresses, ready to identify.
    pub fn new(in_address: Address, out_address: Address, interval_ticks: u64, batch_size: u8) -> (p:
        Self)
        requires
            batch_size >= 1,
        ensures
            p.wf(),
            p.spec_state() is Identifying,
            p.spec_in_address() == in_address.spec_as_u8(),
            p.spec_out_address() == out_address.spec_as_u8(),
            p.spec_interval_ticks() == interval_ticks,
            p.spec_batch_size() == batch_size,
    {
        AcquisitionPipeline {
            in_sensor: MCP9808::new(in_address),
            out_sensor: MCP9808::new(out_address),
            interval_ticks,
            batch_size,
            state: PipelineState::Identifying,
        }
    }

    /// The inside sensor's bus address, for performing the bus work.
    pub fn in_address(&self) -> (r: u8)
        ensures
            r == self.spec_in_address(),
    {
        self.in_sensor.get_address()
    }

    /// The outside sensor's bus address, for performing the bus work.
    pub fn out_address(&self) -> (r: u8)
        ensures
            r == self.spec_out_address(),
    {
        self.out_sensor.get_address()
    }

    /// Where the producer stands right now.
    pub fn state(&self) -> (r: PipelineState)
        ensures
            r == self.spec_state(),
    {
        self.state
    }

    /// The sampling interval in ticks, for performing the timed wait.
    pub fn interval_ticks(&self) -> (r: u64)
        ensures
            r == self.spec_interval_ticks(),
    {
        self.interval_ticks
    }

    /// Feed the outcome of the last piece of outside work into the machine;
    /// the producer moves to its next state and says what to do next,
    /// exactly as [`spec_step`] lays down.
    pub fn step(&mut self, event: PipelineEvent) -> (action: PipelineAction)
        requires
            old(self).wf(),
        ensures
            final(self).wf(),
            final(self).spec_batch_size() == old(self).spec_batch_size(),
            final(self).spec_in_address() == old(self).spec_in_address(),
            final(self).spec_out_address() == old(self).spec_out_address(),
            final(self).spec_interval_ticks() == old(self).spec_interval_ticks(),
            (final(self).spec_state(), action) == spec_step(
                old(self).spec_state(),
                old(self).spec_batch_size(),
                event,
            ),
    {
        match self.state {
            PipelineState::Identifying => match event {
                PipelineEvent::Identified { inside, outside } => match (inside, outside) {
                    (Some(din), Some(dout)) => {
                        if din.is_valid_device() && dout.is_valid_device() {
                            self.state = PipelineState::Sampling {
                                in_id: din.get_device_id(),
                                out_id: dout.get_device_id(),
                                batched: 0,
                            };
                            PipelineAction::ReadSensors
                        } else {
                            self.state = PipelineState::Halted;
                            PipelineAction::Halt
                        }
                    },
                    _ => {
                        self.state = PipelineState::Halted;
                        PipelineAction::Halt
                    },
                },
                _ => PipelineAction::Identify,
            },
            PipelineState::Halted => PipelineAction::Halt,
            PipelineState::Sampling { in_id, out_id, batched } => match event {
                PipelineEvent::Measured { result } => match result {
                    Some(m) => PipelineAction::Enqueue(m),
                    None => PipelineAction::WaitInterval,
                },
                PipelineEvent::Enqueued => {
                    let next: u8 = if batched + 1 >= self.batch_size {
                        0
                    } else {
                        batched + 1
                    };
                    self.state = PipelineState::Sampling { in_id, out_id, batched: next };
                    PipelineAction::WaitInterval
                },
                PipelineEvent::IntervalElapsed => PipelineAction::ReadSensors,
                PipelineEvent::Identified { .. } => PipelineAction::ReadSensors,
            },
        }
    }
}

/// The decision half of one sampling cycle: given the outcome of the two
/// temperature reads and the tick count, either both succeeded and one
/// measurement carries both decoded values and the timestamp, or the cycle
/// produces nothing at all — never a partial measurement.
pub fn build_measurement(
    inside: Option<Temperature>,
    outside: Option<Temperature>,
    res: TempRes,
    now_ticks: u64,
) -> (r: Option<Measurement>)
    ensures
        match (inside, outside) {
            (Some(t_in), Some(t_out)) => {
                &&& r is Some
                &&& r->0.timestamp_ticks == now_ticks
                &&& r->0.in_temp_sixteenths == spec_celsius_sixteenths(
                    t_in.reg@.b0,
                    t_in.reg@.b1,
                    res,
                )
                &&& r->0.out_temp_sixteenths == spec_celsius_sixteenths(
                    t_out.reg@.b0,
                    t_out.reg@.b1,
                    res,
                )
            },
            _ => r is None,
        },
{
    match (inside, outside) {
        (Some(t_in), Some(t_out)) => Some(
            Measurement {
                timestamp_ticks: now_ticks,
                in_temp_sixteenths: t_in.get_celsius_sixteenths(res),
                out_temp_sixteenths: t_out.get_celsius_sixteenths(res),
            },
        ),
        _ => None,
    }
}

} // verus!
