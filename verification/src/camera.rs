//! The camera driver itself: register access, the idle-wait gate, the
//! capture sequence, and the chunked bulk read of the output buffer.

use vstd::prelude::*;

use crate::bus::{BusEvent, CameraBus, DelaySource, Error};
use crate::protocol::{
    bulk_read_aborted, bulk_read_trace, burst_payload, capture_poll_stalled, capture_poll_trace,
    full_chunks, idle_wait_stalled, idle_wait_trace, is_burst_transfer, is_byte_read,
    is_capture_finished_state, is_idle_state, is_state_poll, lemma_poll_sleeps_push, poll_sleeps,
    reg_write_event, reply, setter_stalled, setter_trace, write_frame, ArduchipCommand,
    RegisterAddress, CAPTURE_FINISHED_MASK, FIFO_READ_BURST, FIFO_READ_SINGLE, POLL_INTERVAL_US,
    SENSOR_RESET_ENABLE, SENSOR_STATE_IDLE, SENSOR_STATE_MASK, WRITE_REGISTER_MASK,
};
use vstd::arithmetic::div_mod::{
    lemma_fundamental_div_mod, lemma_fundamental_div_mod_converse, lemma_mod_bound,
};
use crate::settings::{
    camera_type_of, BrightnessLevel, CameraControl, CameraType, ColorEffect, ControlValue, Format,
    Level, PowerMode, Resolution, SharpnessLevel, WhiteBalanceMode,
};

verus! {

/// A camera module on a serial bus.
///
/// The driver owns the bus and the delay capability exclusively; every
/// operation is a blocking sequence of transfers and sleeps on the calling
/// thread. Contracts speak of [`sent`](ArducamMega::sent), the bus
/// transcript, and [`slept`](ArducamMega::slept), the record of sleeps.
///
/// The hardware gives polling no other interface than retrying, so the two
/// polling loops (the idle wait and the capture completion wait) retry up to
/// [`limit`](ArducamMega::limit) polls. [`new`](ArducamMega::new) sets the
/// highest representable limit — at the fixed poll interval that outlasts
/// any hardware — while [`with_poll_limit`](ArducamMega::with_poll_limit)
/// bounds it for callers that want deterministic failure instead of an
/// indefinite block on a stuck sensor.
pub struct ArducamMega<SPI, Delay> {
    spi: SPI,
    delay: Delay,
    poll_limit: u64,
}

impl<SPI: CameraBus, Delay: DelaySource> ArducamMega<SPI, Delay> {
    /// The transcript of everything the driver has put on the bus.
    pub closed spec fn sent(&self) -> Seq<BusEvent> {
        self.spi.events()
    }

    /// Every sleep the driver has performed, in microseconds.
    pub closed spec fn slept(&self) -> Seq<u32> {
        self.delay.sleeps()
    }

    /// The most polls either polling loop will issue in one call.
    pub closed spec fn limit(&self) -> u64 {
        self.poll_limit
    }

    /// Takes exclusive ownership of the bus and the delay capability. The
    /// poll limit is set so high it is never reached in practice.
    pub fn new(spi: SPI, delay: Delay) -> (r: Self)
        ensures
            r.sent() == spi.events(),
            r.slept() == delay.sleeps(),
            r.limit() == u64::MAX,
    {
        Self { spi, delay, poll_limit: u64::MAX }
    }

    /// As [`new`](ArducamMega::new), with a caller-chosen bound on the polls
    /// either polling loop may issue in one call.
    pub fn with_poll_limit(spi: SPI, delay: Delay, poll_limit: u64) -> (r: Self)
        ensures
            r.sent() == spi.events(),
            r.slept() == delay.sleeps(),
            r.limit() == poll_limit,
    {
        Self { spi, delay, poll_limit }
    }

    /// Hands the bus and the delay capability back.
    pub fn into_parts(self) -> (r: (SPI, Delay))
        ensures
            r.0.events() == self.sent(),
            r.1.sleeps() == self.slept(),
    {
        (self.spi, self.delay)
    }

    /// Reads the register at `addr`: transmits the bare address byte and
    /// returns the third received byte; the first two received bytes are
    /// protocol padding, and their values do not matter.
    pub fn read_reg(&mut self, addr: RegisterAddress) -> (r: Result<
        u8,
        Error<SPI::BusError, Delay::DelayError>,
    >)
        ensures
            final(self).slept() == old(self).slept(),
            final(self).limit() == old(self).limit(),
            r matches Ok(v) ==> {
                &&& final(self).sent().len() == old(self).sent().len() + 1
                &&& old(self).sent().is_prefix_of(final(self).sent())
                &&& is_byte_read(final(self).sent().last(), addr.spec_code())
                &&& v == reply(final(self).sent().last())
            },
            r is Err ==> final(self).sent() == old(self).sent() && r matches Err(
                Error::Spi(_),
            ),
    {
        let out: Vec<u8> = vec![addr.code()];
        match self.spi.transfer(out.as_slice(), 3) {
            Ok(received) => {
                proof {
                    assert(out@ =~= seq![addr.spec_code()]);
                    assert(old(self).sent() =~= self.sent().take(old(self).sent().len() as int));
                }
                Ok(received[2])
            },
            Err(e) => Err(Error::Spi(e)),
        }
    }

    /// Writes `value` to the register at `addr`: transmits exactly
    /// `[addr | WRITE_REGISTER_MASK, value]`.
    pub fn write_reg(&mut self, addr: RegisterAddress, value: u8) -> (r: Result<
        (),
        Error<SPI::BusError, Delay::DelayError>,
    >)
        ensures
            final(self).slept() == old(self).slept(),
            final(self).limit() == old(self).limit(),
            r is Ok ==> final(self).sent() == old(self).sent().push(
                reg_write_event(addr.spec_code(), value),
            ),
            r is Err ==> final(self).sent() == old(self).sent() && r matches Err(
                Error::Spi(_),
            ),
    {
        let out: Vec<u8> = vec![addr.code() | WRITE_REGISTER_MASK, value];
        proof {
            assert(out@ =~= write_frame(addr.spec_code(), value));
        }
        match self.spi.write(out.as_slice()) {
            Ok(()) => Ok(()),
            Err(e) => Err(Error::Spi(e)),
        }
    }

    /// Blocks until the sensor reports itself idle: polls the sensor state
    /// register, and after every non-idle answer sleeps the fixed poll
    /// interval and polls again, up to the driver's poll limit.
    pub fn wait_idle(&mut self) -> (r: Result<
        (),
        Error<SPI::BusError, Delay::DelayError>,
    >)
        ensures
            final(self).limit() == old(self).limit(),
            r is Ok ==> idle_wait_trace(
                old(self).sent(),
                final(self).sent(),
                old(self).slept(),
                final(self).slept(),
            ),
            r is Err ==> idle_wait_stalled(
                old(self).sent(),
                final(self).sent(),
                old(self).slept(),
                final(self).slept(),
            ),
            r matches Err(Error::Spi(_)) ==> final(self).sent().len() - old(self).sent().len()
                == final(self).slept().len() - old(self).slept().len(),
            r matches Err(Error::Delay(_)) ==> final(self).sent().len() - old(self).sent().len()
                == final(self).slept().len() - old(self).slept().len() + 1,
            r matches Err(Error::PollLimitReached) ==> {
                &&& final(self).sent().len() - old(self).sent().len() == old(self).limit()
                &&& final(self).slept().len() - old(self).slept().len() == old(self).limit()
            },
    {
        let ghost pre = old(self).sent();
        let limit = self.poll_limit;
        let mut polls: u64 = 0;
        loop
            invariant
                polls <= limit,
                limit == old(self).limit(),
                self.limit() == limit,
                self.sent().len() == pre.len() + polls,
                pre == old(self).sent(),
                pre.is_prefix_of(self.sent()),
                forall|i: int|
                    pre.len() <= i < self.sent().len() ==> is_state_poll(
                        #[trigger] self.sent()[i],
                    ) && !is_idle_state(reply(self.sent()[i])),
                self.slept() == old(self).slept() + poll_sleeps(polls as nat),
            decreases limit - polls,
        {
            if polls == limit {
                return Err(Error::PollLimitReached);
            }
            let ghost sent0 = self.sent();
            let state = match self.read_reg(RegisterAddress::SensorState) {
                Ok(v) => v,
                Err(e) => {
                    return Err(e);
                },
            };
            proof {
                let posts = self.sent();
                assert forall|i: int|
                    pre.len() <= i < posts.len() - 1 implies is_state_poll(
                        #[trigger] posts[i],
                    ) && !is_idle_state(reply(posts[i])) by {
                    assert(sent0 =~= posts.take(sent0.len() as int));
                    assert(posts[i] == sent0[i]);
                }
                assert forall|i: int| 0 <= i < pre.len() implies pre[i] == #[trigger] posts[i] by {
                    assert(sent0 =~= posts.take(sent0.len() as int));
                    assert(posts[i] == sent0[i]);
                }
                assert(pre =~= posts.take(pre.len() as int));
            }
            if state & SENSOR_STATE_MASK == SENSOR_STATE_IDLE {
                return Ok(());
            }
            match self.delay.delay_us(POLL_INTERVAL_US) {
                Ok(()) => (),
                Err(e) => {
                    return Err(Error::Delay(e));
                },
            }
            proof {
                lemma_poll_sleeps_push(old(self).slept(), polls as nat);
            }
            polls = polls + 1;
        }
    }

    /// Writes `value` to the register at `addr`, then waits for the sensor
    /// to report itself idle again — the discipline every configuration
    /// write follows.
    fn write_config(&mut self, addr: RegisterAddress, value: u8) -> (r: Result<
        (),
        Error<SPI::BusError, Delay::DelayError>,
    >)
        ensures
            final(self).limit() == old(self).limit(),
            r is Ok ==> setter_trace(
                old(self).sent(),
                final(self).sent(),
                old(self).slept(),
                final(self).slept(),
                addr.spec_code(),
                value,
            ),
            r is Err ==> setter_stalled(
                old(self).sent(),
                final(self).sent(),
                old(self).slept(),
                final(self).slept(),
                addr.spec_code(),
                value,
            ),
    {
        match self.write_reg(addr, value) {
            Ok(()) => (),
            Err(e) => {
                return Err(e);
            },
        }
        self.wait_idle()
    }

    /// Resets the camera sensor, bringing it back to a known-good state:
    /// a write of the reset-enable value followed by an idle wait.
    pub fn reset(&mut self) -> (r: Result<(), Error<SPI::BusError, Delay::DelayError>>)
        ensures
            final(self).limit() == old(self).limit(),
            r is Ok ==> setter_trace(
                old(self).sent(),
                final(self).sent(),
                old(self).slept(),
                final(self).slept(),
                RegisterAddress::SensorReset.spec_code(),
                SENSOR_RESET_ENABLE,
            ),
            r is Err ==> setter_stalled(
                old(self).sent(),
                final(self).sent(),
                old(self).slept(),
                final(self).slept(),
                RegisterAddress::SensorReset.spec_code(),
                SENSOR_RESET_ENABLE,
            ),
    {
        self.write_config(RegisterAddress::SensorReset, SENSOR_RESET_ENABLE)
    }

    /// Reads which camera module answers on the bus, from the sensor
    /// identifier register.
    pub fn get_camera_type(&mut self) -> (r: Result<
        CameraType,
        Error<SPI::BusError, Delay::DelayError>,
    >)
        ensures
            final(self).slept() == old(self).slept(),
            final(self).limit() == old(self).limit(),
            r matches Ok(t) ==> {
                &&& final(self).sent().len() == old(self).sent().len() + 1
                &&& old(self).sent().is_prefix_of(final(self).sent())
                &&& is_byte_read(
                    final(self).sent().last(),
                    RegisterAddress::SensorId.spec_code(),
                )
                &&& t == camera_type_of(reply(final(self).sent().last()))
            },
            r is Err ==> final(self).sent() == old(self).sent() && r matches Err(
                Error::Spi(_),
            ),
    {
        let id = match self.read_reg(RegisterAddress::SensorId) {
            Ok(v) => v,
            Err(e) => {
                return Err(e);
            },
        };
        Ok(id.into())
    }

    /// Sets the focus-control value of the camera. The byte is passed to the
    /// register unchanged.
    pub fn set_auto_focus(&mut self, value: u8) -> (r: Result<
        (),
        Error<SPI::BusError, Delay::DelayError>,
    >)
        ensures
            final(self).limit() == old(self).limit(),
            r is Ok ==> setter_trace(
                old(self).sent(),
                final(self).sent(),
                old(self).slept(),
                final(self).slept(),
                RegisterAddress::AutoFocus.spec_code(),
                value,
            ),
            r is Err ==> setter_stalled(
                old(self).sent(),
                final(self).sent(),
                old(self).slept(),
                final(self).slept(),
                RegisterAddress::AutoFocus.spec_code(),
                value,
            ),
    {
        self.write_config(RegisterAddress::AutoFocus, value)
    }

    /// Sets the capture format.
    pub fn set_format(&mut self, format: Format) -> (r: Result<
        (),
        Error<SPI::BusError, Delay::DelayError>,
    >)
        ensures
            final(self).limit() == old(self).limit(),
            r is Ok ==> setter_trace(
                old(self).sent(),
                final(self).sent(),
                old(self).slept(),
                final(self).slept(),
                RegisterAddress::Format.spec_code(),
                format.spec_code(),
            ),
            r is Err ==> setter_stalled(
                old(self).sent(),
                final(self).sent(),
                old(self).slept(),
                final(self).slept(),
                RegisterAddress::Format.spec_code(),
                format.spec_code(),
            ),
    {
        self.write_config(RegisterAddress::Format, format.code())
    }

    /// Sets the capture resolution. The resolution register wants the code
    /// with the write mask set in the value byte as well.
    pub fn set_resolution(&mut self, resolution: Resolution) -> (r: Result<
        (),
        Error<SPI::BusError, Delay::DelayError>,
    >)
        ensures
            final(self).limit() == old(self).limit(),
            r is Ok ==> setter_trace(
                old(self).sent(),
                final(self).sent(),
                old(self).slept(),
                final(self).slept(),
                RegisterAddress::Resolution.spec_code(),
                resolution.spec_code() | WRITE_REGISTER_MASK,
            ),
            r is Err ==> setter_stalled(
                old(self).sent(),
                final(self).sent(),
                old(self).slept(),
                final(self).slept(),
                RegisterAddress::Resolution.spec_code(),
                resolution.spec_code() | WRITE_REGISTER_MASK,
            ),
    {
        self.write_config(
            RegisterAddress::Resolution,
            resolution.code() | WRITE_REGISTER_MASK,
        )
    }

    /// Sets the camera's debug device address.
    pub fn set_debug_device_address(&mut self, addr: u8) -> (r: Result<
        (),
        Error<SPI::BusError, Delay::DelayError>,
    >)
        ensures
            final(self).limit() == old(self).limit(),
            r is Ok ==> setter_trace(
                old(self).sent(),
                final(self).sent(),
                old(self).slept(),
                final(self).slept(),
                RegisterAddress::DebugDeviceAddress.spec_code(),
                addr,
            ),
            r is Err ==> setter_stalled(
                old(self).sent(),
                final(self).sent(),
                old(self).slept(),
                final(self).slept(),
                RegisterAddress::DebugDeviceAddress.spec_code(),
                addr,
            ),
    {
        self.write_config(RegisterAddress::DebugDeviceAddress, addr)
    }

    /// Empties the camera's output buffer. A pure command write: no idle
    /// wait follows it.
    pub fn clear_fifo(&mut self) -> (r: Result<(), Error<SPI::BusError, Delay::DelayError>>)
        ensures
            final(self).slept() == old(self).slept(),
            final(self).limit() == old(self).limit(),
            r is Ok ==> final(self).sent() == old(self).sent().push(
                reg_write_event(
                    RegisterAddress::ArduchipFifo.spec_code(),
                    ArduchipCommand::Clear.spec_code(),
                ),
            ),
            r is Err ==> final(self).sent() == old(self).sent() && r matches Err(
                Error::Spi(_),
            ),
    {
        self.write_reg(RegisterAddress::ArduchipFifo, ArduchipCommand::Clear.code())
    }

    /// Reads whether the sensor has finished capturing an image: a pure
    /// query of the capture-finished bit of the sensor state byte.
    pub fn capture_finished(&mut self) -> (r: Result<
        bool,
        Error<SPI::BusError, Delay::DelayError>,
    >)
        ensures
            final(self).slept() == old(self).slept(),
            final(self).limit() == old(self).limit(),
            r matches Ok(done) ==> {
                &&& final(self).sent().len() == old(self).sent().len() + 1
                &&& old(self).sent().is_prefix_of(final(self).sent())
                &&& is_state_poll(final(self).sent().last())
                &&& done == is_capture_finished_state(reply(final(self).sent().last()))
            },
            r is Err ==> final(self).sent() == old(self).sent() && r matches Err(
                Error::Spi(_),
            ),
    {
        let sensor_state = match self.read_reg(RegisterAddress::SensorState) {
            Ok(v) => v,
            Err(e) => {
                return Err(e);
            },
        };
        Ok((sensor_state & CAPTURE_FINISHED_MASK) != 0)
    }

    /// Starts a capture without waiting for it to finish: a buffer-clear
    /// command followed by a capture-start command, neither gated by an idle
    /// wait.
    pub fn capture_noblock(&mut self) -> (r: Result<
        (),
        Error<SPI::BusError, Delay::DelayError>,
    >)
        ensures
            final(self).slept() == old(self).slept(),
            final(self).limit() == old(self).limit(),
            r is Ok ==> final(self).sent() == old(self).sent().push(
                reg_write_event(
                    RegisterAddress::ArduchipFifo.spec_code(),
                    ArduchipCommand::Clear.spec_code(),
                ),
            ).push(
                reg_write_event(
                    RegisterAddress::ArduchipFifo.spec_code(),
                    ArduchipCommand::Start.spec_code(),
                ),
            ),
            r is Err ==> {
                &&& r matches Err(Error::Spi(_))
                &&& (final(self).sent() == old(self).sent() || final(self).sent() == old(
                    self,
                ).sent().push(
                    reg_write_event(
                        RegisterAddress::ArduchipFifo.spec_code(),
                        ArduchipCommand::Clear.spec_code(),
                    ),
                ))
            },
    {
        match self.clear_fifo() {
            Ok(()) => (),
            Err(e) => {
                return Err(e);
            },
        }
        self.write_reg(RegisterAddress::ArduchipFifo, ArduchipCommand::Start.code())
    }

    /// Takes a picture with the currently configured settings: starts a
    /// capture and polls the capture-finished bit, sleeping the fixed poll
    /// interval after every unfinished answer, up to the driver's poll
    /// limit.
    pub fn capture(&mut self) -> (r: Result<(), Error<SPI::BusError, Delay::DelayError>>)
        ensures
            final(self).limit() == old(self).limit(),
            r is Ok ==> capture_poll_trace(
                old(self).sent().push(
                    reg_write_event(
                        RegisterAddress::ArduchipFifo.spec_code(),
                        ArduchipCommand::Clear.spec_code(),
                    ),
                ).push(
                    reg_write_event(
                        RegisterAddress::ArduchipFifo.spec_code(),
                        ArduchipCommand::Start.spec_code(),
                    ),
                ),
                final(self).sent(),
                old(self).slept(),
                final(self).slept(),
            ),
            r is Err ==> {
                ||| (final(self).sent() == old(self).sent() && final(self).slept() == old(
                    self,
                ).slept())
                ||| (final(self).sent() == old(self).sent().push(
                    reg_write_event(
                        RegisterAddress::ArduchipFifo.spec_code(),
                        ArduchipCommand::Clear.spec_code(),
                    ),
                ) && final(self).slept() == old(self).slept())
                ||| capture_poll_stalled(
                    old(self).sent().push(
                        reg_write_event(
                            RegisterAddress::ArduchipFifo.spec_code(),
                            ArduchipCommand::Clear.spec_code(),
                        ),
                    ).push(
                        reg_write_event(
                            RegisterAddress::ArduchipFifo.spec_code(),
                            ArduchipCommand::Start.spec_code(),
                        ),
                    ),
                    final(self).sent(),
                    old(self).slept(),
                    final(self).slept(),
                )
            },
            r matches Err(Error::PollLimitReached) ==> {
                &&& final(self).sent().len() - old(self).sent().len() == old(self).limit() + 2
                &&& final(self).slept().len() - old(self).slept().len() == old(self).limit()
            },
    {
        match self.capture_noblock() {
            Ok(()) => (),
            Err(e) => {
                return Err(e);
            },
        }
        let ghost pre = self.sent();
        let limit = self.poll_limit;
        let mut polls: u64 = 0;
        loop
            invariant
                polls <= limit,
                limit == old(self).limit(),
                self.limit() == limit,
                self.sent().len() == pre.len() + polls,
                pre == old(self).sent().push(
                    reg_write_event(
                        RegisterAddress::ArduchipFifo.spec_code(),
                        ArduchipCommand::Clear.spec_code(),
                    ),
                ).push(
                    reg_write_event(
                        RegisterAddress::ArduchipFifo.spec_code(),
                        ArduchipCommand::Start.spec_code(),
                    ),
                ),
                pre.is_prefix_of(self.sent()),
                forall|i: int|
                    pre.len() <= i < self.sent().len() ==> is_state_poll(
                        #[trigger] self.sent()[i],
                    ) && !is_capture_finished_state(reply(self.sent()[i])),
                self.slept() == old(self).slept() + poll_sleeps(polls as nat),
            decreases limit - polls,
        {
            if polls == limit {
                return Err(Error::PollLimitReached);
            }
            let ghost sent0 = self.sent();
            let done = match self.capture_finished() {
                Ok(b) => b,
                Err(e) => {
                    return Err(e);
                },
            };
            proof {
                let posts = self.sent();
                assert forall|i: int|
                    pre.len() <= i < posts.len() - 1 implies is_state_poll(
                        #[trigger] posts[i],
                    ) && !is_capture_finished_state(reply(posts[i])) by {
                    assert(sent0 =~= posts.take(sent0.len() as int));
                    assert(posts[i] == sent0[i]);
                }
                assert forall|i: int| 0 <= i < pre.len() implies pre[i] == #[trigger] posts[i] by {
                    assert(sent0 =~= posts.take(sent0.len() as int));
                    assert(posts[i] == sent0[i]);
                }
                assert(pre =~= posts.take(pre.len() as int));
            }
            if done {
                return Ok(());
            }
            match self.delay.delay_us(POLL_INTERVAL_US) {
                Ok(()) => (),
                Err(e) => {
                    return Err(Error::Delay(e));
                },
            }
            proof {
                lemma_poll_sleeps_push(old(self).slept(), polls as nat);
            }
            polls = polls + 1;
        }
    }

    /// Reads the length of the camera's output buffer: three single-byte
    /// register reads assembled least-significant byte first. The value is
    /// an upper bound on the picture data; for compressed formats the camera
    /// may over-report it.
    pub fn read_fifo_length(&mut self) -> (r: Result<
        usize,
        Error<SPI::BusError, Delay::DelayError>,
    >)
        ensures
            final(self).slept() == old(self).slept(),
            final(self).limit() == old(self).limit(),
            old(self).sent().is_prefix_of(final(self).sent()),
            r matches Ok(length) ==> {
                let p = old(self).sent().len() as int;
                &&& final(self).sent().len() == p + 3
                &&& is_byte_read(
                    final(self).sent()[p],
                    RegisterAddress::FifoSize1.spec_code(),
                )
                &&& is_byte_read(
                    final(self).sent()[p + 1],
                    RegisterAddress::FifoSize2.spec_code(),
                )
                &&& is_byte_read(
                    final(self).sent()[p + 2],
                    RegisterAddress::FifoSize3.spec_code(),
                )
                &&& length == assemble_fifo_length(
                    reply(final(self).sent()[p]),
                    reply(final(self).sent()[p + 1]),
                    reply(final(self).sent()[p + 2]),
                )
            },
            r is Err ==> {
                let p = old(self).sent().len() as int;
                &&& r matches Err(Error::Spi(_))
                &&& final(self).sent().len() <= p + 2
                &&& final(self).sent().len() >= p + 1 ==> is_byte_read(
                    final(self).sent()[p],
                    RegisterAddress::FifoSize1.spec_code(),
                )
                &&& final(self).sent().len() == p + 2 ==> is_byte_read(
                    final(self).sent()[p + 1],
                    RegisterAddress::FifoSize2.spec_code(),
                )
            },
    {
        let ghost s0 = self.sent();
        let size1 = match self.read_reg(RegisterAddress::FifoSize1) {
            Ok(v) => v,
            Err(e) => {
                return Err(e);
            },
        };
        let ghost s1 = self.sent();
        let size2 = match self.read_reg(RegisterAddress::FifoSize2) {
            Ok(v) => v,
            Err(e) => {
                proof {
                    assert(s0 =~= self.sent().take(s0.len() as int));
                }
                return Err(e);
            },
        };
        let ghost s2 = self.sent();
        proof {
            assert(s1 =~= s2.take(s1.len() as int));
            assert(s0 =~= s2.take(s0.len() as int));
        }
        let size3 = match self.read_reg(RegisterAddress::FifoSize3) {
            Ok(v) => v,
            Err(e) => {
                return Err(e);
            },
        };
        proof {
            assert(s2 =~= self.sent().take(s2.len() as int));
            assert(s0 =~= self.sent().take(s0.len() as int));
            assert(self.sent()[s0.len() as int] == s1.last());
            assert(self.sent()[s0.len() as int + 1] == s2.last());
        }
        let length = ((size3 as usize) << 16) | ((size2 as usize) << 8) | (size1 as usize);
        Ok(length)
    }

    /// Reads one byte out of the output buffer, advancing the camera's read
    /// pointer past it.
    pub fn read_fifo_byte(&mut self) -> (r: Result<
        u8,
        Error<SPI::BusError, Delay::DelayError>,
    >)
        ensures
            final(self).slept() == old(self).slept(),
            final(self).limit() == old(self).limit(),
            r matches Ok(v) ==> {
                &&& final(self).sent().len() == old(self).sent().len() + 1
                &&& old(self).sent().is_prefix_of(final(self).sent())
                &&& is_byte_read(final(self).sent().last(), FIFO_READ_SINGLE)
                &&& v == reply(final(self).sent().last())
            },
            r is Err ==> final(self).sent() == old(self).sent() && r matches Err(
                Error::Spi(_),
            ),
    {
        let output: Vec<u8> = vec![FIFO_READ_SINGLE];
        match self.spi.transfer(output.as_slice(), 3) {
            Ok(data) => {
                proof {
                    assert(output@ =~= seq![FIFO_READ_SINGLE]);
                    assert(old(self).sent() =~= self.sent().take(old(self).sent().len() as int));
                }
                Ok(data[2])
            },
            Err(e) => Err(Error::Spi(e)),
        }
    }

    /// Switches one of the camera's automatic controls on or off.
    pub fn set_auto_camera_control(&mut self, cc: CameraControl, value: ControlValue) -> (r:
        Result<(), Error<SPI::BusError, Delay::DelayError>>)
        ensures
            final(self).limit() == old(self).limit(),
            r is Ok ==> setter_trace(
                old(self).sent(),
                final(self).sent(),
                old(self).slept(),
                final(self).slept(),
                RegisterAddress::GainExposureWhiteBalance.spec_code(),
                cc.spec_code() | value.spec_code(),
            ),
            r is Err ==> setter_stalled(
                old(self).sent(),
                final(self).sent(),
                old(self).slept(),
                final(self).slept(),
                RegisterAddress::GainExposureWhiteBalance.spec_code(),
                cc.spec_code() | value.spec_code(),
            ),
    {
        self.write_config(
            RegisterAddress::GainExposureWhiteBalance,
            cc.code() | value.code(),
        )
    }

    /// Enables the camera's automatic white balance.
    #[inline]
    pub fn enable_auto_white_balance(&mut self) -> (r: Result<
        (),
        Error<SPI::BusError, Delay::DelayError>,
    >)
        ensures
            final(self).limit() == old(self).limit(),
            r is Ok ==> setter_trace(
                old(self).sent(),
                final(self).sent(),
                old(self).slept(),
                final(self).slept(),
                RegisterAddress::GainExposureWhiteBalance.spec_code(),
                CameraControl::WhiteBalance.spec_code() | ControlValue::Enable.spec_code(),
            ),
            r is Err ==> setter_stalled(
                old(self).sent(),
                final(self).sent(),
                old(self).slept(),
                final(self).slept(),
                RegisterAddress::GainExposureWhiteBalance.spec_code(),
                CameraControl::WhiteBalance.spec_code() | ControlValue::Enable.spec_code(),
            ),
    {
        self.set_auto_camera_control(CameraControl::WhiteBalance, ControlValue::Enable)
    }

    /// Disables the camera's automatic white balance, so that a fixed mode
    /// set afterwards is not overridden on the sensor's next adjust cycle.
    #[inline]
    pub fn disable_auto_white_balance(&mut self) -> (r: Result<
        (),
        Error<SPI::BusError, Delay::DelayError>,
    >)
        ensures
            final(self).limit() == old(self).limit(),
            r is Ok ==> setter_trace(
                old(self).sent(),
                final(self).sent(),
                old(self).slept(),
                final(self).slept(),
                RegisterAddress::GainExposureWhiteBalance.spec_code(),
                CameraControl::WhiteBalance.spec_code() | ControlValue::Disable.spec_code(),
            ),
            r is Err ==> setter_stalled(
                old(self).sent(),
                final(self).sent(),
                old(self).slept(),
                final(self).slept(),
                RegisterAddress::GainExposureWhiteBalance.spec_code(),
                CameraControl::WhiteBalance.spec_code() | ControlValue::Disable.spec_code(),
            ),
    {
        self.set_auto_camera_control(CameraControl::WhiteBalance, ControlValue::Disable)
    }

    /// Enables the camera's automatic gain adjustment.
    #[inline]
    pub fn enable_auto_iso(&mut self) -> (r: Result<
        (),
        Error<SPI::BusError, Delay::DelayError>,
    >)
        ensures
            final(self).limit() == old(self).limit(),
            r is Ok ==> setter_trace(
                old(self).sent(),
                final(self).sent(),
                old(self).slept(),
                final(self).slept(),
                RegisterAddress::GainExposureWhiteBalance.spec_code(),
                CameraControl::Gain.spec_code() | ControlValue::Enable.spec_code(),
            ),
            r is Err ==> setter_stalled(
                old(self).sent(),
                final(self).sent(),
                old(self).slept(),
                final(self).slept(),
                RegisterAddress::GainExposureWhiteBalance.spec_code(),
                CameraControl::Gain.spec_code() | ControlValue::Enable.spec_code(),
            ),
    {
        self.set_auto_camera_control(CameraControl::Gain, ControlValue::Enable)
    }

    /// Disables the camera's automatic gain adjustment.
    #[inline]
    pub fn disable_auto_iso(&mut self) -> (r: Result<
        (),
        Error<SPI::BusError, Delay::DelayError>,
    >)
        ensures
            final(self).limit() == old(self).limit(),
            r is Ok ==> setter_trace(
                old(self).sent(),
                final(self).sent(),
                old(self).slept(),
                final(self).slept(),
                RegisterAddress::GainExposureWhiteBalance.spec_code(),
                CameraControl::Gain.spec_code() | ControlValue::Disable.spec_code(),
            ),
            r is Err ==> setter_stalled(
                old(self).sent(),
                final(self).sent(),
                old(self).slept(),
                final(self).slept(),
                RegisterAddress::GainExposureWhiteBalance.spec_code(),
                CameraControl::Gain.spec_code() | ControlValue::Disable.spec_code(),
            ),
    {
        self.set_auto_camera_control(CameraControl::Gain, ControlValue::Disable)
    }

    /// Enables the camera's automatic exposure control.
    #[inline]
    pub fn enable_auto_exposure(&mut self) -> (r: Result<
        (),
        Error<SPI::BusError, Delay::DelayError>,
    >)
        ensures
            final(self).limit() == old(self).limit(),
            r is Ok ==> setter_trace(
                old(self).sent(),
                final(self).sent(),
                old(self).slept(),
                final(self).slept(),
                RegisterAddress::GainExposureWhiteBalance.spec_code(),
                CameraControl::Exposure.spec_code() | ControlValue::Enable.spec_code(),
            ),
            r is Err ==> setter_stalled(
                old(self).sent(),
                final(self).sent(),
                old(self).slept(),
                final(self).slept(),
                RegisterAddress::GainExposureWhiteBalance.spec_code(),
                CameraControl::Exposure.spec_code() | ControlValue::Enable.spec_code(),
            ),
    {
        self.set_auto_camera_control(CameraControl::Exposure, ControlValue::Enable)
    }

    /// Disables the camera's automatic exposure control.
    #[inline]
    pub fn disable_auto_exposure(&mut self) -> (r: Result<
        (),
        Error<SPI::BusError, Delay::DelayError>,
    >)
        ensures
            final(self).limit() == old(self).limit(),
            r is Ok ==> setter_trace(
                old(self).sent(),
                final(self).sent(),
                old(self).slept(),
                final(self).slept(),
                RegisterAddress::GainExposureWhiteBalance.spec_code(),
                CameraControl::Exposure.spec_code() | ControlValue::Disable.spec_code(),
            ),
            r is Err ==> setter_stalled(
                old(self).sent(),
                final(self).sent(),
                old(self).slept(),
                final(self).slept(),
                RegisterAddress::GainExposureWhiteBalance.spec_code(),
                CameraControl::Exposure.spec_code() | ControlValue::Disable.spec_code(),
            ),
    {
        self.set_auto_camera_control(CameraControl::Exposure, ControlValue::Disable)
    }

    /// Fixes the white balance to `mode`. Automatic white balance is
    /// disabled first — in that order, each write followed by its idle wait
    /// — so that the sensor cannot override the fixed value on its next
    /// automatic adjustment.
    pub fn set_white_balance_mode(&mut self, mode: WhiteBalanceMode) -> (r: Result<
        (),
        Error<SPI::BusError, Delay::DelayError>,
    >)
        ensures
            final(self).limit() == old(self).limit(),
            r is Ok ==> exists|mid: Seq<BusEvent>, mid_s: Seq<u32>|
                {
                    &&& #[trigger] setter_trace(
                        old(self).sent(),
                        mid,
                        old(self).slept(),
                        mid_s,
                        RegisterAddress::GainExposureWhiteBalance.spec_code(),
                        CameraControl::WhiteBalance.spec_code()
                            | ControlValue::Disable.spec_code(),
                    )
                    &&& setter_trace(
                        mid,
                        final(self).sent(),
                        mid_s,
                        final(self).slept(),
                        RegisterAddress::WhiteBalanceMode.spec_code(),
                        mode.spec_code(),
                    )
                },
            r is Err ==> {
                ||| setter_stalled(
                    old(self).sent(),
                    final(self).sent(),
                    old(self).slept(),
                    final(self).slept(),
                    RegisterAddress::GainExposureWhiteBalance.spec_code(),
                    CameraControl::WhiteBalance.spec_code() | ControlValue::Disable.spec_code(),
                )
                ||| exists|mid: Seq<BusEvent>, mid_s: Seq<u32>|
                    {
                        &&& #[trigger] setter_trace(
                            old(self).sent(),
                            mid,
                            old(self).slept(),
                            mid_s,
                            RegisterAddress::GainExposureWhiteBalance.spec_code(),
                            CameraControl::WhiteBalance.spec_code()
                                | ControlValue::Disable.spec_code(),
                        )
                        &&& setter_stalled(
                            mid,
                            final(self).sent(),
                            mid_s,
                            final(self).slept(),
                            RegisterAddress::WhiteBalanceMode.spec_code(),
                            mode.spec_code(),
                        )
                    }
            },
    {
        match self.disable_auto_white_balance() {
            Ok(()) => (),
            Err(e) => {
                return Err(e);
            },
        }
        let ghost mid = self.sent();
        let ghost mid_s = self.slept();
        let r = self.write_config(RegisterAddress::WhiteBalanceMode, mode.code());
        proof {
            assert(setter_trace(
                old(self).sent(),
                mid,
                old(self).slept(),
                mid_s,
                RegisterAddress::GainExposureWhiteBalance.spec_code(),
                CameraControl::WhiteBalance.spec_code() | ControlValue::Disable.spec_code(),
            ));
        }
        r
    }

    /// Writes the camera's power mode. A pure command write: no idle wait
    /// follows it.
    #[inline]
    fn set_power_mode(&mut self, mode: PowerMode) -> (r: Result<
        (),
        Error<SPI::BusError, Delay::DelayError>,
    >)
        ensures
            final(self).slept() == old(self).slept(),
            final(self).limit() == old(self).limit(),
            r is Ok ==> final(self).sent() == old(self).sent().push(
                reg_write_event(RegisterAddress::Power.spec_code(), mode.spec_code()),
            ),
            r is Err ==> final(self).sent() == old(self).sent() && r matches Err(
                Error::Spi(_),
            ),
    {
        self.write_reg(RegisterAddress::Power, mode.code())
    }

    /// Turns on the camera's low power mode.
    #[inline]
    pub fn enable_low_power_mode(&mut self) -> (r: Result<
        (),
        Error<SPI::BusError, Delay::DelayError>,
    >)
        ensures
            final(self).slept() == old(self).slept(),
            final(self).limit() == old(self).limit(),
            r is Ok ==> final(self).sent() == old(self).sent().push(
                reg_write_event(
                    RegisterAddress::Power.spec_code(),
                    PowerMode::LowPower.spec_code(),
                ),
            ),
            r is Err ==> final(self).sent() == old(self).sent() && r matches Err(
                Error::Spi(_),
            ),
    {
        self.set_power_mode(PowerMode::LowPower)
    }

    /// Turns off the camera's low power mode.
    #[inline]
    pub fn disable_low_power_mode(&mut self) -> (r: Result<
        (),
        Error<SPI::BusError, Delay::DelayError>,
    >)
        ensures
            final(self).slept() == old(self).slept(),
            final(self).limit() == old(self).limit(),
            r is Ok ==> final(self).sent() == old(self).sent().push(
                reg_write_event(
                    RegisterAddress::Power.spec_code(),
                    PowerMode::Normal.spec_code(),
                ),
            ),
            r is Err ==> final(self).sent() == old(self).sent() && r matches Err(
                Error::Spi(_),
            ),
    {
        self.set_power_mode(PowerMode::Normal)
    }

    /// Sets the camera's brightness bias.
    pub fn set_brightness_bias(&mut self, level: BrightnessLevel) -> (r: Result<
        (),
        Error<SPI::BusError, Delay::DelayError>,
    >)
        ensures
            final(self).limit() == old(self).limit(),
            r is Ok ==> setter_trace(
                old(self).sent(),
                final(self).sent(),
                old(self).slept(),
                final(self).slept(),
                RegisterAddress::Brightness.spec_code(),
                level.spec_code(),
            ),
            r is Err ==> setter_stalled(
                old(self).sent(),
                final(self).sent(),
                old(self).slept(),
                final(self).slept(),
                RegisterAddress::Brightness.spec_code(),
                level.spec_code(),
            ),
    {
        self.write_config(RegisterAddress::Brightness, level.code())
    }

    /// Sets the camera's contrast.
    pub fn set_contrast(&mut self, level: Level) -> (r: Result<
        (),
        Error<SPI::BusError, Delay::DelayError>,
    >)
        ensures
            final(self).limit() == old(self).limit(),
            r is Ok ==> setter_trace(
                old(self).sent(),
                final(self).sent(),
                old(self).slept(),
                final(self).slept(),
                RegisterAddress::Contrast.spec_code(),
                level.spec_code(),
            ),
            r is Err ==> setter_stalled(
                old(self).sent(),
                final(self).sent(),
                old(self).slept(),
                final(self).slept(),
                RegisterAddress::Contrast.spec_code(),
                level.spec_code(),
            ),
    {
        self.write_config(RegisterAddress::Contrast, level.code())
    }

    /// Sets the camera's saturation.
    pub fn set_saturation(&mut self, level: Level) -> (r: Result<
        (),
        Error<SPI::BusError, Delay::DelayError>,
    >)
        ensures
            final(self).limit() == old(self).limit(),
            r is Ok ==> setter_trace(
                old(self).sent(),
                final(self).sent(),
                old(self).slept(),
                final(self).slept(),
                RegisterAddress::Saturation.spec_code(),
                level.spec_code(),
            ),
            r is Err ==> setter_stalled(
                old(self).sent(),
                final(self).sent(),
                old(self).slept(),
                final(self).slept(),
                RegisterAddress::Saturation.spec_code(),
                level.spec_code(),
            ),
    {
        self.write_config(RegisterAddress::Saturation, level.code())
    }

    /// Sets the camera's exposure.
    pub fn set_exposure(&mut self, level: Level) -> (r: Result<
        (),
        Error<SPI::BusError, Delay::DelayError>,
    >)
        ensures
            final(self).limit() == old(self).limit(),
            r is Ok ==> setter_trace(
                old(self).sent(),
                final(self).sent(),
                old(self).slept(),
                final(self).slept(),
                RegisterAddress::Exposure.spec_code(),
                level.spec_code(),
            ),
            r is Err ==> setter_stalled(
                old(self).sent(),
                final(self).sent(),
                old(self).slept(),
                final(self).slept(),
                RegisterAddress::Exposure.spec_code(),
                level.spec_code(),
            ),
    {
        self.write_config(RegisterAddress::Exposure, level.code())
    }

    /// Sets the camera's color effect.
    pub fn set_color_effect(&mut self, effect: ColorEffect) -> (r: Result<
        (),
        Error<SPI::BusError, Delay::DelayError>,
    >)
        ensures
            final(self).limit() == old(self).limit(),
            r is Ok ==> setter_trace(
                old(self).sent(),
                final(self).sent(),
                old(self).slept(),
                final(self).slept(),
                RegisterAddress::ColorEffect.spec_code(),
                effect.spec_code(),
            ),
            r is Err ==> setter_stalled(
                old(self).sent(),
                final(self).sent(),
                old(self).slept(),
                final(self).slept(),
                RegisterAddress::ColorEffect.spec_code(),
                effect.spec_code(),
            ),
    {
        self.write_config(RegisterAddress::ColorEffect, effect.code())
    }

    /// Sets the camera's sharpness.
    pub fn set_sharpness(&mut self, level: SharpnessLevel) -> (r: Result<
        (),
        Error<SPI::BusError, Delay::DelayError>,
    >)
        ensures
            final(self).limit() == old(self).limit(),
            r is Ok ==> setter_trace(
                old(self).sent(),
                final(self).sent(),
                old(self).slept(),
                final(self).slept(),
                RegisterAddress::Sharpness.spec_code(),
                level.spec_code(),
            ),
            r is Err ==> setter_stalled(
                old(self).sent(),
                final(self).sent(),
                old(self).slept(),
                final(self).slept(),
                RegisterAddress::Sharpness.spec_code(),
                level.spec_code(),
            ),
    {
        self.write_config(RegisterAddress::Sharpness, level.code())
    }

    /// Drains the camera's output buffer into `data`, inside one scoped bus
    /// transaction: full 65-byte burst windows (two padding bytes, then 63
    /// payload bytes) while more than 63 bytes remain, then one terminal
    /// window of exactly the remaining length plus the two padding bytes.
    /// The transaction is opened before the first transfer and closed on
    /// every exit path, success or failure; on failure `data` keeps the
    /// windows already copied and is otherwise unchanged.
    pub fn read_fifo_full(&mut self, data: &mut Vec<u8>) -> (r: Result<
        (),
        Error<SPI::BusError, Delay::DelayError>,
    >)
        ensures
            final(self).slept() == old(self).slept(),
            final(self).limit() == old(self).limit(),
            final(data)@.len() == old(data)@.len(),
            r is Ok ==> bulk_read_trace(
                old(self).sent(),
                final(self).sent(),
                old(data)@,
                final(data)@,
            ),
            r is Err ==> (r matches Err(Error::Spi(_))) && bulk_read_aborted(
                old(self).sent(),
                final(self).sent(),
                old(data)@,
                final(data)@,
            ),
    {
        let ghost pre = old(self).sent();
        let length = data.len();
        let output: Vec<u8> = vec![FIFO_READ_BURST];
        proof {
            assert(output@ =~= seq![FIFO_READ_BURST]);
        }
        self.spi.begin_transaction();
        let mut i: usize = 0;
        let ghost mut chunks: int = 0;
        while length - i > 63
            invariant
                self.limit() == old(self).limit(),
                self.slept() == old(self).slept(),
                data@.len() == length,
                length == old(data)@.len(),
                output@ == seq![FIFO_READ_BURST],
                0 <= chunks,
                i == 63 * chunks,
                i <= length,
                length > 0 ==> 63 * chunks <= length - 1,
                self.sent().len() == pre.len() + 1 + chunks,
                pre == old(self).sent(),
                pre.is_prefix_of(self.sent()),
                self.sent()[pre.len() as int] is Start,
                forall|j: int|
                    0 <= j < chunks ==> is_burst_transfer(
                        #[trigger] self.sent()[pre.len() + 1 + j],
                    ) && self.sent()[pre.len() + 1 + j]->received.len() == 65,
                forall|j: int|
                    0 <= j < chunks ==> #[trigger] data@.subrange(63 * j, 63 * j + 63)
                        == burst_payload(self.sent()[pre.len() + 1 + j]),
                forall|t: int| i <= t < length ==> #[trigger] data@[t] == old(data)@[t],
            decreases length - i,
        {
            let ghost sent0 = self.sent();
            let ghost data_prev = data@;
            match self.spi.transfer(output.as_slice(), 65) {
                Ok(buf) => {
                    copy_window(data, i, 63, &buf);
                    proof {
                        let posts = self.sent();
                        assert(posts == sent0.push(
                            BusEvent::Transfer { sent: output@, received: buf@ },
                        ));
                        assert forall|j: int|
                            0 <= j < chunks + 1 implies is_burst_transfer(
                                #[trigger] posts[pre.len() + 1 + j],
                            ) && posts[pre.len() + 1 + j]->received.len() == 65 by {
                            if j < chunks {
                                assert(posts[pre.len() + 1 + j] == sent0[pre.len() + 1 + j]);
                            } else {
                                assert(posts[pre.len() + 1 + j] == posts.last());
                            }
                        }
                        assert forall|j: int|
                            0 <= j < chunks + 1 implies #[trigger] data@.subrange(
                                63 * j,
                                63 * j + 63,
                            ) == burst_payload(posts[pre.len() + 1 + j]) by {
                            if j < chunks {
                                assert(posts[pre.len() + 1 + j] == sent0[pre.len() + 1 + j]);
                                assert(data@.subrange(63 * j, 63 * j + 63) =~= data_prev.subrange(
                                    63 * j,
                                    63 * j + 63,
                                ));
                            } else {
                                assert(posts[pre.len() + 1 + j] == posts.last());
                                assert(data@.subrange(63 * j, 63 * j + 63) =~= buf@.skip(2));
                            }
                        }
                        assert(pre =~= posts.take(pre.len() as int));
                        chunks = chunks + 1;
                    }
                    i += 63;
                },
                Err(e) => {
                    self.spi.end_transaction();
                    proof {
                        let posts = self.sent();
                        assert(posts == sent0.push(BusEvent::End));
                        assert(pre =~= posts.take(pre.len() as int));
                        assert forall|j: int|
                            0 <= j < chunks implies is_burst_transfer(
                                #[trigger] posts[pre.len() + 1 + j],
                            ) && posts[pre.len() + 1 + j]->received.len() == 65 by {
                            assert(posts[pre.len() + 1 + j] == sent0[pre.len() + 1 + j]);
                        }
                        assert forall|j: int|
                            0 <= j < chunks implies #[trigger] data@.subrange(
                                63 * j,
                                63 * j + 63,
                            ) == burst_payload(posts[pre.len() + 1 + j]) by {
                            assert(posts[pre.len() + 1 + j] == sent0[pre.len() + 1 + j]);
                        }
                        assert(data@.skip(63 * chunks) =~= old(data)@.skip(63 * chunks));
                        if length > 0 {
                            lemma_fundamental_div_mod(length - 1, 63);
                            lemma_mod_bound(length - 1, 63);
                        }
                        assert(chunks <= full_chunks(length as int));
                    }
                    return Err(Error::Spi(e));
                },
            }
        }
        let rem = length - i;
        let ghost sent0 = self.sent();
        let ghost data_prev = data@;
        match self.spi.transfer(output.as_slice(), rem + 2) {
            Ok(buf) => {
                copy_window(data, i, rem, &buf);
                self.spi.end_transaction();
                proof {
                    let posts = self.sent();
                    assert(posts == sent0.push(
                        BusEvent::Transfer { sent: output@, received: buf@ },
                    ).push(BusEvent::End));
                    if length > 0 {
                        lemma_fundamental_div_mod_converse(
                            length - 1,
                            63,
                            chunks,
                            length - 1 - 63 * chunks,
                        );
                    }
                    assert(chunks == full_chunks(length as int));
                    assert(pre =~= posts.take(pre.len() as int));
                    assert forall|j: int|
                        0 <= j <= chunks implies is_burst_transfer(
                            #[trigger] posts[pre.len() + 1 + j],
                        ) by {
                        if j < chunks {
                            assert(posts[pre.len() + 1 + j] == sent0[pre.len() + 1 + j]);
                        } else {
                            assert(posts[pre.len() + 1 + j] == posts[posts.len() - 2]);
                        }
                    }
                    assert forall|j: int|
                        0 <= j < chunks implies (#[trigger] posts[pre.len() + 1 + j])
                            ->received.len() == 65 by {
                        assert(posts[pre.len() + 1 + j] == sent0[pre.len() + 1 + j]);
                    }
                    assert(posts[pre.len() + 1 + chunks]->received.len() == (length - 63 * chunks)
                        + 2);
                    assert forall|j: int|
                        0 <= j < chunks implies #[trigger] data@.subrange(63 * j, 63 * j + 63)
                            == burst_payload(posts[pre.len() + 1 + j]) by {
                        assert(posts[pre.len() + 1 + j] == sent0[pre.len() + 1 + j]);
                        assert(data@.subrange(63 * j, 63 * j + 63) =~= data_prev.subrange(
                            63 * j,
                            63 * j + 63,
                        ));
                    }
                    assert(data@.skip(63 * chunks) =~= buf@.skip(2));
                }
                Ok(())
            },
            Err(e) => {
                self.spi.end_transaction();
                proof {
                    let posts = self.sent();
                    assert(posts == sent0.push(BusEvent::End));
                    assert(pre =~= posts.take(pre.len() as int));
                    assert forall|j: int|
                        0 <= j < chunks implies is_burst_transfer(
                            #[trigger] posts[pre.len() + 1 + j],
                        ) && posts[pre.len() + 1 + j]->received.len() == 65 by {
                        assert(posts[pre.len() + 1 + j] == sent0[pre.len() + 1 + j]);
                    }
                    assert forall|j: int|
                        0 <= j < chunks implies #[trigger] data@.subrange(63 * j, 63 * j + 63)
                            == burst_payload(posts[pre.len() + 1 + j]) by {
                        assert(posts[pre.len() + 1 + j] == sent0[pre.len() + 1 + j]);
                    }
                    assert(data@.skip(63 * chunks) =~= old(data)@.skip(63 * chunks));
                    if length > 0 {
                        lemma_fundamental_div_mod(length - 1, 63);
                        lemma_mod_bound(length - 1, 63);
                    }
                    assert(chunks <= full_chunks(length as int));
                }
                return Err(Error::Spi(e));
            },
        }
    }
}

/// A 24-bit output-buffer length assembled from its three size bytes,
/// least-significant first.
pub open spec fn assemble_fifo_length(b1: u8, b2: u8, b3: u8) -> usize {
    ((b3 as usize) << 16) | ((b2 as usize) << 8) | (b1 as usize)
}

/// Copies `count` bytes of `src`, starting past its two padding bytes, into
/// `data[start..start + count]`; every other byte of `data` is untouched.
fn copy_window(data: &mut Vec<u8>, start: usize, count: usize, src: &Vec<u8>)
    requires
        src@.len() >= count + 2,
        start + count <= old(data)@.len(),
    ensures
        final(data)@.len() == old(data)@.len(),
        forall|t: int|
            start <= t < start + count ==> #[trigger] final(data)@[t] == src@[2 + (t - start)],
        forall|t: int|
            0 <= t < old(data)@.len() && !(start <= t < start + count)
                ==> #[trigger] final(data)@[t] == old(data)@[t],
{
    let src_len: usize = src.len();
    let data_len: usize = data.len();
    let mut j: usize = 0;
    while j < count
        invariant
            j <= count,
            src_len == src@.len(),
            data_len == data@.len(),
            src@.len() >= count + 2,
            start + count <= data@.len(),
            data@.len() == old(data)@.len(),
            forall|t: int|
                start <= t < start + j ==> #[trigger] data@[t] == src@[2 + (t - start)],
            forall|t: int|
                0 <= t < data@.len() && !(start <= t < start + j)
                    ==> #[trigger] data@[t] == old(data)@[t],
        decreases count - j,
    {
        let b = src[2 + j];
        data[start + j] = b;
        j = j + 1;
    }
}

} // verus!
