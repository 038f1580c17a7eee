//! The camera's wire protocol: register addresses, command codes, and the
//! spec-level shapes of the traffic each driver operation produces.
//!
//! A register write travels as `[address | 0x80, value]`. A register read
//! sends `[address]` and clocks three bytes back, of which only the last is
//! payload; the first two are protocol padding. A burst read sends
//! `[FIFO_READ_BURST]` and clocks `2 + n` bytes back, payload starting at
//! index 2.

use vstd::prelude::*;

use crate::bus::BusEvent;

verus! {

/// ORed into the address byte of every register write.
pub const WRITE_REGISTER_MASK: u8 = 0x80;

/// Masks the two low bits of the sensor state byte.
pub const SENSOR_STATE_MASK: u8 = 0x03;

/// The masked state value meaning the sensor is idle.
pub const SENSOR_STATE_IDLE: u8 = 0x02;

/// Written to the sensor-reset register to trigger a reset.
pub const SENSOR_RESET_ENABLE: u8 = 0x40;

/// Bit of the sensor state byte meaning a capture has finished.
pub const CAPTURE_FINISHED_MASK: u8 = 0x04;

/// Command byte of a burst read from the output buffer.
pub const FIFO_READ_BURST: u8 = 0x3c;

/// Command byte of a single-byte read from the output buffer.
pub const FIFO_READ_SINGLE: u8 = 0x3d;

/// Microseconds slept between two polls of the sensor state register.
pub const POLL_INTERVAL_US: u32 = 500;

/// The camera's register file, as the driver addresses it.
#[derive(Copy, Clone, Debug)]
pub enum RegisterAddress {
    Power,
    ArduchipFifo,
    SensorReset,
    DebugDeviceAddress,
    Format,
    Resolution,
    Brightness,
    Contrast,
    Saturation,
    Exposure,
    WhiteBalanceMode,
    ColorEffect,
    Sharpness,
    AutoFocus,
    GainExposureWhiteBalance,
    SensorId,
    SensorState,
    FifoSize1,
    FifoSize2,
    FifoSize3,
}

impl RegisterAddress {
    /// The address byte of this register.
    pub open spec fn spec_code(self) -> u8 {
        match self {
            RegisterAddress::Power => 0x02,
            RegisterAddress::ArduchipFifo => 0x04,
            RegisterAddress::SensorReset => 0x07,
            RegisterAddress::DebugDeviceAddress => 0x0a,
            RegisterAddress::Format => 0x20,
            RegisterAddress::Resolution => 0x21,
            RegisterAddress::Brightness => 0x22,
            RegisterAddress::Contrast => 0x23,
            RegisterAddress::Saturation => 0x24,
            RegisterAddress::Exposure => 0x25,
            RegisterAddress::WhiteBalanceMode => 0x26,
            RegisterAddress::ColorEffect => 0x27,
            RegisterAddress::Sharpness => 0x28,
            RegisterAddress::AutoFocus => 0x29,
            RegisterAddress::GainExposureWhiteBalance => 0x2a,
            RegisterAddress::SensorId => 0x40,
            RegisterAddress::SensorState => 0x44,
            RegisterAddress::FifoSize1 => 0x45,
            RegisterAddress::FifoSize2 => 0x46,
            RegisterAddress::FifoSize3 => 0x47,
        }
    }

    /// The address byte of this register.
    #[verifier::when_used_as_spec(spec_code)]
    pub fn code(self) -> (c: u8)
        ensures
            c == self.spec_code(),
    {
        match self {
            RegisterAddress::Power => 0x02,
            RegisterAddress::ArduchipFifo => 0x04,
            RegisterAddress::SensorReset => 0x07,
            RegisterAddress::DebugDeviceAddress => 0x0a,
            RegisterAddress::Format => 0x20,
            RegisterAddress::Resolution => 0x21,
            RegisterAddress::Brightness => 0x22,
            RegisterAddress::Contrast => 0x23,
            RegisterAddress::Saturation => 0x24,
            RegisterAddress::Exposure => 0x25,
            RegisterAddress::WhiteBalanceMode => 0x26,
            RegisterAddress::ColorEffect => 0x27,
            RegisterAddress::Sharpness => 0x28,
            RegisterAddress::AutoFocus => 0x29,
            RegisterAddress::GainExposureWhiteBalance => 0x2a,
            RegisterAddress::SensorId => 0x40,
            RegisterAddress::SensorState => 0x44,
            RegisterAddress::FifoSize1 => 0x45,
            RegisterAddress::FifoSize2 => 0x46,
            RegisterAddress::FifoSize3 => 0x47,
        }
    }
}

/// Commands written to the `ArduchipFifo` register.
#[derive(Copy, Clone, Debug)]
pub enum ArduchipCommand {
    /// Empty the output buffer.
    Clear,
    /// Start a capture.
    Start,
}

impl ArduchipCommand {
    /// The command's byte value.
    pub open spec fn spec_code(self) -> u8 {
        match self {
            ArduchipCommand::Clear => 0x01,
            ArduchipCommand::Start => 0x02,
        }
    }

    /// The command's byte value.
    #[verifier::when_used_as_spec(spec_code)]
    pub fn code(self) -> (c: u8)
        ensures
            c == self.spec_code(),
    {
        match self {
            ArduchipCommand::Clear => 0x01,
            ArduchipCommand::Start => 0x02,
        }
    }
}

/// The wire frame of a write of `value` to the register at address `a`.
pub open spec fn write_frame(a: u8, value: u8) -> Seq<u8> {
    seq![a | WRITE_REGISTER_MASK, value]
}

/// The bus event of a write of `value` to the register at address `a`.
pub open spec fn reg_write_event(a: u8, value: u8) -> BusEvent {
    BusEvent::Write { data: write_frame(a, value) }
}

/// Holds when `e` is a single-byte read command `a` with its three-byte
/// response: one byte sent, three received.
pub open spec fn is_byte_read(e: BusEvent, a: u8) -> bool {
    &&& e is Transfer
    &&& e->sent == seq![a]
    &&& e->received.len() == 3
}

/// The payload of a single-byte read: the third received byte. The first two
/// received bytes are protocol padding with no meaning.
pub open spec fn reply(e: BusEvent) -> u8 {
    e->received[2]
}

/// Holds when `e` is a poll of the sensor state register.
pub open spec fn is_state_poll(e: BusEvent) -> bool {
    is_byte_read(e, RegisterAddress::SensorState.spec_code())
}

/// Holds when a state byte reports the sensor idle.
pub open spec fn is_idle_state(v: u8) -> bool {
    v & SENSOR_STATE_MASK == SENSOR_STATE_IDLE
}

/// Holds when a state byte reports the capture finished.
pub open spec fn is_capture_finished_state(v: u8) -> bool {
    v & CAPTURE_FINISHED_MASK != 0
}

/// The sleeps of `n` poll intervals: `n` entries of the fixed interval.
pub open spec fn poll_sleeps(n: nat) -> Seq<u32> {
    Seq::new(n, |i: int| POLL_INTERVAL_US)
}

/// One more poll interval extends the sleep record by one entry.
pub proof fn lemma_poll_sleeps_push(pre: Seq<u32>, n: nat)
    ensures
        pre + poll_sleeps(n + 1) == (pre + poll_sleeps(n)).push(POLL_INTERVAL_US),
{
    assert(pre + poll_sleeps(n + 1) =~= (pre + poll_sleeps(n)).push(POLL_INTERVAL_US));
}

/// The traffic of a successful idle wait, started from transcript `pre` and
/// sleep record `pre_s`: one or more polls of the sensor state register, all
/// but the last answered non-idle, the last answered idle, with one
/// fixed-interval sleep after each non-idle answer.
pub open spec fn idle_wait_trace(
    pre: Seq<BusEvent>,
    post: Seq<BusEvent>,
    pre_s: Seq<u32>,
    post_s: Seq<u32>,
) -> bool {
    &&& pre.is_prefix_of(post)
    &&& post.len() > pre.len()
    &&& forall|i: int|
        pre.len() <= i < post.len() ==> is_state_poll(#[trigger] post[i])
    &&& forall|i: int|
        pre.len() <= i < post.len() - 1 ==> !is_idle_state(reply(#[trigger] post[i]))
    &&& is_idle_state(reply(post.last()))
    &&& post_s == pre_s + poll_sleeps((post.len() - pre.len() - 1) as nat)
}

/// The traffic of an idle wait that was cut short by a failure: every poll so
/// far was answered non-idle, every sleep so far was the fixed interval, and
/// the sleeps lag the polls by at most one.
pub open spec fn idle_wait_stalled(
    pre: Seq<BusEvent>,
    post: Seq<BusEvent>,
    pre_s: Seq<u32>,
    post_s: Seq<u32>,
) -> bool {
    &&& pre.is_prefix_of(post)
    &&& forall|i: int|
        pre.len() <= i < post.len() ==> is_state_poll(#[trigger] post[i]) && !is_idle_state(
            reply(post[i]),
        )
    &&& pre_s.is_prefix_of(post_s)
    &&& forall|i: int| pre_s.len() <= i < post_s.len() ==> post_s[i] == POLL_INTERVAL_US
    &&& post_s.len() - pre_s.len() <= post.len() - pre.len() <= post_s.len() - pre_s.len() + 1
}

/// The traffic of a successful configuration write: the register write frame,
/// then a successful idle wait.
pub open spec fn setter_trace(
    pre: Seq<BusEvent>,
    post: Seq<BusEvent>,
    pre_s: Seq<u32>,
    post_s: Seq<u32>,
    a: u8,
    value: u8,
) -> bool {
    idle_wait_trace(pre.push(reg_write_event(a, value)), post, pre_s, post_s)
}

/// The traffic of a configuration write cut short by a failure: either the
/// write itself failed and nothing was carried, or the write went out and the
/// idle wait after it stalled.
pub open spec fn setter_stalled(
    pre: Seq<BusEvent>,
    post: Seq<BusEvent>,
    pre_s: Seq<u32>,
    post_s: Seq<u32>,
    a: u8,
    value: u8,
) -> bool {
    ||| (post == pre && post_s == pre_s)
    ||| idle_wait_stalled(pre.push(reg_write_event(a, value)), post, pre_s, post_s)
}

/// The traffic of a successful completion wait after a capture start: one or
/// more polls of the sensor state register, all but the last with the
/// capture-finished bit clear, the last with it set, with one fixed-interval
/// sleep after each unfinished answer.
pub open spec fn capture_poll_trace(
    pre: Seq<BusEvent>,
    post: Seq<BusEvent>,
    pre_s: Seq<u32>,
    post_s: Seq<u32>,
) -> bool {
    &&& pre.is_prefix_of(post)
    &&& post.len() > pre.len()
    &&& forall|i: int|
        pre.len() <= i < post.len() ==> is_state_poll(#[trigger] post[i])
    &&& forall|i: int|
        pre.len() <= i < post.len() - 1 ==> !is_capture_finished_state(
            reply(#[trigger] post[i]),
        )
    &&& is_capture_finished_state(reply(post.last()))
    &&& post_s == pre_s + poll_sleeps((post.len() - pre.len() - 1) as nat)
}

/// The traffic of a completion wait cut short by a failure: every poll so far
/// had the capture-finished bit clear, every sleep so far was the fixed
/// interval, and the sleeps lag the polls by at most one.
pub open spec fn capture_poll_stalled(
    pre: Seq<BusEvent>,
    post: Seq<BusEvent>,
    pre_s: Seq<u32>,
    post_s: Seq<u32>,
) -> bool {
    &&& pre.is_prefix_of(post)
    &&& forall|i: int|
        pre.len() <= i < post.len() ==> is_state_poll(#[trigger] post[i])
            && !is_capture_finished_state(reply(post[i]))
    &&& pre_s.is_prefix_of(post_s)
    &&& forall|i: int| pre_s.len() <= i < post_s.len() ==> post_s[i] == POLL_INTERVAL_US
    &&& post_s.len() - pre_s.len() <= post.len() - pre.len() <= post_s.len() - pre_s.len() + 1
}

/// How many full 63-byte windows a burst read of `len` bytes drains before
/// its terminal, shorter window.
pub open spec fn full_chunks(len: int) -> int {
    if len == 0 {
        0
    } else {
        (len - 1) / 63
    }
}

/// Holds when `e` is a burst-read transfer: the command byte sent once,
/// `n + 2` bytes received (two padding bytes, then `n` payload bytes).
pub open spec fn is_burst_transfer(e: BusEvent) -> bool {
    &&& e is Transfer
    &&& e->sent == seq![FIFO_READ_BURST]
}

/// The payload of a burst-read transfer: the received bytes past the two
/// padding bytes.
pub open spec fn burst_payload(e: BusEvent) -> Seq<u8> {
    e->received.skip(2)
}

/// The traffic and effect of a successful bulk read into a destination of
/// length `new_data.len()`: one transaction holding `full_chunks + 1`
/// burst transfers, each full window 65 bytes received, the terminal window
/// `remainder + 2` bytes, and the destination rebuilt from the payloads in
/// order.
pub open spec fn bulk_read_trace(
    pre: Seq<BusEvent>,
    post: Seq<BusEvent>,
    old_data: Seq<u8>,
    new_data: Seq<u8>,
) -> bool {
    let len = old_data.len() as int;
    let n = full_chunks(len);
    &&& pre.is_prefix_of(post)
    &&& post.len() == pre.len() + n + 3
    &&& post[pre.len() as int] is Start
    &&& post.last() is End
    &&& forall|j: int|
        0 <= j <= n ==> is_burst_transfer(#[trigger] post[pre.len() + 1 + j])
    &&& forall|j: int|
        0 <= j < n ==> (#[trigger] post[pre.len() + 1 + j])->received.len() == 65
    &&& post[pre.len() + 1 + n]->received.len() == (len - 63 * n) + 2
    &&& new_data.len() == len
    &&& forall|j: int|
        0 <= j < n ==> #[trigger] new_data.subrange(63 * j, 63 * j + 63) == burst_payload(
            post[pre.len() + 1 + j],
        )
    &&& new_data.skip(63 * n) == burst_payload(post[pre.len() + 1 + n])
}

/// The traffic and effect of a bulk read cut short by a transfer failure:
/// the transaction is still opened and closed, the `k` transfers that
/// completed are all full 65-byte windows, the first `63 * k` destination
/// bytes carry their payloads, and the rest of the destination is unchanged.
pub open spec fn bulk_read_aborted(
    pre: Seq<BusEvent>,
    post: Seq<BusEvent>,
    old_data: Seq<u8>,
    new_data: Seq<u8>,
) -> bool {
    let len = old_data.len() as int;
    let k = post.len() - pre.len() - 2;
    &&& pre.is_prefix_of(post)
    &&& post.len() >= pre.len() + 2
    &&& post[pre.len() as int] is Start
    &&& post.last() is End
    &&& 0 <= k <= full_chunks(len)
    &&& forall|j: int|
        0 <= j < k ==> is_burst_transfer(#[trigger] post[pre.len() + 1 + j])
            && post[pre.len() + 1 + j]->received.len() == 65
    &&& new_data.len() == len
    &&& forall|j: int|
        0 <= j < k ==> #[trigger] new_data.subrange(63 * j, 63 * j + 63) == burst_payload(
            post[pre.len() + 1 + j],
        )
    &&& new_data.skip(63 * k) == old_data.skip(63 * k)
}

/// In the transcript of a fixed-white-balance change — a successful
/// auto-white-balance-disable write-and-wait from `pre` to `mid`, then a
/// successful mode write-and-wait from `mid` to `post` — the disable write
/// stands strictly before the mode write, each followed by its own idle
/// wait, and each wait ends on an idle answer.
pub proof fn lemma_white_balance_order(
    pre: Seq<BusEvent>,
    mid: Seq<BusEvent>,
    post: Seq<BusEvent>,
    pre_s: Seq<u32>,
    mid_s: Seq<u32>,
    post_s: Seq<u32>,
    awb_value: u8,
    mode_value: u8,
)
    requires
        setter_trace(
            pre,
            mid,
            pre_s,
            mid_s,
            RegisterAddress::GainExposureWhiteBalance.spec_code(),
            awb_value,
        ),
        setter_trace(
            mid,
            post,
            mid_s,
            post_s,
            RegisterAddress::WhiteBalanceMode.spec_code(),
            mode_value,
        ),
    ensures
        pre.len() < mid.len() < post.len(),
        post[pre.len() as int] == reg_write_event(
            RegisterAddress::GainExposureWhiteBalance.spec_code(),
            awb_value,
        ),
        post[mid.len() as int] == reg_write_event(
            RegisterAddress::WhiteBalanceMode.spec_code(),
            mode_value,
        ),
        forall|i: int| pre.len() < i < mid.len() ==> is_state_poll(#[trigger] post[i]),
        forall|i: int| mid.len() < i < post.len() ==> is_state_poll(#[trigger] post[i]),
        is_idle_state(reply(post[mid.len() - 1])),
        is_idle_state(reply(post.last())),
{
    let ev1 = reg_write_event(RegisterAddress::GainExposureWhiteBalance.spec_code(), awb_value);
    let ev2 = reg_write_event(RegisterAddress::WhiteBalanceMode.spec_code(), mode_value);
    let pre1 = pre.push(ev1);
    let mid1 = mid.push(ev2);
    assert(pre1 =~= mid.take(pre1.len() as int));
    assert(mid1 =~= post.take(mid1.len() as int));
    assert forall|i: int| 0 <= i < mid.len() implies #[trigger] post[i] == mid[i] by {
        assert(post[i] == mid1[i]);
    }
    assert(post[pre.len() as int] == mid[pre.len() as int]);
    assert(mid[pre.len() as int] == pre1[pre.len() as int]);
    assert(post[mid.len() as int] == mid1[mid.len() as int]);
    assert(post[mid.len() - 1] == mid.last());
}

/// In a successful idle wait there is exactly one poll more than there are
/// sleeps: the wait polls once, and adds one further poll, with one
/// intervening sleep, per non-idle answer.
pub proof fn lemma_idle_wait_poll_count(
    pre: Seq<BusEvent>,
    post: Seq<BusEvent>,
    pre_s: Seq<u32>,
    post_s: Seq<u32>,
)
    requires
        idle_wait_trace(pre, post, pre_s, post_s),
    ensures
        post.len() - pre.len() == (post_s.len() - pre_s.len()) + 1,
        forall|i: int| pre_s.len() <= i < post_s.len() ==> post_s[i] == POLL_INTERVAL_US,
{
    assert forall|i: int|
        pre_s.len() <= i < post_s.len() implies post_s[i] == POLL_INTERVAL_US by {
        assert(post_s[i] == poll_sleeps((post.len() - pre.len() - 1) as nat)[i - pre_s.len()]);
    }
}

} // verus!
