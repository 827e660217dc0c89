//! One PWM channel: where its control files are, what goes into them, and
//! the record of what was last set.
//!
//! Every operation comes in two steps with the caller's write in between. A
//! `*_request` method names the file and the content; the method that carries
//! the operation's name takes the outcome of that write, updates the record
//! and says how the operation went.

use crate::decimal::{append_decimal, decimal, decimal_string};
use crate::errors::{reported, Error, Operation};
use crate::sysfs::{
    channel_dir, chip_dir, duty_cycle_file, enable_file, export_file, period_file, unexport_file,
    SysfsWrite, SysfsWriteView,
};
use vstd::prelude::*;

verus! {

/// Whether the output of a PWM channel is switched on.
#[derive(Debug, Clone, Copy, PartialEq, Eq, Structural)]
pub enum PWMState {
    /// PWM on
    Enabled,
    /// PWM off
    Disabled,
}

/// A PWM channel and the configuration that was last written to it through
/// this value. Nothing is ever read back from the kernel.
#[derive(Debug)]
pub struct PWM {
    pwm_chip_num: u8,
    pwm_num: u8,
    period: u32,
    duty_cycle: u32,
    state: PWMState,
}

/// What a `PWM` holds: which channel it is, and the period, duty cycle and
/// state that were last written with success, or zero, zero and `Disabled`
/// where none was.
pub struct PWMView {
    pub chip: u8,
    pub channel: u8,
    pub period: u32,
    pub duty_cycle: u32,
    pub state: PWMState,
}

impl View for PWM {
    type V = PWMView;

    closed spec fn view(&self) -> PWMView {
        PWMView {
            chip: self.pwm_chip_num,
            channel: self.pwm_num,
            period: self.period,
            duty_cycle: self.duty_cycle,
            state: self.state,
        }
    }
}

impl PWMView {
    /// The record after a request to set the period to `period_ns` whose write
    /// went through (`ok`) or failed.
    pub open spec fn after_period(self, period_ns: u32, ok: bool) -> PWMView {
        if ok {
            PWMView { period: period_ns, ..self }
        } else {
            self
        }
    }

    /// The record after a request to switch the output to `state` whose write
    /// went through (`ok`) or failed.
    pub open spec fn after_state(self, state: PWMState, ok: bool) -> PWMView {
        if ok {
            PWMView { state, ..self }
        } else {
            self
        }
    }

    /// The record after a request to set the duty cycle to `duty_cycle_ns`
    /// whose write went through (`ok`) or failed.
    pub open spec fn after_duty_cycle(self, duty_cycle_ns: u32, ok: bool) -> PWMView {
        if ok {
            PWMView { duty_cycle: duty_cycle_ns, ..self }
        } else {
            self
        }
    }
}

/// What is written to the enable file for `state`.
pub open spec fn enable_flag(state: PWMState) -> Seq<char> {
    match state {
        PWMState::Enabled => seq!['1'],
        PWMState::Disabled => seq!['0'],
    }
}

/// The write that a request to export (`requested`) or unexport (`!requested`)
/// a channel calls for, given whether the channel is `exported`, that is,
/// whether its directory is there: none where the channel is already as
/// requested.
pub open spec fn export_write(chip: u8, channel: u8, requested: bool, exported: bool) -> Option<
    SysfsWriteView,
> {
    if requested && !exported {
        Some(SysfsWriteView { path: export_file(chip), content: decimal(channel as nat) })
    } else if !requested && exported {
        Some(SysfsWriteView { path: unexport_file(chip), content: decimal(channel as nat) })
    } else {
        None
    }
}

/// The result of a request to export or unexport: that of the write, where
/// one was called for, and success where none was.
pub open spec fn export_result<E>(
    chip: u8,
    channel: u8,
    requested: bool,
    exported: bool,
    written: Result<(), E>,
) -> Result<(), Error<E>> {
    if requested == exported {
        Ok(())
    } else if requested {
        reported(Operation::Export, chip, channel, written)
    } else {
        reported(Operation::Unexport, chip, channel, written)
    }
}

impl PWM {
    /// Creates a new PWM object for channel `pwm_num` of chip `pwm_chip_num`.
    /// Nothing is written: the record starts out at zero and `Disabled`.
    ///
    /// Note: the pin has to be configured as a PWM output before the channel
    /// is used.
    pub fn new(pwm_chip_num: u8, pwm_num: u8) -> (pwm: PWM)
        ensures
            pwm@ == (PWMView {
                chip: pwm_chip_num,
                channel: pwm_num,
                period: 0,
                duty_cycle: 0,
                state: PWMState::Disabled,
            }),
    {
        PWM { pwm_chip_num, pwm_num, period: 0, duty_cycle: 0, state: PWMState::Disabled }
    }

    /// The number of the chip that the channel belongs to.
    pub fn chip(&self) -> (chip: u8)
        ensures
            chip == self@.chip,
    {
        self.pwm_chip_num
    }

    /// The number of the channel within its chip.
    pub fn channel(&self) -> (channel: u8)
        ensures
            channel == self@.channel,
    {
        self.pwm_num
    }

    /// The period that was last written, in nanoseconds; zero where none was.
    pub fn period(&self) -> (period_ns: u32)
        ensures
            period_ns == self@.period,
    {
        self.period
    }

    /// The duty cycle that was last written, in nanoseconds; zero where none
    /// was.
    pub fn duty_cycle(&self) -> (duty_cycle_ns: u32)
        ensures
            duty_cycle_ns == self@.duty_cycle,
    {
        self.duty_cycle
    }

    /// The state that was last written; `Disabled` where none was.
    pub fn state(&self) -> (state: PWMState)
        ensures
            state == self@.state,
    {
        self.state
    }

    /// The path of the chip's directory followed by `suffix`.
    fn chip_path(&self, suffix: &str) -> (path: String)
        ensures
            path@ == chip_dir(self@.chip) + suffix@,
    {
        let mut path = String::from_str("/sys/class/pwm/pwmchip");
        append_decimal(&mut path, self.pwm_chip_num as u32);
        path.append(suffix);
        path
    }

    /// The path of the channel's directory followed by `suffix`.
    fn channel_path(&self, suffix: &str) -> (path: String)
        ensures
            path@ == channel_dir(self@.chip, self@.channel) + suffix@,
    {
        let mut path = self.chip_path("/pwm");
        append_decimal(&mut path, self.pwm_num as u32);
        path.append(suffix);
        path
    }

    /// The result of an operation whose write went as `written` says.
    fn report<E>(&self, operation: Operation, written: Result<(), E>) -> (res: Result<
        (),
        Error<E>,
    >)
        ensures
            res == reported(operation, self@.chip, self@.channel, written),
    {
        match written {
            Ok(_) => Ok(()),
            Err(cause) => Err(
                Error { operation, chip: self.pwm_chip_num, channel: self.pwm_num, cause },
            ),
        }
    }

    /// The path of the channel's directory. The kernel keeps it for as long
    /// as the channel is exported, so whether it is there is what
    /// `export_request` and `set_export` take as `exported`.
    pub fn directory(&self) -> (path: String)
        ensures
            path@ == channel_dir(self@.chip, self@.channel),
    {
        let path = self.channel_path("");
        proof {
            reveal_strlit("");
            assert(path@ =~= channel_dir(self@.chip, self@.channel));
        }
        path
    }

    /// The write that exports (`requested`) or unexports (`!requested`) the
    /// channel, or `None` where the channel already is as requested.
    pub fn export_request(&self, requested: bool, exported: bool) -> (request: Option<SysfsWrite>)
        ensures
            match request {
                Some(write) => export_write(self@.chip, self@.channel, requested, exported)
                    == Some(write@),
                None => export_write(self@.chip, self@.channel, requested, exported) is None,
            },
    {
        if requested && !exported {
            Some(
                SysfsWrite {
                    path: self.chip_path("/export"),
                    content: decimal_string(self.pwm_num as u32),
                },
            )
        } else if !requested && exported {
            Some(
                SysfsWrite {
                    path: self.chip_path("/unexport"),
                    content: decimal_string(self.pwm_num as u32),
                },
            )
        } else {
            None
        }
    }

    /// Exports or unexports the PWM, given whether the channel was exported
    /// and how the write of `export_request` went. Where the channel already
    /// was as requested no write was called for, and the request succeeds
    /// whatever `written` says. The record is not touched: whether a channel
    /// is exported is not kept.
    pub fn set_export<E>(&self, requested: bool, exported: bool, written: Result<(), E>) -> (res:
        Result<(), Error<E>>)
        ensures
            res == export_result(self@.chip, self@.channel, requested, exported, written),
    {
        if requested == exported {
            Ok(())
        } else if requested {
            self.report(Operation::Export, written)
        } else {
            self.report(Operation::Unexport, written)
        }
    }

    /// The write that sets the period to `period_ns` nanoseconds.
    pub fn period_request(&self, period_ns: u32) -> (write: SysfsWrite)
        ensures
            write@ == (SysfsWriteView {
                path: period_file(self@.chip, self@.channel),
                content: decimal(period_ns as nat),
            }),
    {
        SysfsWrite { path: self.channel_path("/period"), content: decimal_string(period_ns) }
    }

    /// Sets the period of the PWM in nanoseconds, given how the write of
    /// `period_request` went: a write that went through is recorded, a failed
    /// one is reported and leaves the record as it was.
    pub fn set_period<E>(&mut self, period_ns: u32, written: Result<(), E>) -> (res: Result<
        (),
        Error<E>,
    >)
        ensures
            res == reported(Operation::Period, old(self)@.chip, old(self)@.channel, written),
            final(self)@ == old(self)@.after_period(period_ns, written is Ok),
    {
        if written.is_ok() {
            self.period = period_ns;
        }
        self.report(Operation::Period, written)
    }

    /// The write that switches the output to `state`.
    pub fn state_request(&self, state: PWMState) -> (write: SysfsWrite)
        ensures
            write@ == (SysfsWriteView {
                path: enable_file(self@.chip, self@.channel),
                content: enable_flag(state),
            }),
    {
        let content = match state {
            PWMState::Enabled => String::from_str("1"),
            PWMState::Disabled => String::from_str("0"),
        };
        proof {
            reveal_strlit("1");
            reveal_strlit("0");
            assert(content@ =~= enable_flag(state));
        }
        SysfsWrite { path: self.channel_path("/enable"), content }
    }

    /// Sets the state (enabled or disabled) of the PWM, given how the write
    /// of `state_request` went: a write that went through is recorded, a
    /// failed one is reported and leaves the record as it was.
    pub fn set_state<E>(&mut self, state: PWMState, written: Result<(), E>) -> (res: Result<
        (),
        Error<E>,
    >)
        ensures
            res == reported(Operation::State, old(self)@.chip, old(self)@.channel, written),
            final(self)@ == old(self)@.after_state(state, written is Ok),
    {
        if written.is_ok() {
            self.state = state;
        }
        self.report(Operation::State, written)
    }

    /// The write that sets the duty cycle to `duty_cycle_ns` nanoseconds.
    pub fn duty_cycle_request(&self, duty_cycle_ns: u32) -> (write: SysfsWrite)
        ensures
            write@ == (SysfsWriteView {
                path: duty_cycle_file(self@.chip, self@.channel),
                content: decimal(duty_cycle_ns as nat),
            }),
    {
        SysfsWrite {
            path: self.channel_path("/duty_cycle"),
            content: decimal_string(duty_cycle_ns),
        }
    }

    /// Sets the duty cycle of the PWM in nanoseconds, given how the write of
    /// `duty_cycle_request` went: a write that went through is recorded, a
    /// failed one is reported and leaves the record as it was. The duty cycle
    /// is not held against the period: that is left to the kernel.
    pub fn set_duty_cycle<E>(&mut self, duty_cycle_ns: u32, written: Result<(), E>) -> (res:
        Result<(), Error<E>>)
        ensures
            res == reported(Operation::DutyCycle, old(self)@.chip, old(self)@.channel, written),
            final(self)@ == old(self)@.after_duty_cycle(duty_cycle_ns, written is Ok),
    {
        if written.is_ok() {
            self.duty_cycle = duty_cycle_ns;
        }
        self.report(Operation::DutyCycle, written)
    }
}

/// The number of writes that `request` calls for.
pub open spec fn writes_called_for(request: Option<SysfsWriteView>) -> nat {
    if request is Some {
        1
    } else {
        0
    }
}

/// Exporting a channel twice in a row calls for one write at most: whether
/// or not the first request found the channel exported, the second, made
/// once the channel's directory is there, calls for none and succeeds.
pub proof fn lemma_export_twice_writes_once<E>(
    chip: u8,
    channel: u8,
    exported_at_first: bool,
    written: Result<(), E>,
)
    ensures
        export_write(chip, channel, true, true) is None,
        export_result(chip, channel, true, true, written) is Ok,
        writes_called_for(export_write(chip, channel, true, exported_at_first))
            + writes_called_for(export_write(chip, channel, true, true)) <= 1,
{
}

/// Unexporting a channel that is not exported calls for no write and
/// succeeds.
pub proof fn lemma_unexport_of_absent_channel<E>(chip: u8, channel: u8, written: Result<(), E>)
    ensures
        export_write(chip, channel, false, false) is None,
        export_result(chip, channel, false, false, written) is Ok,
{
}

/// A failed write fails its operation and changes nothing of the record.
pub proof fn lemma_failed_write_keeps_the_record<E>(
    before: PWMView,
    operation: Operation,
    written: Result<(), E>,
    period_ns: u32,
    duty_cycle_ns: u32,
    state: PWMState,
    requested: bool,
)
    requires
        written is Err,
    ensures
        reported(operation, before.chip, before.channel, written) is Err,
        export_result(before.chip, before.channel, requested, !requested, written) is Err,
        before.after_period(period_ns, written is Ok) == before,
        before.after_duty_cycle(duty_cycle_ns, written is Ok) == before,
        before.after_state(state, written is Ok) == before,
{
}

/// The record after a run of `set_state` calls, each given by the state it
/// asked for and whether its write went through.
pub open spec fn after_states(before: PWMView, calls: Seq<(PWMState, bool)>) -> PWMView
    decreases calls.len(),
{
    if calls.len() == 0 {
        before
    } else {
        after_states(before, calls.drop_last()).after_state(calls.last().0, calls.last().1)
    }
}

/// After a run of `set_state` calls the recorded state is the one that the
/// last call with a successful write asked for; the rest of the record is as
/// it was before the run.
pub proof fn lemma_state_is_of_last_success(
    before: PWMView,
    calls: Seq<(PWMState, bool)>,
    last: int,
)
    requires
        0 <= last < calls.len(),
        calls[last].1,
        forall|later: int| last < later < calls.len() ==> !calls[later].1,
    ensures
        after_states(before, calls) == (PWMView { state: calls[last].0, ..before }),
    decreases calls.len(),
{
    let earlier = calls.drop_last();
    if last == calls.len() - 1 {
        lemma_states_keep_the_rest(before, earlier);
    } else {
        assert(!calls[calls.len() - 1].1);
        lemma_state_is_of_last_success(before, earlier, last);
    }
}

/// A run of `set_state` calls changes nothing of the record but the state,
/// and not even that where no write went through.
pub proof fn lemma_states_keep_the_rest(before: PWMView, calls: Seq<(PWMState, bool)>)
    ensures
        after_states(before, calls) == (PWMView {
            state: after_states(before, calls).state,
            ..before
        }),
        (forall|i: int| 0 <= i < calls.len() ==> !calls[i].1) ==> after_states(before, calls)
            == before,
    decreases calls.len(),
{
    if calls.len() > 0 {
        let earlier = calls.drop_last();
        lemma_states_keep_the_rest(before, earlier);
        if forall|i: int| 0 <= i < calls.len() ==> !calls[i].1 {
            assert(!calls[calls.len() - 1].1);
            assert forall|i: int| 0 <= i < earlier.len() implies !earlier[i].1 by {
                assert(earlier[i] == calls[i]);
            }
        }
    }
}

} // verus!
