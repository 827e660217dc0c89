//! The control files of the kernel's PWM interface, and what the library asks
//! its caller to write into them.

use crate::decimal::{decimal, is_digit, lemma_decimal_is_injective, lemma_decimal_reads_back};
use crate::errors::Operation;
use vstd::prelude::*;

verus! {

/// The directory of PWM chip `chip`.
pub open spec fn chip_dir(chip: u8) -> Seq<char> {
    "/sys/class/pwm/pwmchip"@ + decimal(chip as nat)
}

/// The directory of channel `channel` of chip `chip`. The kernel creates it
/// when the channel is exported, and removes it when the channel is unexported.
pub open spec fn channel_dir(chip: u8, channel: u8) -> Seq<char> {
    chip_dir(chip) + "/pwm"@ + decimal(channel as nat)
}

/// The file of chip `chip` that takes the number of a channel to export.
pub open spec fn export_file(chip: u8) -> Seq<char> {
    chip_dir(chip) + "/export"@
}

/// The file of chip `chip` that takes the number of a channel to unexport.
pub open spec fn unexport_file(chip: u8) -> Seq<char> {
    chip_dir(chip) + "/unexport"@
}

/// The file that takes the channel's period, in nanoseconds.
pub open spec fn period_file(chip: u8, channel: u8) -> Seq<char> {
    channel_dir(chip, channel) + "/period"@
}

/// The file that takes the channel's duty cycle, in nanoseconds.
pub open spec fn duty_cycle_file(chip: u8, channel: u8) -> Seq<char> {
    channel_dir(chip, channel) + "/duty_cycle"@
}

/// The file that switches the channel's output on and off.
pub open spec fn enable_file(chip: u8, channel: u8) -> Seq<char> {
    channel_dir(chip, channel) + "/enable"@
}

/// The file that `operation` on channel `channel` of chip `chip` writes to.
/// Export and unexport write to a file of the chip, the others to a file of
/// the channel.
pub open spec fn control_file(operation: Operation, chip: u8, channel: u8) -> Seq<char> {
    match operation {
        Operation::Export => export_file(chip),
        Operation::Unexport => unexport_file(chip),
        Operation::Period => period_file(chip, channel),
        Operation::State => enable_file(chip, channel),
        Operation::DutyCycle => duty_cycle_file(chip, channel),
    }
}

/// One write for the caller to carry out: open `path` for writing, write
/// the whole of `content`, close.
#[derive(Debug, PartialEq, Eq)]
pub struct SysfsWrite {
    pub path: String,
    pub content: String,
}

/// A `SysfsWrite` as two sequences of characters.
pub struct SysfsWriteView {
    pub path: Seq<char>,
    pub content: Seq<char>,
}

impl View for SysfsWrite {
    type V = SysfsWriteView;

    open spec fn view(&self) -> SysfsWriteView {
        SysfsWriteView { path: self.path@, content: self.content@ }
    }
}

/// What follows the channel's number in the path of the file that
/// `operation` writes to, for an operation on a file of the channel.
spec fn after_channel(operation: Operation) -> Seq<char> {
    match operation {
        Operation::Period => "/period"@,
        Operation::State => "/enable"@,
        _ => "/duty_cycle"@,
    }
}

/// What follows the chip's number in the path of the file that `operation`
/// writes to.
spec fn after_chip(operation: Operation, channel: u8) -> Seq<char> {
    match operation {
        Operation::Export => "/export"@,
        Operation::Unexport => "/unexport"@,
        _ => "/pwm"@ + (decimal(channel as nat) + after_channel(operation)),
    }
}

/// A number followed by something that is no digit can be read in one way
/// only.
proof fn lemma_number_ends_at_non_digit(a: nat, b: nat, x: Seq<char>, y: Seq<char>)
    requires
        decimal(a) + x == decimal(b) + y,
        x.len() > 0 ==> !is_digit(x[0]),
        y.len() > 0 ==> !is_digit(y[0]),
    ensures
        a == b,
        x == y,
{
    let da = decimal(a);
    let db = decimal(b);
    lemma_decimal_reads_back(a);
    lemma_decimal_reads_back(b);
    assert((da + x).len() == (db + y).len());
    if da.len() < db.len() {
        assert((da + x)[da.len() as int] == x[0]);
        assert((db + y)[da.len() as int] == db[da.len() as int]);
        assert(false);
    }
    if db.len() < da.len() {
        assert((db + y)[db.len() as int] == y[0]);
        assert((da + x)[db.len() as int] == da[db.len() as int]);
        assert(false);
    }
    assert(da =~= (da + x).subrange(0, da.len() as int));
    assert(db =~= (db + y).subrange(0, da.len() as int));
    assert(x =~= (da + x).subrange(da.len() as int, (da + x).len() as int));
    assert(y =~= (db + y).subrange(da.len() as int, (da + x).len() as int));
    lemma_decimal_is_injective(a, b);
}

/// What stands in front is known: equal sequences that begin alike go on
/// alike.
proof fn lemma_same_start_same_rest(start: Seq<char>, x: Seq<char>, y: Seq<char>)
    requires
        start + x == start + y,
    ensures
        x == y,
{
    assert(x =~= (start + x).subrange(start.len() as int, (start + x).len() as int));
    assert(y =~= (start + y).subrange(start.len() as int, (start + y).len() as int));
}

/// The letter after the stroke that follows the chip's number tells export,
/// unexport and the files of a channel apart.
proof fn lemma_after_chip_begins(operation: Operation, channel: u8)
    ensures
        after_chip(operation, channel).len() >= 2,
        after_chip(operation, channel)[0] == '/',
        after_chip(operation, channel)[1] == match operation {
            Operation::Export => 'e',
            Operation::Unexport => 'u',
            _ => 'p',
        },
{
    reveal_strlit("/export");
    reveal_strlit("/unexport");
    reveal_strlit("/pwm");
}

/// The letter after the stroke that follows the channel's number tells the
/// files of a channel apart.
proof fn lemma_after_channel_begins(operation: Operation)
    ensures
        after_channel(operation).len() >= 2,
        after_channel(operation)[0] == '/',
        after_channel(operation)[1] == match operation {
            Operation::Period => 'p',
            Operation::State => 'e',
            _ => 'd',
        },
{
    reveal_strlit("/period");
    reveal_strlit("/enable");
    reveal_strlit("/duty_cycle");
}

/// A control file's path is the root, the chip's number and what follows it.
proof fn lemma_control_file_parts(operation: Operation, chip: u8, channel: u8)
    ensures
        control_file(operation, chip, channel) == "/sys/class/pwm/pwmchip"@ + (decimal(
            chip as nat,
        ) + after_chip(operation, channel)),
{
    let root = "/sys/class/pwm/pwmchip"@;
    let number = decimal(chip as nat);
    let name = decimal(channel as nat);
    match operation {
        Operation::Export => {
            assert((root + number) + "/export"@ =~= root + (number + "/export"@));
        },
        Operation::Unexport => {
            assert((root + number) + "/unexport"@ =~= root + (number + "/unexport"@));
        },
        _ => {
            let end = after_channel(operation);
            assert((((root + number) + "/pwm"@) + name) + end =~= root + (number + ("/pwm"@ + (name
                + end))));
        },
    }
}

/// No control file serves two purposes: where two operations write to one
/// file they are one operation on one chip, and they are on one channel
/// unless the file is the chip's export or unexport file, which takes the
/// channel's number as its content.
pub proof fn lemma_control_files_are_distinct(
    operation1: Operation,
    chip1: u8,
    channel1: u8,
    operation2: Operation,
    chip2: u8,
    channel2: u8,
)
    requires
        control_file(operation1, chip1, channel1) == control_file(operation2, chip2, channel2),
    ensures
        operation1 == operation2,
        chip1 == chip2,
        operation1 is Export || operation1 is Unexport || channel1 == channel2,
{
    let rest1 = after_chip(operation1, channel1);
    let rest2 = after_chip(operation2, channel2);
    lemma_control_file_parts(operation1, chip1, channel1);
    lemma_control_file_parts(operation2, chip2, channel2);
    lemma_same_start_same_rest(
        "/sys/class/pwm/pwmchip"@,
        decimal(chip1 as nat) + rest1,
        decimal(chip2 as nat) + rest2,
    );
    lemma_after_chip_begins(operation1, channel1);
    lemma_after_chip_begins(operation2, channel2);
    lemma_number_ends_at_non_digit(chip1 as nat, chip2 as nat, rest1, rest2);
    if !(operation1 is Export || operation1 is Unexport) {
        let end1 = after_channel(operation1);
        let end2 = after_channel(operation2);
        lemma_same_start_same_rest(
            "/pwm"@,
            decimal(channel1 as nat) + end1,
            decimal(channel2 as nat) + end2,
        );
        lemma_after_channel_begins(operation1);
        lemma_after_channel_begins(operation2);
        lemma_number_ends_at_non_digit(channel1 as nat, channel2 as nat, end1, end2);
    }
}

/// No two channels share a directory.
pub proof fn lemma_channel_dirs_are_distinct(chip1: u8, channel1: u8, chip2: u8, channel2: u8)
    requires
        channel_dir(chip1, channel1) == channel_dir(chip2, channel2),
    ensures
        chip1 == chip2,
        channel1 == channel2,
{
    assert(period_file(chip1, channel1) == period_file(chip2, channel2));
    lemma_control_files_are_distinct(
        Operation::Period,
        chip1,
        channel1,
        Operation::Period,
        chip2,
        channel2,
    );
}

} // verus!
