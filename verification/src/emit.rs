use vstd::prelude::*;
use crate::guc::{GucLogLevel, Severity, StatusCode};

verus! {

pub const NANOS_PER_MICRO: u64 = 1_000;

pub const ASCII_ZERO: u8 = 48;

pub const ASCII_POINT: u8 = 46;

/// The ASCII digit for `d`, which is below ten.
pub open spec fn digit(d: nat) -> u8 {
    (ASCII_ZERO + d) as u8
}

/// `n` in decimal, without leading zeros.
pub open spec fn decimal(n: nat) -> Seq<u8>
    decreases n,
{
    if n < 10 {
        seq![digit(n)]
    } else {
        decimal(n / 10).push(digit(n % 10))
    }
}

/// Whether `byte` is an ASCII digit.
pub open spec fn is_digit(byte: u8) -> bool {
    ASCII_ZERO <= byte <= ASCII_ZERO + 9
}

/// The number that a run of ASCII digits stands for.
pub open spec fn decimal_value(digits: Seq<u8>) -> int
    decreases digits.len(),
{
    if digits.len() == 0 {
        0
    } else {
        decimal_value(digits.drop_last()) * 10 + (digits.last() - ASCII_ZERO)
    }
}

/// The decimal form of a number is made of digits, begins with a zero only
/// for zero itself, and reads back as the number.
pub proof fn lemma_decimal_reads_back(n: nat)
    ensures
        decimal(n).len() >= 1,
        forall|i: int| 0 <= i < decimal(n).len() ==> is_digit(#[trigger] decimal(n)[i]),
        n > 0 ==> decimal(n).first() != ASCII_ZERO,
        n < 10 <==> decimal(n).len() == 1,
        decimal_value(decimal(n)) == n,
    decreases n,
{
    if n < 10 {
        assert(decimal(n).drop_last() =~= Seq::<u8>::empty());
        assert(decimal_value(Seq::<u8>::empty()) == 0);
    } else {
        lemma_decimal_reads_back(n / 10);
        assert(decimal(n).drop_last() =~= decimal(n / 10));
    }
}

/// A time in nanoseconds, to the nearest microsecond; a half goes up.
pub open spec fn rounded_micros(nanos: nat) -> nat {
    (nanos + 500) / 1000
}

/// `thousandths`, which is below a thousand, as three digits.
pub open spec fn three_digits(thousandths: nat) -> Seq<u8> {
    seq![digit(thousandths / 100), digit(thousandths / 10 % 10), digit(thousandths % 10)]
}

/// A time in microseconds, written in milliseconds with three decimals: the
/// whole milliseconds, a point, and the microseconds that are left.
pub open spec fn millis_text(micros: nat) -> Seq<u8> {
    decimal(micros / 1000) + seq![ASCII_POINT] + three_digits(micros % 1000)
}

/// The three digits behind the point read back as the number they were
/// written for.
pub proof fn lemma_three_digits_read_back(thousandths: nat)
    requires
        thousandths < 1000,
    ensures
        three_digits(thousandths).len() == 3,
        forall|i: int| 0 <= i < 3 ==> is_digit(#[trigger] three_digits(thousandths)[i]),
        decimal_value(three_digits(thousandths)) == thousandths,
{
    let three = three_digits(thousandths);
    let two = three.drop_last();
    let one = two.drop_last();
    assert(two =~= seq![digit(thousandths / 100), digit(thousandths / 10 % 10)]);
    assert(one =~= seq![digit(thousandths / 100)]);
    assert(one.drop_last() =~= Seq::<u8>::empty());
    assert(decimal_value(Seq::<u8>::empty()) == 0);
    assert(decimal_value(one) == thousandths / 100);
    assert(decimal_value(two) == (thousandths / 100) * 10 + thousandths / 10 % 10);
}

/// The text of a time ends in a point and three digits, and reads back as
/// the time: the number before the point in milliseconds, the number behind
/// it in microseconds.
pub proof fn lemma_millis_text_reads_back(micros: nat)
    ensures
        millis_text(micros).len() == decimal(micros / 1000).len() + 4,
        millis_text(micros)[millis_text(micros).len() - 4] == ASCII_POINT,
        decimal_value(millis_text(micros).take(millis_text(micros).len() - 4)) * 1000
            + decimal_value(millis_text(micros).skip(millis_text(micros).len() - 3)) == micros,
{
    let text = millis_text(micros);
    lemma_decimal_reads_back(micros / 1000);
    lemma_three_digits_read_back(micros % 1000);
    assert(text.take(text.len() - 4) =~= decimal(micros / 1000));
    assert(text.skip(text.len() - 3) =~= three_digits(micros % 1000));
}

/// Rounding to microseconds moves a time by half a microsecond at most.
pub proof fn lemma_rounding_is_nearest(nanos: nat)
    ensures
        nanos - 500 < rounded_micros(nanos) * 1000 <= nanos + 500,
{
}

/// The bytes of `duration: `.
pub open spec fn duration_label() -> Seq<u8> {
    seq![100u8, 117u8, 114u8, 97u8, 116u8, 105u8, 111u8, 110u8, 58u8, 32u8]
}

/// The bytes of ` ms  plan:` and the newline that ends the first line.
pub open spec fn plan_label() -> Seq<u8> {
    seq![32u8, 109u8, 115u8, 32u8, 32u8, 112u8, 108u8, 97u8, 110u8, 58u8, 10u8]
}

/// The two labels spell `duration: ` and ` ms  plan:` with a final newline.
pub proof fn lemma_labels_spell_their_text()
    ensures
        duration_label().len() == "duration: "@.len(),
        forall|i: int|
            0 <= i < duration_label().len() ==> duration_label()[i] as char == "duration: "@[i],
        plan_label().len() == " ms  plan:\n"@.len(),
        forall|i: int|
            0 <= i < plan_label().len() ==> plan_label()[i] as char == " ms  plan:\n"@[i],
{
    reveal_strlit("duration: ");
    reveal_strlit(" ms  plan:\n");
}

/// The body of the message for a statement that ran for `elapsed_ns`
/// nanoseconds and whose finished plan text is `text`.
pub open spec fn message_body(elapsed_ns: u64, text: Seq<u8>) -> Seq<u8> {
    duration_label() + millis_text(rounded_micros(elapsed_ns as nat)) + plan_label() + text
}

/// Appends `bytes` to `out`.
pub fn push_bytes(out: &mut Vec<u8>, bytes: &[u8])
    ensures
        final(out)@ == old(out)@ + bytes@,
{
    let mut i: usize = 0;
    while i < bytes.len()
        invariant
            i <= bytes@.len(),
            out@ == old(out)@ + bytes@.subrange(0, i as int),
        decreases bytes@.len() - i,
    {
        out.push(bytes[i]);
        i += 1;
        assert(bytes@.subrange(0, i as int) == bytes@.subrange(0, i - 1).push(bytes@[i - 1]));
    }
    assert(bytes@.subrange(0, i as int) == bytes@);
}

/// Appends `n` in decimal, without leading zeros.
pub fn push_decimal(out: &mut Vec<u8>, n: u64)
    ensures
        final(out)@ == old(out)@ + decimal(n as nat),
    decreases n,
{
    if n >= 10 {
        push_decimal(out, n / 10);
    }
    out.push(ASCII_ZERO + (n % 10) as u8);
    assert(out@ == old(out)@ + decimal(n as nat));
}

/// Appends a time in microseconds as milliseconds with three decimals.
pub fn push_millis(out: &mut Vec<u8>, micros: u64)
    ensures
        final(out)@ == old(out)@ + millis_text(micros as nat),
{
    let thousandths = micros % 1000;
    push_decimal(out, micros / 1000);
    out.push(ASCII_POINT);
    out.push(ASCII_ZERO + (thousandths / 100) as u8);
    out.push(ASCII_ZERO + (thousandths / 10 % 10) as u8);
    out.push(ASCII_ZERO + (thousandths % 10) as u8);
    assert(out@ == old(out)@ + millis_text(micros as nat));
}

/// Rounds a time in nanoseconds to the nearest microsecond.
pub fn round_to_micros(nanos: u64) -> (micros: u64)
    ensures
        micros == rounded_micros(nanos as nat),
{
    if nanos % NANOS_PER_MICRO >= 500 {
        nanos / NANOS_PER_MICRO + 1
    } else {
        nanos / NANOS_PER_MICRO
    }
}

/// Builds the body of the message: the duration in milliseconds with three
/// decimals, then the plan text on the lines that follow.
pub fn log_message(elapsed_ns: u64, text: &Vec<u8>) -> (message: Vec<u8>)
    ensures
        message@ == message_body(elapsed_ns, text@),
{
    let mut message: Vec<u8> = Vec::new();
    let label: [u8; 10] = [100, 117, 114, 97, 116, 105, 111, 110, 58, 32];
    let plan: [u8; 11] = [32, 109, 115, 32, 32, 112, 108, 97, 110, 58, 10];
    push_bytes(&mut message, label.as_slice());
    assert(message@ == duration_label());
    push_millis(&mut message, round_to_micros(elapsed_ns));
    push_bytes(&mut message, plan.as_slice());
    assert(plan@ == plan_label());
    push_bytes(&mut message, text.as_slice());
    message
}

/// One message for the host's reporting channel.
#[derive(PartialEq, Eq, Debug)]
pub struct LogRecord {
    pub severity: Severity,
    pub status: StatusCode,
    pub message: Vec<u8>,
}

/// The message that reports a plan at the configured level.
pub fn log_record(level: GucLogLevel, elapsed_ns: u64, text: &Vec<u8>) -> (record: LogRecord)
    ensures
        record.severity == level.severity(),
        record.status == level.status(),
        record.message@ == message_body(elapsed_ns, text@),
{
    LogRecord {
        severity: level.log_level(),
        status: level.errcode(),
        message: log_message(elapsed_ns, text),
    }
}

} // verus!
