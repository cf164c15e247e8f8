//! The external tool invocations a target's `run_generated_tests` step
//! makes, and the errors reported when one of them does not succeed.

use vstd::prelude::*;
use vstd::string::*;

use crate::text::{law_tail_is_suffix, lemma_occurs_in_concat, occurs_in, spec_tail, string_views, tail};

verus! {

/// How many trailing characters of each captured stream a failure report keeps.
pub const OUTPUT_TAIL_CHARS: usize = 4000;

/// One program run in the output directory, with piped output.
#[derive(Debug)]
pub struct TestCommand {
    pub program: String,
    pub args: Vec<String>,
    /// How the command is named in progress and error messages.
    pub label: String,
}

/// A [`TestCommand`] with its strings taken as character sequences.
pub struct TestCommandView {
    pub program: Seq<char>,
    pub args: Seq<Seq<char>>,
    pub label: Seq<char>,
}

impl View for TestCommand {
    type V = TestCommandView;

    open spec fn view(&self) -> TestCommandView {
        TestCommandView { program: self.program@, args: string_views(self.args@), label: self.label@ }
    }
}

/// The views of a sequence of commands.
pub open spec fn command_views(s: Seq<TestCommand>) -> Seq<TestCommandView> {
    s.map_values(|c: TestCommand| c@)
}

pub open spec fn str_views(s: Seq<&str>) -> Seq<Seq<char>> {
    s.map_values(|a: &str| a@)
}

/// A command running `program` with `args`, named `label`.
pub fn test_command(program: &str, args: &[&str], label: &str) -> (r: TestCommand)
    ensures
        r@ == (TestCommandView { program: program@, args: str_views(args@), label: label@ }),
{
    let mut owned: Vec<String> = Vec::new();
    let mut i: usize = 0;
    while i < args.len()
        invariant
            i <= args.len(),
            owned@.len() == i,
            string_views(owned@) == str_views(args@.take(i as int)),
        decreases args.len() - i,
    {
        let ghost before = string_views(owned@);
        owned.push(String::from_str(args[i]));
        assert(string_views(owned@) =~= before.push(args@[i as int]@));
        assert(string_views(owned@) =~= str_views(args@.take(i + 1)));
        i = i + 1;
    }
    assert(args@.take(args.len() as int) =~= args@);
    TestCommand { program: String::from_str(program), args: owned, label: String::from_str(label) }
}

/// Appends a command to the list.
pub fn push_command(cmds: &mut Vec<TestCommand>, c: TestCommand)
    ensures
        command_views(final(cmds)@) == command_views(old(cmds)@).push(c@),
{
    let ghost v = c@;
    cmds.push(c);
    assert(command_views(cmds@) =~= command_views(old(cmds)@).push(v));
}

/// The decimal digit character for `d < 10`.
pub open spec fn digit_char(d: nat) -> char {
    ((d + 48) as u8) as char
}

/// `n` written in decimal, without leading zeros.
pub open spec fn spec_decimal(n: nat) -> Seq<char>
    decreases n,
{
    if n < 10 {
        seq![digit_char(n)]
    } else {
        spec_decimal(n / 10).push(digit_char(n % 10))
    }
}

/// `n` written in decimal.
pub fn decimal(n: u64) -> (r: String)
    ensures
        r@ == spec_decimal(n as nat),
    decreases n,
{
    let d: u8 = (n % 10) as u8;
    let c = (d + 48) as char;
    if n < 10 {
        let mut s = String::new();
        s.push(c);
        s
    } else {
        let mut s = decimal(n / 10);
        s.push(c);
        s
    }
}

/// `code` as `{:?}` prints an `Option<i32>`: `Some(-3)`, `Some(0)`, `None`.
pub open spec fn spec_exit_code_debug(code: Option<i32>) -> Seq<char> {
    match code {
        Some(c) => "Some("@ + (if c < 0 {
            "-"@ + spec_decimal((-c) as nat)
        } else {
            spec_decimal(c as nat)
        }) + ")"@,
        None => "None"@,
    }
}

pub fn exit_code_debug(code: Option<i32>) -> (r: String)
    ensures
        r@ == spec_exit_code_debug(code),
{
    match code {
        Some(c) => {
            let mut s = String::from_str("Some(");
            if c < 0 {
                let magnitude: i64 = -(c as i64);
                s.append("-");
                s.append(decimal(magnitude as u64).as_str());
            } else {
                s.append(decimal(c as u64).as_str());
            }
            s.append(")");
            s
        },
        None => String::from_str("None"),
    }
}

/// The report of a command that ran to completion without success: its
/// exit code and the last [`OUTPUT_TAIL_CHARS`] characters of each stream.
pub open spec fn spec_failure_message(
    label: Seq<char>,
    code: Option<i32>,
    stdout: Seq<char>,
    stderr: Seq<char>,
) -> Seq<char> {
    "'"@ + label + "' failed (exit "@ + spec_exit_code_debug(code) + ")\n--- stdout (tail) ---\n"@
        + spec_tail(stdout, OUTPUT_TAIL_CHARS as nat) + "\n--- stderr (tail) ---\n"@
        + spec_tail(stderr, OUTPUT_TAIL_CHARS as nat)
}

pub fn failure_message(label: &str, code: Option<i32>, stdout: &str, stderr: &str) -> (r: String)
    ensures
        r@ == spec_failure_message(label@, code, stdout@, stderr@),
{
    let mut s = String::from_str("'");
    s.append(label);
    s.append("' failed (exit ");
    s.append(exit_code_debug(code).as_str());
    s.append(")\n--- stdout (tail) ---\n");
    s.append(tail(stdout, OUTPUT_TAIL_CHARS).as_str());
    s.append("\n--- stderr (tail) ---\n");
    s.append(tail(stderr, OUTPUT_TAIL_CHARS).as_str());
    s
}

/// What a finished command amounts to: success, or the failure report.
pub fn command_outcome(label: &str, success: bool, code: Option<i32>, stdout: &str, stderr: &str) -> (r:
    Result<(), String>)
    ensures
        success ==> r is Ok,
        !success ==> (r matches Err(m) && m@ == spec_failure_message(label@, code, stdout@, stderr@)),
{
    if success {
        Ok(())
    } else {
        Err(failure_message(label, code, stdout, stderr))
    }
}

/// `'{label}' timed out after {secs}s`.
pub fn timeout_message(label: &str, secs: u64) -> (r: String)
    ensures
        r@ == "'"@ + label@ + "' timed out after "@ + spec_decimal(secs as nat) + "s"@,
{
    let mut s = String::from_str("'");
    s.append(label);
    s.append("' timed out after ");
    s.append(decimal(secs).as_str());
    s.append("s");
    s
}

/// `failed to spawn '{label}' in '{cwd}'`.
pub fn spawn_failure_message(label: &str, cwd: &str) -> (r: String)
    ensures
        r@ == "failed to spawn '"@ + label@ + "' in '"@ + cwd@ + "'"@,
{
    let mut s = String::from_str("failed to spawn '");
    s.append(label);
    s.append("' in '");
    s.append(cwd);
    s.append("'");
    s
}

/// `failed to run '{label}'`.
pub fn run_failure_message(label: &str) -> (r: String)
    ensures
        r@ == "failed to run '"@ + label@ + "'"@,
{
    let mut s = String::from_str("failed to run '");
    s.append(label);
    s.append("'");
    s
}

/// The number a string of decimal digits denotes.
pub open spec fn digits_value(s: Seq<char>) -> int
    decreases s.len(),
{
    if s.len() == 0 {
        0
    } else {
        10 * digits_value(s.drop_last()) + (s.last() as int - '0' as int)
    }
}

proof fn lemma_digit_char(d: nat)
    requires
        d < 10,
    ensures
        digit_char(d) as int - '0' as int == d,
        '0' <= digit_char(d) <= '9',
        d > 0 ==> digit_char(d) != '0',
{
    assert(((d + 48) as u8) as int == d + 48);
    assert((((d + 48) as u8) as char) as int == ((d + 48) as u8) as int);
}

/// `decimal` writes `n` in base ten: only digits, no leading zero (but for
/// 0 itself), and the digits denote `n`.
pub proof fn law_decimal_denotes_the_number(n: nat)
    ensures
        spec_decimal(n).len() > 0,
        forall|i: int| 0 <= i < spec_decimal(n).len() ==> '0' <= #[trigger] spec_decimal(n)[i] <= '9',
        n > 0 ==> spec_decimal(n)[0] != '0',
        digits_value(spec_decimal(n)) == n,
    decreases n,
{
    lemma_digit_char(n % 10);
    if n < 10 {
        assert(spec_decimal(n).drop_last() =~= Seq::<char>::empty());
        assert(digits_value(Seq::<char>::empty()) == 0);
        assert(spec_decimal(n).last() == digit_char(n));
        assert(n % 10 == n);
    } else {
        law_decimal_denotes_the_number(n / 10);
        let p = spec_decimal(n / 10);
        assert(spec_decimal(n).drop_last() =~= p);
        assert(spec_decimal(n)[0] == p[0]);
        assert(spec_decimal(n).last() == digit_char(n % 10));
        assert(digits_value(spec_decimal(n)) == 10 * digits_value(p) + (digit_char(n % 10) as int - '0' as int));
        assert(10 * (n / 10) + n % 10 == n);
    }
}

/// The failure report names the command and its exit code, then gives the
/// tail of standard output and, last, the tail of standard error: each the
/// last `min(len, OUTPUT_TAIL_CHARS)` characters of that stream.
pub proof fn law_failure_report_shows_both_tails(
    label: Seq<char>,
    code: Option<i32>,
    stdout: Seq<char>,
    stderr: Seq<char>,
)
    ensures
        ({
            let m = spec_failure_message(label, code, stdout, stderr);
            let head = "'"@ + label + "' failed (exit "@ + spec_exit_code_debug(code) + ")\n"@;
            let err = "\n--- stderr (tail) ---\n"@ + spec_tail(stderr, OUTPUT_TAIL_CHARS as nat);
            &&& m.take(head.len() as int) == head
            &&& occurs_in(m, "--- stdout (tail) ---\n"@ + spec_tail(stdout, OUTPUT_TAIL_CHARS as nat) + "\n--- stderr"@)
            &&& m.len() >= err.len()
            &&& m.skip(m.len() - err.len()) == err
        }),
{
    law_tail_is_suffix(stdout, OUTPUT_TAIL_CHARS as nat);
    law_tail_is_suffix(stderr, OUTPUT_TAIL_CHARS as nat);
    let m = spec_failure_message(label, code, stdout, stderr);
    let head = "'"@ + label + "' failed (exit "@ + spec_exit_code_debug(code) + ")\n"@;
    let mid = "--- stdout (tail) ---\n"@ + spec_tail(stdout, OUTPUT_TAIL_CHARS as nat) + "\n--- stderr"@;
    let err = "\n--- stderr (tail) ---\n"@ + spec_tail(stderr, OUTPUT_TAIL_CHARS as nat);
    reveal_strlit(")\n--- stdout (tail) ---\n");
    reveal_strlit(")\n");
    reveal_strlit("--- stdout (tail) ---\n");
    reveal_strlit("\n--- stderr (tail) ---\n");
    reveal_strlit("\n--- stderr");
    reveal_strlit(" (tail) ---\n");
    let before = "'"@ + label + "' failed (exit "@ + spec_exit_code_debug(code);
    assert(m =~= before + ")\n"@ + mid + " (tail) ---\n"@ + spec_tail(stderr, OUTPUT_TAIL_CHARS as nat));
    assert(m.take(head.len() as int) =~= head);
    assert(m.skip(m.len() - err.len()) =~= err);
    lemma_occurs_in_concat(mid, Seq::empty(), mid);
    lemma_occurs_in_concat(before + ")\n"@, mid, mid);
    lemma_occurs_in_concat(before + ")\n"@ + mid, " (tail) ---\n"@ + spec_tail(stderr, OUTPUT_TAIL_CHARS as nat), mid);
    assert(m =~= (before + ")\n"@ + mid) + (" (tail) ---\n"@ + spec_tail(stderr, OUTPUT_TAIL_CHARS as nat)));
}

} // verus!
