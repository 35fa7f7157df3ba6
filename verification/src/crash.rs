//! The report of a crash of the page: the panic message with an excerpt of
//! the source around the place that panicked.

use vstd::prelude::*;
use vstd::string::StringExecFns;

verus! {

/// The lines of source shown before and after the line that panicked.
pub const PREFIX_LINES: usize = 5;

pub const SUFFIX_LINES: usize = 5;

/// The decimal digit `d`.
pub open spec fn digit_chars(d: nat) -> Seq<char> {
    if d == 0 {
        "0"@
    } else if d == 1 {
        "1"@
    } else if d == 2 {
        "2"@
    } else if d == 3 {
        "3"@
    } else if d == 4 {
        "4"@
    } else if d == 5 {
        "5"@
    } else if d == 6 {
        "6"@
    } else if d == 7 {
        "7"@
    } else if d == 8 {
        "8"@
    } else {
        "9"@
    }
}

/// The decimal notation of `n`.
pub open spec fn decimal(n: nat) -> Seq<char>
    decreases n,
{
    if n < 10 {
        digit_chars(n)
    } else {
        decimal(n / 10) + digit_chars(n % 10)
    }
}

/// `n` spaces.
pub open spec fn spaces(n: nat) -> Seq<char>
    decreases n,
{
    if n == 0 {
        Seq::empty()
    } else {
        spaces((n - 1) as nat) + " "@
    }
}

/// The decimal notation of `n`, right-aligned in four columns.
pub open spec fn right_aligned(n: nat) -> Seq<char> {
    let d = decimal(n);
    if d.len() < 4 {
        spaces((4 - d.len()) as nat) + d
    } else {
        d
    }
}

/// A source line of the excerpt: on a line of its own, its number and the
/// line.
pub open spec fn numbered_line(number: nat, line: Seq<char>) -> Seq<char> {
    "\n"@ + right_aligned(number) + ": "@ + line
}

/// The excerpt lines from the `n`-th of `count` lines to read on; `lines`
/// holds the lines still to read, `None` for one that could not be read.
/// The `n`-th line read is numbered `first + n + 1`.
pub open spec fn excerpt_lines(lines: Seq<Option<String>>, first: nat, n: nat, count: nat) -> Seq<char>
    decreases count - n,
{
    if n >= count || n >= lines.len() {
        Seq::empty()
    } else {
        let here = match lines[n as int] {
            Some(l) => numbered_line(first + n + 1, l@),
            None => Seq::empty(),
        };
        here + excerpt_lines(lines, first, n + 1, count)
    }
}

/// The report of a panic at `line` and `column` of a source file whose
/// lines are `file_lines`: the panic message; up to five lines of the file
/// ending with the line that panicked; a caret under the column with the
/// payload's message; then the next five lines, which are numbered as the
/// first five were.
pub open spec fn panic_report(
    message: Seq<char>,
    file_lines: Seq<Option<String>>,
    line: nat,
    column: nat,
    error_message: Seq<char>,
) -> Seq<char> {
    let first: nat = if line >= 5 { (line - 5) as nat } else { 0 };
    let rest = if first <= file_lines.len() { file_lines.subrange(first as int, file_lines.len() as int) } else { Seq::empty() };
    let prefix_count: nat = if line < 5 { line } else { 5 };
    let consumed: nat = if prefix_count < rest.len() { prefix_count } else { rest.len() };
    message + excerpt_lines(rest, first, 0, prefix_count) + "\n"@ + spaces(column + 4) + "^ "@ + error_message
        + excerpt_lines(rest.subrange(consumed as int, rest.len() as int), first, 0, 5)
}

fn push_decimal(out: &mut String, n: usize)
    ensures
        final(out)@ == old(out)@ + decimal(n as nat),
    decreases n,
{
    if n >= 10 {
        push_decimal(out, n / 10);
    }
    let d = n % 10;
    let s = if d == 0 {
        "0"
    } else if d == 1 {
        "1"
    } else if d == 2 {
        "2"
    } else if d == 3 {
        "3"
    } else if d == 4 {
        "4"
    } else if d == 5 {
        "5"
    } else if d == 6 {
        "6"
    } else if d == 7 {
        "7"
    } else if d == 8 {
        "8"
    } else {
        "9"
    };
    out.append(s);
    proof {
        if n < 10 {
            assert(n as nat % 10 == n as nat);
        }
        assert(old(out)@ + decimal(n as nat) =~= (if n >= 10 { old(out)@ + decimal((n / 10) as nat) } else { old(out)@ }) + digit_chars((n % 10) as nat));
    }
}

fn push_spaces(out: &mut String, n: usize)
    ensures
        final(out)@ == old(out)@ + spaces(n as nat),
{
    let mut k: usize = 0;
    while k < n
        invariant
            k <= n,
            out@ == old(out)@ + spaces(k as nat),
        decreases n - k,
    {
        out.append(" ");
        proof {
            assert(old(out)@ + spaces((k + 1) as nat) =~= old(out)@ + spaces(k as nat) + " "@);
        }
        k = k + 1;
    }
}

proof fn lemma_digit_len(d: nat)
    ensures
        digit_chars(d).len() == 1,
{
    reveal_strlit("0");
    reveal_strlit("1");
    reveal_strlit("2");
    reveal_strlit("3");
    reveal_strlit("4");
    reveal_strlit("5");
    reveal_strlit("6");
    reveal_strlit("7");
    reveal_strlit("8");
    reveal_strlit("9");
}

proof fn lemma_decimal_len(n: nat)
    ensures
        n < 10 ==> decimal(n).len() == 1,
        10 <= n < 100 ==> decimal(n).len() == 2,
        100 <= n < 1000 ==> decimal(n).len() == 3,
        n >= 1000 ==> decimal(n).len() >= 4,
    decreases n,
{
    lemma_digit_len(n % 10);
    lemma_digit_len(n);
    if n >= 10 {
        lemma_decimal_len(n / 10);
    }
}

/// The spaces that right-align the number `n` in four columns.
fn alignment(n: usize) -> (r: usize)
    ensures
        r == (if decimal(n as nat).len() < 4 { 4 - decimal(n as nat).len() } else { 0 }),
{
    proof {
        lemma_decimal_len(n as nat);
    }
    if n < 10 {
        3
    } else if n < 100 {
        2
    } else if n < 1000 {
        1
    } else {
        0
    }
}

fn push_numbered_line(out: &mut String, number: usize, line: &str)
    ensures
        final(out)@ == old(out)@ + numbered_line(number as nat, line@),
{
    out.append("\n");
    push_spaces(out, alignment(number));
    push_decimal(out, number);
    out.append(": ");
    out.append(line);
    proof {
        assert(final(out)@ =~= old(out)@ + numbered_line(number as nat, line@));
    }
}

/// Appends the excerpt lines `n..count` of `lines[first..]`, numbered from
/// `number_base + 1`, as `excerpt_lines` lists them.
fn push_excerpt(
    out: &mut String,
    file_lines: &[Option<String>],
    start: usize,
    number_base: usize,
    count: usize,
) -> (consumed: usize)
    requires
        start <= file_lines@.len(),
        number_base + count + 1 <= usize::MAX,
    ensures
        final(out)@ == old(out)@ + excerpt_lines(
            file_lines@.subrange(start as int, file_lines@.len() as int),
            number_base as nat,
            0,
            count as nat,
        ),
        consumed == (if count < file_lines@.len() - start { count } else { (file_lines@.len() - start) as usize }),
{
    let ghost rest = file_lines@.subrange(start as int, file_lines@.len() as int);
    let available = file_lines.len() - start;
    let mut n: usize = 0;
    while n < count && n < available
        invariant
            start <= file_lines@.len(),
            available == file_lines@.len() - start,
            start + available == file_lines@.len(),
            file_lines@.len() <= usize::MAX,
            rest == file_lines@.subrange(start as int, file_lines@.len() as int),
            number_base + count + 1 <= usize::MAX,
            n <= count,
            n <= available,
            out@ + excerpt_lines(rest, number_base as nat, n as nat, count as nat) == old(out)@ + excerpt_lines(
                rest,
                number_base as nat,
                0,
                count as nat,
            ),
        decreases count - n,
    {
        let ghost before = out@;
        if let Some(l) = &file_lines[start + n] {
            push_numbered_line(out, number_base + n + 1, l.as_str());
        }
        proof {
            assert(rest[n as int] == file_lines@[start + n]);
            assert(out@ + excerpt_lines(rest, number_base as nat, (n + 1) as nat, count as nat) =~= before
                + excerpt_lines(rest, number_base as nat, n as nat, count as nat));
        }
        n = n + 1;
    }
    proof {
        assert(out@ + excerpt_lines(rest, number_base as nat, n as nat, count as nat) =~= out@);
    }
    n
}

/// The report of a panic whose message is `message`, at `line` and
/// `column` of a source file whose lines are `file_lines` (`None` for a line
/// that could not be read), with the payload's message `error_message`.
pub fn format_panic_message(
    message: &str,
    file_lines: &[Option<String>],
    line: u32,
    column: u32,
    error_message: &str,
) -> (r: String)
    requires
        column <= u32::MAX - 4,
        line < usize::MAX,
    ensures
        r@ == panic_report(message@, file_lines@, line as nat, column as nat, error_message@),
{
    let mut out = message.to_string();
    let line = line as usize;
    let first = if line >= PREFIX_LINES { line - PREFIX_LINES } else { 0 };
    let prefix_count = if line < PREFIX_LINES { line } else { PREFIX_LINES };
    if first > file_lines.len() {
        out.append("\n");
        push_spaces(&mut out, column as usize + 4);
        out.append("^ ");
        out.append(error_message);
        proof {
            let rest = Seq::<Option<String>>::empty();
            assert(excerpt_lines(rest, first as nat, 0, prefix_count as nat) =~= Seq::<char>::empty());
            assert(excerpt_lines(rest.subrange(0, 0), first as nat, 0, 5) =~= Seq::<char>::empty());
            assert(out@ =~= panic_report(message@, file_lines@, line as nat, column as nat, error_message@));
        }
        return out;
    }
    let ghost start_view = out@;
    let consumed = push_excerpt(&mut out, file_lines, first, first, prefix_count);
    let ghost after_prefix = out@;
    out.append("\n");
    push_spaces(&mut out, column as usize + 4);
    out.append("^ ");
    out.append(error_message);
    let ghost after_caret = out@;
    push_excerpt(&mut out, file_lines, first + consumed, first, SUFFIX_LINES);
    proof {
        let rest = file_lines@.subrange(first as int, file_lines@.len() as int);
        assert(rest.subrange(consumed as int, rest.len() as int) =~= file_lines@.subrange(
            (first + consumed) as int,
            file_lines@.len() as int,
        ));
        assert(out@ =~= panic_report(message@, file_lines@, line as nat, column as nat, error_message@));
    }
    out
}

} // verus!
