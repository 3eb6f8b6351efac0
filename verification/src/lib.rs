//! A small boundary module meant to sit behind a foreign-export shim:
//! wrapping 32-bit addition, and a greeter that writes one formatted
//! line per call to a logging sink.

use vstd::prelude::*;
use vstd::string::*;

verus! {

/// The sum of `a` and `b` in two's-complement 32-bit arithmetic: the
/// mathematical sum, brought back into the `i32` range when it overflows.
pub open spec fn wrapped_sum(a: i32, b: i32) -> i32 {
    if a + b > i32::MAX {
        (a + b - 0x1_0000_0000) as i32
    } else if a + b < i32::MIN {
        (a + b + 0x1_0000_0000) as i32
    } else {
        (a + b) as i32
    }
}

/// Adds two 32-bit signed integers. On overflow the result wraps around,
/// as two's-complement machine addition does.
pub fn add(a: i32, b: i32) -> (r: i32)
    ensures
        r == wrapped_sum(a, b),
        i32::MIN <= a + b <= i32::MAX ==> r == a + b,
{
    a.wrapping_add(b)
}

/// Wrapping addition is commutative: swapping the operands gives the
/// same sum.
pub proof fn lemma_add_commutes(a: i32, b: i32)
    ensures
        wrapped_sum(a, b) == wrapped_sum(b, a),
{
}

/// Zero is the identity of addition: adding zero to any value gives the
/// value back unchanged, and never overflows.
pub proof fn lemma_add_identity(x: i32)
    ensures
        wrapped_sum(0, x) == x,
{
}

/// The greeting line for `name`: the fixed template with the name
/// substituted verbatim.
pub open spec fn greeting(name: Seq<char>) -> Seq<char> {
    "Greetings from wasm: "@ + name + "!"@
}

/// Builds the greeting line for `name`.
pub fn greeting_line(name: &str) -> (line: String)
    ensures
        line@ == greeting(name@),
{
    let mut line: String = "Greetings from wasm: ".to_owned();
    line.append(name);
    line.append("!");
    proof {
        assert(line@ =~= greeting(name@));
    }
    line
}

/// A logging sink, recording the lines written to it. Its view is those
/// lines, oldest first.
pub struct Log {
    lines: Vec<String>,
}

impl View for Log {
    type V = Seq<Seq<char>>;

    closed spec fn view(&self) -> Seq<Seq<char>> {
        self.lines.deep_view()
    }
}

impl Log {
    /// An empty sink: nothing has been written yet.
    pub fn new() -> (log: Log)
        ensures
            log@ == Seq::<Seq<char>>::empty(),
    {
        let log = Log { lines: Vec::new() };
        proof {
            assert(log@ =~= Seq::<Seq<char>>::empty());
        }
        log
    }

    /// Appends one line to the sink.
    pub fn write_line(&mut self, line: String)
        ensures
            final(self)@ == old(self)@.push(line@),
    {
        self.lines.push(line);
        proof {
            assert(self@ =~= old(self)@.push(self.lines@.last()@));
        }
    }

    /// How many lines have been written so far.
    pub fn len(&self) -> (n: usize)
        ensures
            n == self@.len(),
    {
        self.lines.len()
    }

    /// Hands the recorded lines out, oldest first.
    pub fn into_lines(self) -> (lines: Vec<String>)
        ensures
            lines.deep_view() == self@,
    {
        self.lines
    }
}

/// Writes the greeting for `name` to the sink: exactly one line is
/// appended per call, and its content is the fixed template with the
/// name substituted verbatim.
pub fn greet(sink: &mut Log, name: &str)
    ensures
        final(sink)@ == old(sink)@.push(greeting(name@)),
{
    let line = greeting_line(name);
    sink.write_line(line);
}

} // verus!
