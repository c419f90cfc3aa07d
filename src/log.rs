//! The run's log: two lines (memory, then CPU) for every completed cycle,
//! held in memory and written out once at shutdown.
use vstd::prelude::*;
use crate::clock::{file_name, line_stamp, line_stamp_text, log_file_name, Stamp};
use crate::text::{fixed2, fixed_two, pad, pad_with};

verus! {

/// What one cycle contributes to the log: its stamp, memory used and total in
/// hundredths of a gibibyte, and the global CPU usage in basis points.
#[derive(Clone, Copy, Debug, PartialEq, Eq, Structural)]
pub struct CycleSample {
    pub stamp: Stamp,
    pub used_gib_hundredths: u64,
    pub total_gib_hundredths: u64,
    pub cpu_bps: u64,
}

/// `[<stamp>] `.
pub open spec fn line_head(s: Stamp) -> Seq<char> {
    seq!['['] + line_stamp(s) + seq![']', ' ']
}

/// `[<stamp>] RAM Usage: <used> / <total> GB`, both amounts right-aligned in six places.
pub open spec fn ram_line(c: CycleSample) -> Seq<char> {
    line_head(c.stamp) + seq!['R', 'A', 'M', ' ', 'U', 's', 'a', 'g', 'e', ':', ' '] + pad_with(
        ' ',
        fixed2(c.used_gib_hundredths as nat),
        6,
    ) + seq![' ', '/', ' '] + pad_with(' ', fixed2(c.total_gib_hundredths as nat), 6) + seq![
        ' ',
        'G',
        'B',
    ]
}

/// `[<stamp>] CPU usage: <pct>%`, the percentage right-aligned in five places.
pub open spec fn cpu_line(c: CycleSample) -> Seq<char> {
    line_head(c.stamp) + seq!['C', 'P', 'U', ' ', 'u', 's', 'a', 'g', 'e', ':', ' '] + pad_with(
        ' ',
        fixed2(c.cpu_bps as nat),
        5,
    ) + seq!['%']
}

/// Lines, each followed by a newline.
pub open spec fn text_of(lines: Seq<Seq<char>>) -> Seq<char>
    decreases lines.len(),
{
    if lines.len() == 0 {
        Seq::empty()
    } else {
        text_of(lines.drop_last()) + lines.last() + seq!['\n']
    }
}

/// The append-only log of a run.
pub struct LogBuffer {
    lines: Vec<String>,
    samples: Ghost<Seq<CycleSample>>,
}

impl LogBuffer {
    /// The lines written so far.
    pub closed spec fn lines(&self) -> Seq<Seq<char>> {
        self.lines@.map_values(|l: String| l@)
    }

    /// The cycles recorded so far, in order.
    pub closed spec fn samples(&self) -> Seq<CycleSample> {
        self.samples@
    }

    /// Line `2i` is the memory line and line `2i + 1` the CPU line of cycle `i`,
    /// and there are no other lines.
    pub open spec fn wf(&self) -> bool {
        &&& self.lines().len() == 2 * self.samples().len()
        &&& forall|i: int|
            0 <= i < self.samples().len() ==> self.lines()[2 * i] == ram_line(
                #[trigger] self.samples()[i],
            ) && self.lines()[2 * i + 1] == cpu_line(self.samples()[i])
    }

    /// An empty log.
    pub fn new() -> (r: Self)
        ensures
            r.wf(),
            r.samples().len() == 0,
            r.lines().len() == 0,
    {
        let r = LogBuffer { lines: Vec::new(), samples: Ghost(Seq::empty()) };
        assert(r.lines() =~= Seq::empty());
        r
    }

    /// Number of lines.
    pub fn len(&self) -> (r: usize)
        ensures
            r == self.lines().len(),
    {
        self.lines.len()
    }

    /// Appends the two lines of a completed cycle.
    pub fn record(&mut self, c: CycleSample)
        requires
            old(self).wf(),
        ensures
            final(self).wf(),
            final(self).samples() == old(self).samples().push(c),
            final(self).lines() == old(self).lines() + seq![ram_line(c), cpu_line(c)],
    {
        let ram = ram_text(&c);
        let cpu = cpu_text(&c);
        self.lines.push(ram);
        self.lines.push(cpu);
        self.samples = Ghost(self.samples@.push(c));
        assert(self.lines() =~= old(self).lines() + seq![ram_line(c), cpu_line(c)]);
        assert forall|i: int| 0 <= i < self.samples().len() implies self.lines()[2 * i] == ram_line(
            #[trigger] self.samples()[i],
        ) && self.lines()[2 * i + 1] == cpu_line(self.samples()[i]) by {
            if i < old(self).samples().len() {
                assert(self.lines()[2 * i] == old(self).lines()[2 * i]);
                assert(self.lines()[2 * i + 1] == old(self).lines()[2 * i + 1]);
            }
        }
    }

    /// The whole log as text: every line followed by a newline.
    pub fn text(&self) -> (r: String)
        ensures
            r@ == text_of(self.lines()),
    {
        proof {
            reveal_strlit("\n");
        }
        let mut r = String::new();
        let mut i: usize = 0;
        while i < self.lines.len()
            invariant
                i <= self.lines@.len(),
                r@ == text_of(self.lines().take(i as int)),
            decreases self.lines@.len() - i,
        {
            proof {
                reveal_strlit("\n");
                assert(self.lines().take(i as int + 1).drop_last() =~= self.lines().take(i as int));
            }
            r.append(self.lines[i].as_str());
            r.append("\n");
            i = i + 1;
            assert(r@ =~= text_of(self.lines().take(i as int)));
        }
        assert(self.lines().take(i as int) =~= self.lines());
        r
    }
}

fn head_text(s: &Stamp) -> (r: String)
    ensures
        r@ == line_head(*s),
{
    proof {
        reveal_strlit("[");
        reveal_strlit("] ");
    }
    let mut r = String::from_str("[");
    r.append(line_stamp_text(s).as_str());
    r.append("] ");
    assert(r@ =~= line_head(*s));
    r
}

fn ram_text(c: &CycleSample) -> (r: String)
    ensures
        r@ == ram_line(*c),
{
    proof {
        reveal_strlit(" ");
        reveal_strlit("RAM Usage: ");
        reveal_strlit(" / ");
        reveal_strlit(" GB");
    }
    let mut r = head_text(&c.stamp);
    r.append("RAM Usage: ");
    r.append(pad(" ", fixed_two(c.used_gib_hundredths), 6).as_str());
    r.append(" / ");
    r.append(pad(" ", fixed_two(c.total_gib_hundredths), 6).as_str());
    r.append(" GB");
    assert(r@ =~= ram_line(*c));
    r
}

fn cpu_text(c: &CycleSample) -> (r: String)
    ensures
        r@ == cpu_line(*c),
{
    proof {
        reveal_strlit(" ");
        reveal_strlit("CPU usage: ");
        reveal_strlit("%");
    }
    let mut r = head_text(&c.stamp);
    r.append("CPU usage: ");
    r.append(pad(" ", fixed_two(c.cpu_bps), 5).as_str());
    r.append("%");
    assert(r@ =~= cpu_line(*c));
    r
}

/// What shutdown writes: the file name from the stamp, and the log's text.
pub fn shutdown_output(log: &LogBuffer, at: &Stamp) -> (r: (String, String))
    ensures
        r.0@ == log_file_name(*at),
        r.1@ == text_of(log.lines()),
{
    (file_name(at), log.text())
}

/// Each completed cycle leaves exactly one memory line and one CPU line, in
/// that order, and nothing else is logged.
pub proof fn lemma_two_lines_per_cycle(log: LogBuffer, i: int)
    requires
        log.wf(),
        0 <= i < log.samples().len(),
    ensures
        log.lines().len() == 2 * log.samples().len(),
        log.lines()[2 * i] == ram_line(log.samples()[i]),
        log.lines()[2 * i + 1] == cpu_line(log.samples()[i]),
{
}

} // verus!
