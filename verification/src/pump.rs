use vstd::prelude::*;
use crate::line::{trim_str, trimmed};
use crate::url::{joined, File, UrlBuf};

verus! {

/// What became of one line read from the subprocess's standard output.
pub enum LineOutcome {
    /// The line was blank after trimming; it was dropped.
    Blank,
    /// The line named a path the inspection collaborator could not resolve;
    /// it was dropped.
    Skipped,
    /// The line was resolved and its entry delivered to the consumer.
    Delivered { entry: File },
}

/// The entries delivered for a history of line outcomes, in history order.
pub open spec fn outputs_of(h: Seq<LineOutcome>) -> Seq<File>
    decreases h.len(),
{
    if h.len() == 0 {
        Seq::empty()
    } else {
        outputs_of(h.drop_last()) + match h.last() {
            LineOutcome::Delivered { entry } => seq![entry],
            _ => Seq::empty(),
        }
    }
}

/// Where one search stands, from spawn to the closing of its output channel.
#[derive(Debug, Clone, Copy, PartialEq, Eq, Structural)]
pub enum PumpState {
    /// Waiting for the next line of subprocess output.
    Streaming,
    /// A line yielded a candidate path; waiting for the inspection
    /// collaborator's verdict on it.
    Resolving,
    /// End of stream (or a read error) was seen; waiting for subprocess exit.
    Draining,
    /// Subprocess exit was observed; the output channel is to be closed.
    Closed,
}

/// The decision core of the stream pump. The host feeds it what it read and
/// what the collaborators answered; the pump decides what to resolve, what to
/// deliver, and when the stream is over. The ghost history records the fate of
/// every line, so the contracts can tie the delivered entries to their source
/// lines.
pub struct Pump {
    pub state: PumpState,
    pub cwd: UrlBuf,
    pub history: Ghost<Seq<LineOutcome>>,
}

impl Pump {
    /// The entries delivered so far, in delivery order.
    pub open spec fn emitted(&self) -> Seq<File> {
        outputs_of(self.history@)
    }

    /// A pump for one search, anchored at the request's base directory.
    pub fn new(cwd: UrlBuf) -> (p: Pump)
        ensures
            p.state is Streaming,
            p.cwd == cwd,
            p.history@ == Seq::<LineOutcome>::empty(),
    {
        Pump { state: PumpState::Streaming, cwd, history: Ghost(Seq::empty()) }
    }

    /// One line of subprocess output arrived. Blank lines (after trimming)
    /// are dropped on the spot; any other line is joined onto the base
    /// directory and handed back as the candidate to resolve.
    pub fn on_line(&mut self, line: &str) -> (candidate: Option<UrlBuf>)
        requires
            old(self).state is Streaming,
        ensures
            final(self).cwd == old(self).cwd,
            match candidate {
                Some(url) => {
                    &&& trimmed(line@).len() > 0
                    &&& url.is_local_spec() == old(self).cwd.is_local_spec()
                    &&& url.path_spec() == joined(old(self).cwd.path_spec(), trimmed(line@))
                    &&& final(self).state is Resolving
                    &&& final(self).history@ == old(self).history@
                },
                None => {
                    &&& trimmed(line@).len() == 0
                    &&& final(self).state is Streaming
                    &&& final(self).history@ == old(self).history@.push(LineOutcome::Blank)
                    &&& final(self).emitted() == old(self).emitted()
                },
            },
    {
        let t = trim_str(line);
        if t.unicode_len() == 0 {
            self.history = Ghost(self.history@.push(LineOutcome::Blank));
            proof {
                lemma_outputs_of_push(old(self).history@, LineOutcome::Blank);
                assert(self.emitted() =~= old(self).emitted());
            }
            None
        } else {
            let url = self.cwd.join(t);
            self.state = PumpState::Resolving;
            Some(url)
        }
    }

    /// The inspection collaborator answered for the pending candidate. A
    /// resolved entry is recorded and handed back for delivery; a failure is
    /// dropped silently. Either way the pump goes back to streaming.
    pub fn on_resolution(&mut self, entry: Option<File>) -> (send: Option<File>)
        requires
            old(self).state is Resolving,
        ensures
            final(self).state is Streaming,
            final(self).cwd == old(self).cwd,
            send == entry,
            match entry {
                Some(f) => {
                    &&& final(self).history@ == old(self).history@.push(
                        LineOutcome::Delivered { entry: f },
                    )
                    &&& final(self).emitted() == old(self).emitted() + seq![f]
                },
                None => {
                    &&& final(self).history@ == old(self).history@.push(LineOutcome::Skipped)
                    &&& final(self).emitted() == old(self).emitted()
                },
            },
    {
        self.state = PumpState::Streaming;
        if entry.is_some() {
            self.history = Ghost(
                self.history@.push(LineOutcome::Delivered { entry: entry.unwrap() }),
            );
            proof {
                lemma_outputs_of_push(
                    old(self).history@,
                    LineOutcome::Delivered { entry: entry.unwrap() },
                );
            }
        } else {
            self.history = Ghost(self.history@.push(LineOutcome::Skipped));
            proof {
                lemma_outputs_of_push(old(self).history@, LineOutcome::Skipped);
                assert(self.emitted() =~= old(self).emitted());
            }
        }
        entry
    }

    /// The subprocess closed its standard output, or reading it failed. Both
    /// end the stream the same way: nothing more is delivered, and the pump
    /// now only waits to reap the subprocess.
    pub fn on_stream_end(&mut self)
        requires
            old(self).state is Streaming,
        ensures
            final(self).state is Draining,
            final(self).cwd == old(self).cwd,
            final(self).history@ == old(self).history@,
    {
        self.state = PumpState::Draining;
    }

    /// Subprocess exit was observed; its resources are released. Only now may
    /// the output channel be closed, so the consumer never sees end-of-results
    /// before the subprocess is gone.
    pub fn on_exit(&mut self)
        requires
            old(self).state is Draining,
        ensures
            final(self).state is Closed,
            final(self).cwd == old(self).cwd,
            final(self).history@ == old(self).history@,
    {
        self.state = PumpState::Closed;
    }
}

/// Recording one more line outcome appends that line's entries (one for a
/// delivery, none otherwise) after everything already delivered.
pub proof fn lemma_outputs_of_push(h: Seq<LineOutcome>, o: LineOutcome)
    ensures
        outputs_of(h.push(o)) == outputs_of(h) + match o {
            LineOutcome::Delivered { entry } => seq![entry],
            _ => Seq::<File>::empty(),
        },
{
    assert(h.push(o).drop_last() =~= h);
    assert(h.push(o).last() == o);
}

/// Delivered entries never cross between stretches of the stream: the output
/// of a whole history is the output of its first part followed by the output
/// of its second part.
pub proof fn lemma_outputs_of_concat(a: Seq<LineOutcome>, b: Seq<LineOutcome>)
    ensures
        outputs_of(a + b) == outputs_of(a) + outputs_of(b),
    decreases b.len(),
{
    if b.len() == 0 {
        assert(a + b =~= a);
        assert(outputs_of(a) + outputs_of(b) =~= outputs_of(a));
    } else {
        lemma_outputs_of_concat(a, b.drop_last());
        assert((a + b).drop_last() =~= a + b.drop_last());
        assert((a + b).last() == b.last());
        let tail = match b.last() {
            LineOutcome::Delivered { entry } => seq![entry],
            _ => Seq::<File>::empty(),
        };
        assert(outputs_of(a + b) == (outputs_of(a) + outputs_of(b.drop_last())) + tail);
        assert(outputs_of(b) == outputs_of(b.drop_last()) + tail);
        assert((outputs_of(a) + outputs_of(b.drop_last())) + tail =~= outputs_of(a) + (
        outputs_of(b.drop_last()) + tail));
    }
}

/// How many entries were delivered for lines before line `i` of the history.
pub open spec fn entries_before(h: Seq<LineOutcome>, i: int) -> int {
    outputs_of(h.take(i)).len() as int
}

/// The entry delivered for line `i` stands at position `entries_before(h, i)`
/// of the output.
pub proof fn lemma_entry_position(h: Seq<LineOutcome>, i: int)
    requires
        0 <= i < h.len(),
        h[i] is Delivered,
    ensures
        0 <= entries_before(h, i) < outputs_of(h).len(),
        outputs_of(h)[entries_before(h, i)] == h[i]->entry,
{
    assert(h =~= h.take(i + 1) + h.skip(i + 1));
    lemma_outputs_of_concat(h.take(i + 1), h.skip(i + 1));
    assert(h.take(i + 1) =~= h.take(i).push(h[i]));
    lemma_outputs_of_push(h.take(i), h[i]);
    assert(outputs_of(h.take(i + 1)) == outputs_of(h.take(i)) + seq![h[i]->entry]);
}

/// Entries keep the order of their source lines: of two delivered lines, the
/// earlier line's entry stands earlier in the output.
pub proof fn lemma_entries_in_line_order(h: Seq<LineOutcome>, i: int, j: int)
    requires
        0 <= i < j < h.len(),
        h[i] is Delivered,
        h[j] is Delivered,
    ensures
        0 <= entries_before(h, i) < entries_before(h, j) < outputs_of(h).len(),
        outputs_of(h)[entries_before(h, i)] == h[i]->entry,
        outputs_of(h)[entries_before(h, j)] == h[j]->entry,
{
    lemma_entry_position(h, i);
    lemma_entry_position(h, j);
    assert(h.take(j) =~= h.take(i) + h.subrange(i, j));
    lemma_outputs_of_concat(h.take(i), h.subrange(i, j));
    let mid = h.subrange(i, j);
    assert(mid =~= seq![h[i]] + mid.skip(1));
    lemma_outputs_of_concat(seq![h[i]], mid.skip(1));
    assert(seq![h[i]] =~= Seq::<LineOutcome>::empty().push(h[i]));
    lemma_outputs_of_push(Seq::empty(), h[i]);
    assert(outputs_of(seq![h[i]]).len() == 1);
}

} // verus!
