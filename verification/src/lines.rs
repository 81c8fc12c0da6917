use vstd::prelude::*;

verus! {

/// The single byte that terminates a line in the tailed log.
pub const LINE_TERMINATOR: u8 = 10;

/// What feeding one chunk of bytes into an accumulator with pending bytes `p`
/// yields: the sequence of completed lines (each excluding its terminator)
/// and the new pending tail. A terminator byte flushes the pending bytes as
/// one complete line; any other byte is appended to the pending bytes.
pub open spec fn spec_feed(p: Seq<u8>, c: Seq<u8>) -> (Seq<Seq<u8>>, Seq<u8>)
    decreases c.len(),
{
    if c.len() == 0 {
        (Seq::<Seq<u8>>::empty(), p)
    } else if c[0] == LINE_TERMINATOR {
        let rest = spec_feed(Seq::<u8>::empty(), c.subrange(1, c.len() as int));
        (seq![p] + rest.0, rest.1)
    } else {
        spec_feed(p.push(c[0]), c.subrange(1, c.len() as int))
    }
}

/// Turns a stream of raw byte chunks into complete, newline-delimited lines,
/// carrying an incomplete trailing line across reads. The pending bytes never
/// contain a line terminator, and a trailing unterminated line is held back
/// until its terminator arrives.
pub struct LineAccumulator {
    pending: Vec<u8>,
}

impl LineAccumulator {
    /// The pending (incomplete) line carried across reads.
    pub closed spec fn view(&self) -> Seq<u8> {
        self.pending@
    }

    /// The pending bytes hold no line terminator.
    pub open spec fn wf(&self) -> bool {
        forall|i: int| 0 <= i < self@.len() ==> self@[i] != LINE_TERMINATOR
    }

    /// A fresh accumulator: empty pending bytes. A new tail session always
    /// starts with one, so no partial-line state survives a rotation.
    pub fn new() -> (a: LineAccumulator)
        ensures
            a@ == Seq::<u8>::empty(),
            a.wf(),
    {
        LineAccumulator { pending: Vec::new() }
    }

    /// Scan one chunk of bytes: return every line completed by it, and keep
    /// the unterminated tail as the new pending bytes.
    pub fn feed(&mut self, chunk: &[u8]) -> (lines: Vec<Vec<u8>>)
        ensures
            lines.deep_view() == spec_feed(old(self)@, chunk@).0,
            final(self)@ == spec_feed(old(self)@, chunk@).1,
            old(self).wf() ==> final(self).wf(),
    {
        let ghost p0 = self.pending@;
        let mut lines: Vec<Vec<u8>> = Vec::new();
        let mut i: usize = 0;
        proof {
            assert(chunk@.skip(0) =~= chunk@);
            assert(lines.deep_view() =~~= Seq::<Seq<u8>>::empty());
            assert(lines.deep_view() + spec_feed(p0, chunk@).0 =~= spec_feed(p0, chunk@).0);
        }
        while i < chunk.len()
            invariant
                0 <= i <= chunk.len(),
                spec_feed(p0, chunk@).0 == lines.deep_view() + spec_feed(
                    self@,
                    chunk@.skip(i as int),
                ).0,
                spec_feed(p0, chunk@).1 == spec_feed(self@, chunk@.skip(i as int)).1,
                (forall|j: int| 0 <= j < p0.len() ==> p0[j] != LINE_TERMINATOR) ==> self.wf(),
            decreases chunk.len() - i,
        {
            let ghost pre = self.pending@;
            let ghost tail = chunk@.skip(i as int);
            proof {
                assert(tail.len() > 0);
                assert(tail[0] == chunk@[i as int]);
                assert(tail.subrange(1, tail.len() as int) =~= chunk@.skip(i as int + 1));
            }
            let b = chunk[i];
            if b == LINE_TERMINATOR {
                let ghost dls = lines.deep_view();
                let mut line: Vec<u8> = Vec::new();
                core::mem::swap(&mut line, &mut self.pending);
                lines.push(line);
                proof {
                    assert(spec_feed(pre, tail) == ((seq![pre] + spec_feed(
                        Seq::<u8>::empty(),
                        chunk@.skip(i as int + 1),
                    ).0), spec_feed(Seq::<u8>::empty(), chunk@.skip(i as int + 1)).1));
                    assert(lines.deep_view() =~~= dls.push(pre));
                    assert(dls.push(pre) + spec_feed(Seq::<u8>::empty(), chunk@.skip(i as int + 1)).0
                        =~= dls + (seq![pre] + spec_feed(
                        Seq::<u8>::empty(),
                        chunk@.skip(i as int + 1),
                    ).0));
                }
            } else {
                self.pending.push(b);
                proof {
                    assert(spec_feed(pre, tail) == spec_feed(
                        pre.push(b),
                        chunk@.skip(i as int + 1),
                    ));
                }
            }
            i = i + 1;
        }
        proof {
            assert(chunk@.skip(i as int) =~= Seq::<u8>::empty());
            assert(lines.deep_view() + spec_feed(self@, chunk@.skip(i as int)).0 =~= lines.deep_view());
        }
        lines
    }
}

} // verus!
