use vstd::prelude::*;

use crate::cache::{spec_upsert, EntryView, SensorStateCache};
use crate::ident::{spec_check, FileIdentity, IdentityCheck};
use crate::lines::{spec_feed, LineAccumulator};
use crate::parse::{
    model_at, parse_line, record_at, record_ok, sensor_key, spec_key, supported_model, LineOutcome,
};

verus! {

/// How far back from the end of a long file a fresh session starts reading.
pub const TAIL_WINDOW: u64 = 16384;

/// Where a fresh session begins reading: within one window of the end of a
/// long file, at the very start of a short one.
pub open spec fn spec_initial_offset(len: u64) -> u64 {
    if len > 16384 {
        (len - 16384) as u64
    } else {
        0
    }
}

/// What one completed line does to the cache: a fully-decoding line of the
/// supported model replaces-or-inserts the entry under its canonical id;
/// every other line (unknown model, malformed) leaves the cache untouched.
pub open spec fn spec_apply_line(c: Seq<EntryView>, b: Seq<u8>) -> Seq<EntryView> {
    if model_at(b) == supported_model() && record_ok(b) {
        spec_upsert(
            c,
            spec_key(record_at(b).model, record_at(b).id, record_at(b).channel),
            record_at(b),
        )
    } else {
        c
    }
}

/// A sequence of completed lines folded over the cache, in file order.
pub open spec fn spec_apply_lines(c: Seq<EntryView>, ls: Seq<Seq<u8>>) -> Seq<EntryView>
    decreases ls.len(),
{
    if ls.len() == 0 {
        c
    } else {
        spec_apply_lines(spec_apply_line(c, ls[0]), ls.drop_first())
    }
}

/// Decode one completed line and apply it to the cache: a record of the
/// supported model is upserted under its canonical id; unknown models and
/// malformed lines are dropped without touching the cache or ending the
/// session.
pub fn process_line(line: &Vec<u8>, cache: &mut SensorStateCache)
    requires
        old(cache).wf(),
    ensures
        final(cache)@ == spec_apply_line(old(cache)@, line@),
        final(cache).wf(),
{
    match parse_line(line.as_slice()) {
        LineOutcome::Record(r) => {
            let key = sensor_key(r.model.as_str(), r.id, r.channel.as_str());
            cache.upsert(key, r);
        },
        LineOutcome::UnknownModel => {},
        LineOutcome::Malformed => {},
    }
}

/// Outcome of one EOF poll: keep waiting (sleep, then retry the read at the
/// same offset), or end the session cleanly so the supervisor reopens.
#[derive(Clone, Copy, PartialEq, Eq, Structural, Debug)]
pub enum PollDecision {
    KeepWaiting,
    Reopen,
}

/// One attempt at streaming one open file handle to completion: the identity
/// captured at open, the byte offset consumed so far (monotonically
/// non-decreasing), and the pending partial line carried across reads.
pub struct TailSession {
    pub identity: FileIdentity,
    pub offset: u64,
    pub acc: LineAccumulator,
}

impl TailSession {
    pub open spec fn wf(&self) -> bool {
        self.acc.wf()
    }

    /// Open a fresh session over a file with the given identity and length:
    /// capture the identity, apply the initial seek policy, and start with
    /// an empty accumulator (no partial-line state crosses a rotation).
    pub fn start(dev: u64, ino: u64, len: u64) -> (s: TailSession)
        ensures
            s.identity == (FileIdentity { dev, ino }),
            s.offset == spec_initial_offset(len),
            s.acc@ == Seq::<u8>::empty(),
            s.wf(),
    {
        TailSession {
            identity: FileIdentity { dev, ino },
            offset: if len > TAIL_WINDOW {
                len - TAIL_WINDOW
            } else {
                0
            },
            acc: LineAccumulator::new(),
        }
    }

    /// A successful read of `chunk` at the current offset: advance the
    /// offset by the amount read, reassemble lines, and decode and apply
    /// each completed line to the cache, in file order.
    pub fn on_chunk(&mut self, chunk: &[u8], cache: &mut SensorStateCache)
        requires
            old(self).wf(),
            old(cache).wf(),
            old(self).offset + chunk@.len() <= u64::MAX,
        ensures
            final(self).identity == old(self).identity,
            final(self).offset == old(self).offset + chunk@.len(),
            final(self).acc@ == spec_feed(old(self).acc@, chunk@).1,
            final(cache)@ == spec_apply_lines(old(cache)@, spec_feed(old(self).acc@, chunk@).0),
            final(self).wf(),
            final(cache).wf(),
    {
        self.offset = self.offset + (chunk.len() as u64);
        let lines = self.acc.feed(chunk);
        let ghost ldv = lines.deep_view();
        let ghost c0 = cache@;
        let mut i: usize = 0;
        proof {
            assert(ldv.skip(0) =~= ldv);
        }
        while i < lines.len()
            invariant
                0 <= i <= lines.len(),
                ldv == lines.deep_view(),
                ldv.len() == lines@.len(),
                cache.wf(),
                spec_apply_lines(c0, ldv) == spec_apply_lines(cache@, ldv.skip(i as int)),
            decreases lines.len() - i,
        {
            let ghost pre = cache@;
            process_line(&lines[i], cache);
            proof {
                assert(ldv[i as int] == lines@[i as int].deep_view());
                assert(lines@[i as int].deep_view() =~= lines@[i as int]@);
                assert(ldv.skip(i as int)[0] == ldv[i as int]);
                assert(ldv.skip(i as int).drop_first() =~= ldv.skip(i as int + 1));
                assert(spec_apply_lines(pre, ldv.skip(i as int)) == spec_apply_lines(
                    spec_apply_line(pre, ldv[i as int]),
                    ldv.skip(i as int + 1),
                ));
            }
            i = i + 1;
        }
        proof {
            assert(ldv.skip(lines@.len() as int) =~= Seq::<Seq<u8>>::empty());
        }
    }

    /// EOF was reached: classify a fresh stat of the path, if one could be
    /// taken, against the captured identity and the consumed offset. A
    /// transiently unavailable path (no stat result) is treated as unchanged
    /// and simply retried on the next poll rather than escalated.
    pub fn on_eof(&self, stat: Option<(u64, u64, u64)>) -> (d: PollDecision)
        ensures
            match stat {
                None => d == PollDecision::KeepWaiting,
                Some(s) => d == (if spec_check(self.identity, s.0, s.1, s.2, self.offset)
                    is Rotated {
                    PollDecision::Reopen
                } else {
                    PollDecision::KeepWaiting
                }),
            },
    {
        match stat {
            None => PollDecision::KeepWaiting,
            Some((dev, ino, size)) => {
                match self.identity.check(dev, ino, size, self.offset) {
                    IdentityCheck::Rotated => PollDecision::Reopen,
                    IdentityCheck::Unchanged => PollDecision::KeepWaiting,
                }
            },
        }
    }
}

} // verus!
