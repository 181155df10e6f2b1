use vstd::prelude::*;

verus! {

/// The byte that ends a line.
pub const NEWLINE: u8 = 10;

/// Delay before a failed open of the followed file is tried again.
pub const OPEN_RETRY_MILLIS: u64 = 1000;

/// Delay before reading again once the end of the file has been reached.
pub const POLL_MILLIS: u64 = 500;

/// Reads `s` from left to right and splits it into the lines that a newline
/// has ended, and the bytes after the last newline, which are not yet a line.
pub open spec fn split_lines(s: Seq<u8>) -> (Seq<Seq<u8>>, Seq<u8>)
    decreases s.len(),
{
    if s.len() == 0 {
        (seq![], seq![])
    } else {
        let prev = split_lines(s.drop_last());
        if s.last() == NEWLINE {
            (prev.0.push(prev.1), seq![])
        } else {
            (prev.0, prev.1.push(s.last()))
        }
    }
}

/// The bytes of `lines`, each followed by its newline.
pub open spec fn join_lines(lines: Seq<Seq<u8>>) -> Seq<u8>
    decreases lines.len(),
{
    if lines.len() == 0 {
        seq![]
    } else {
        join_lines(lines.drop_last()) + lines.last().push(NEWLINE)
    }
}

pub open spec fn has_newline(s: Seq<u8>) -> bool {
    exists|i: int| 0 <= i < s.len() && s[i] == NEWLINE
}

/// Bytes without a newline split into no line and themselves.
pub proof fn lemma_split_unterminated(s: Seq<u8>)
    requires
        !has_newline(s),
    ensures
        split_lines(s) == (Seq::<Seq<u8>>::empty(), s),
    decreases s.len(),
{
    if s.len() > 0 {
        assert(!has_newline(s.drop_last())) by {
            if has_newline(s.drop_last()) {
                let i = choose|i: int| 0 <= i < s.drop_last().len() && s.drop_last()[i] == NEWLINE;
                assert(s[i] == NEWLINE);
            }
        }
        lemma_split_unterminated(s.drop_last());
        assert(s[s.len() - 1] != NEWLINE);
        assert(s.drop_last().push(s.last()) =~= s);
    }
}

/// Splitting loses nothing and invents nothing: the lines, each with its
/// newline, followed by the remainder give back the bytes; no line and no
/// remainder holds a newline.
pub proof fn lemma_split_reassembles(s: Seq<u8>)
    ensures
        join_lines(split_lines(s).0) + split_lines(s).1 == s,
        !has_newline(split_lines(s).1),
        forall|k: int| 0 <= k < split_lines(s).0.len() ==> !has_newline(#[trigger] split_lines(s).0[k]),
    decreases s.len(),
{
    if s.len() > 0 {
        let t = s.drop_last();
        lemma_split_reassembles(t);
        let prev = split_lines(t);
        assert(t.push(s.last()) =~= s);
        if s.last() == NEWLINE {
            let ls = prev.0.push(prev.1);
            assert(ls.drop_last() =~= prev.0);
            assert(join_lines(ls) + seq![] =~= s);
            assert(!has_newline(Seq::<u8>::empty()));
            assert forall|k: int| 0 <= k < ls.len() implies !has_newline(#[trigger] ls[k]) by {
                if k < prev.0.len() {
                    assert(ls[k] == prev.0[k]);
                }
            }
        } else {
            let cur = prev.1.push(s.last());
            assert(join_lines(prev.0) + cur =~= s);
            assert(!has_newline(cur)) by {
                if has_newline(cur) {
                    let i = choose|i: int| 0 <= i < cur.len() && cur[i] == NEWLINE;
                    if i < prev.1.len() {
                        assert(prev.1[i] == NEWLINE);
                    }
                }
            }
        }
    }
}

/// Splitting `x + y` is splitting `x`, then splitting what `x` left over
/// followed by `y`: bytes handed over in two pieces give the same lines, in
/// the same order, and each once, as the same bytes handed over at once.
pub proof fn lemma_split_in_pieces(x: Seq<u8>, y: Seq<u8>)
    ensures
        split_lines(x + y) == (
            split_lines(x).0 + split_lines(split_lines(x).1 + y).0,
            split_lines(split_lines(x).1 + y).1,
        ),
    decreases y.len(),
{
    let c1 = split_lines(x).1;
    if y.len() == 0 {
        assert(x + y =~= x);
        assert(c1 + y =~= c1);
        lemma_split_reassembles(x);
        lemma_split_unterminated(c1);
        assert(split_lines(x).0 + Seq::<Seq<u8>>::empty() =~= split_lines(x).0);
    } else {
        let y0 = y.drop_last();
        lemma_split_in_pieces(x, y0);
        assert((x + y).drop_last() =~= x + y0);
        assert((c1 + y).drop_last() =~= c1 + y0);
        assert((x + y).last() == y.last());
        assert((c1 + y).last() == y.last());
        let a = split_lines(x).0;
        let b = split_lines(c1 + y0);
        if y.last() == NEWLINE {
            assert(a + b.0.push(b.1) =~= (a + b.0).push(b.1));
        }
    }
}

/// The contents of each line held in `v`.
pub open spec fn line_views(v: Seq<Vec<u8>>) -> Seq<Seq<u8>> {
    Seq::new(v.len(), |i: int| v[i]@)
}

/// Position in a followed file: the bytes consumed so far, and those after
/// the last newline, held until their line is complete.
pub struct TailCursor {
    offset: u64,
    pending: Vec<u8>,
}

impl TailCursor {
    pub closed spec fn offset_spec(&self) -> u64 {
        self.offset
    }

    pub closed spec fn pending_spec(&self) -> Seq<u8> {
        self.pending@
    }

    /// The pending bytes hold no newline and are among the bytes consumed.
    pub closed spec fn wf(&self) -> bool {
        &&& !has_newline(self.pending@)
        &&& self.pending@.len() <= self.offset
    }

    /// A cursor at the start of a freshly opened file.
    pub fn new() -> (r: TailCursor)
        ensures
            r.wf(),
            r.offset_spec() == 0,
            r.pending_spec() == Seq::<u8>::empty(),
    {
        TailCursor { offset: 0, pending: Vec::new() }
    }

    /// Number of bytes of the file consumed so far.
    pub fn offset(&self) -> (r: u64)
        ensures
            r == self.offset_spec(),
    {
        self.offset
    }

    /// Consumes the next bytes of the file and returns the lines that they
    /// complete, in file order and without their newlines. Bytes after the
    /// last newline stay pending: a line is never returned before its newline
    /// has been read, and never returned twice.
    pub fn feed(&mut self, chunk: &[u8]) -> (lines: Vec<Vec<u8>>)
        requires
            old(self).wf(),
            old(self).offset_spec() + chunk@.len() <= u64::MAX,
        ensures
            final(self).wf(),
            final(self).offset_spec() == old(self).offset_spec() + chunk@.len(),
            (line_views(lines@), final(self).pending_spec()) == split_lines(
                old(self).pending_spec() + chunk@,
            ),
    {
        let ghost start = self.pending@;
        proof {
            lemma_split_unterminated(start);
            assert(start + chunk@.subrange(0, 0) =~= start);
        }
        let mut lines: Vec<Vec<u8>> = Vec::new();
        let mut cur: Vec<u8> = Vec::new();
        std::mem::swap(&mut cur, &mut self.pending);
        let mut i: usize = 0;
        while i < chunk.len()
            invariant
                0 <= i <= chunk@.len(),
                (line_views(lines@), cur@) == split_lines(start + chunk@.subrange(0, i as int)),
            decreases chunk@.len() - i,
        {
            let b = chunk[i];
            let ghost before = start + chunk@.subrange(0, i as int);
            let ghost after = start + chunk@.subrange(0, i as int + 1);
            proof {
                assert(after.drop_last() =~= before);
                assert(after.last() == b);
            }
            if b == NEWLINE {
                proof {
                    assert(line_views(lines@.push(cur)) =~= line_views(lines@).push(cur@));
                }
                let mut done: Vec<u8> = Vec::new();
                std::mem::swap(&mut done, &mut cur);
                lines.push(done);
            } else {
                cur.push(b);
            }
            i = i + 1;
        }
        proof {
            assert(chunk@.subrange(0, chunk@.len() as int) =~= chunk@);
            lemma_split_reassembles(start + chunk@);
            lemma_split_reassembles_len(start + chunk@);
        }
        self.pending = cur;
        self.offset = self.offset + chunk.len() as u64;
        lines
    }
}

/// Where a follower stands.
#[derive(Clone, Copy, Debug, PartialEq, Eq, Structural)]
pub enum TailPhase {
    /// The file has not been opened yet.
    Opening,
    /// The file is open and the next read is due.
    Reading,
    /// The end of the file was reached; more bytes may come later.
    Waiting,
}

/// What the caller observed after performing the last action.
#[derive(Debug)]
pub enum TailEvent {
    /// The file could not be opened (it may not exist yet).
    OpenFailed,
    /// The file was opened; reading starts at its first byte.
    Opened,
    /// A read returned these bytes; none means the end of the file.
    Read(Vec<u8>),
    /// The requested delay has passed.
    Slept,
}

/// What the caller is to do next.
#[derive(Clone, Copy, Debug, PartialEq, Eq, Structural)]
pub enum TailAction {
    /// Try to open the followed file.
    Open,
    /// Read what follows the bytes consumed so far.
    Read,
    /// Wait this many milliseconds, then report `Slept`.
    Sleep(u64),
}

/// The action that a follower in `phase` is waiting to have performed.
pub open spec fn resume_action(phase: TailPhase) -> TailAction {
    match phase {
        TailPhase::Opening => TailAction::Open,
        TailPhase::Reading => TailAction::Read,
        TailPhase::Waiting => TailAction::Sleep(POLL_MILLIS),
    }
}

/// Follows a file that another process appends to, and hands out each of its
/// lines once it is complete. It never ends by itself.
pub struct TailFollower {
    phase: TailPhase,
    cursor: TailCursor,
}

impl TailFollower {
    pub closed spec fn phase_spec(&self) -> TailPhase {
        self.phase
    }

    pub closed spec fn cursor_spec(&self) -> TailCursor {
        self.cursor
    }

    pub closed spec fn wf(&self) -> bool {
        self.cursor.wf()
    }

    /// A follower that has not opened the file yet; its first action is `Open`.
    pub fn new() -> (r: (TailFollower, TailAction))
        ensures
            r.0.wf(),
            r.0.phase_spec() == TailPhase::Opening,
            r.0.cursor_spec().offset_spec() == 0,
            r.1 == TailAction::Open,
    {
        (TailFollower { phase: TailPhase::Opening, cursor: TailCursor::new() }, TailAction::Open)
    }

    pub fn phase(&self) -> (r: TailPhase)
        ensures
            r == self.phase_spec(),
    {
        self.phase
    }

    /// Number of bytes of the file consumed so far.
    pub fn offset(&self) -> (r: u64)
        ensures
            r == self.cursor_spec().offset_spec(),
    {
        self.cursor.offset()
    }

    /// Takes the outcome of the last action and returns the lines it
    /// completed and the next action.
    ///
    /// A failed open is retried after `OPEN_RETRY_MILLIS`, and a successful
    /// one starts from the first byte. Bytes read are consumed and their
    /// complete lines returned; an empty read waits `POLL_MILLIS` and then
    /// reads on from the same offset. An event that does not fit the phase
    /// changes nothing and asks again for the action that the phase waits on.
    pub fn step(&mut self, event: TailEvent) -> (r: (Vec<Vec<u8>>, TailAction))
        requires
            old(self).wf(),
            old(self).cursor_spec().offset_spec() + (match event {
                TailEvent::Read(b) => b@.len(),
                _ => 0,
            }) <= u64::MAX,
        ensures
            final(self).wf(),
            final(self).cursor_spec().offset_spec() >= old(self).cursor_spec().offset_spec()
                || (old(self).phase_spec() == TailPhase::Opening
                    && final(self).cursor_spec().offset_spec() == 0),
            match (old(self).phase_spec(), event) {
                (TailPhase::Opening, TailEvent::OpenFailed) => {
                    &&& final(self).phase_spec() == TailPhase::Opening
                    &&& final(self).cursor_spec() == old(self).cursor_spec()
                    &&& r.0@.len() == 0
                    &&& r.1 == TailAction::Sleep(OPEN_RETRY_MILLIS)
                },
                (TailPhase::Opening, TailEvent::Opened) => {
                    &&& final(self).phase_spec() == TailPhase::Reading
                    &&& final(self).cursor_spec().offset_spec() == 0
                    &&& final(self).cursor_spec().pending_spec() == Seq::<u8>::empty()
                    &&& r.0@.len() == 0
                    &&& r.1 == TailAction::Read
                },
                (TailPhase::Reading, TailEvent::Read(bytes)) => {
                    &&& final(self).cursor_spec().offset_spec()
                        == old(self).cursor_spec().offset_spec() + bytes@.len()
                    &&& (line_views(r.0@), final(self).cursor_spec().pending_spec())
                        == split_lines(old(self).cursor_spec().pending_spec() + bytes@)
                    &&& if bytes@.len() == 0 {
                        final(self).phase_spec() == TailPhase::Waiting
                            && r.1 == TailAction::Sleep(POLL_MILLIS)
                    } else {
                        final(self).phase_spec() == TailPhase::Reading && r.1 == TailAction::Read
                    }
                },
                (TailPhase::Waiting, TailEvent::Slept) => {
                    &&& final(self).phase_spec() == TailPhase::Reading
                    &&& final(self).cursor_spec() == old(self).cursor_spec()
                    &&& r.0@.len() == 0
                    &&& r.1 == TailAction::Read
                },
                _ => {
                    &&& final(self).phase_spec() == old(self).phase_spec()
                    &&& final(self).cursor_spec() == old(self).cursor_spec()
                    &&& r.0@.len() == 0
                    &&& r.1 == resume_action(old(self).phase_spec())
                },
            },
    {
        match (self.phase, event) {
            (TailPhase::Opening, TailEvent::OpenFailed) => {
                (Vec::new(), TailAction::Sleep(OPEN_RETRY_MILLIS))
            },
            (TailPhase::Opening, TailEvent::Opened) => {
                self.phase = TailPhase::Reading;
                self.cursor = TailCursor::new();
                (Vec::new(), TailAction::Read)
            },
            (TailPhase::Reading, TailEvent::Read(bytes)) => {
                let lines = self.cursor.feed(bytes.as_slice());
                if bytes.len() == 0 {
                    self.phase = TailPhase::Waiting;
                    (lines, TailAction::Sleep(POLL_MILLIS))
                } else {
                    (lines, TailAction::Read)
                }
            },
            (TailPhase::Waiting, TailEvent::Slept) => {
                self.phase = TailPhase::Reading;
                (Vec::new(), TailAction::Read)
            },
            (TailPhase::Opening, _) => (Vec::new(), TailAction::Open),
            (TailPhase::Reading, _) => (Vec::new(), TailAction::Read),
            (TailPhase::Waiting, _) => (Vec::new(), TailAction::Sleep(POLL_MILLIS)),
        }
    }
}

/// The bytes held after splitting are never more than the bytes split.
pub proof fn lemma_split_reassembles_len(s: Seq<u8>)
    ensures
        split_lines(s).1.len() <= s.len(),
{
    lemma_split_reassembles(s);
    assert((join_lines(split_lines(s).0) + split_lines(s).1).len() == s.len());
}

} // verus!
