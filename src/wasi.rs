use vstd::prelude::*;

use crate::LogLevel;

verus! {

/// The byte that ends a line of console output.
pub const NEWLINE: u8 = 10;

/// All of the buffers, one after another.
pub open spec fn flatten(bufs: Seq<Seq<u8>>) -> Seq<u8>
    decreases bufs.len(),
{
    if bufs.len() == 0 {
        Seq::empty()
    } else {
        flatten(bufs.drop_last()) + bufs.last()
    }
}

/// What follows the last newline of `s` (all of `s` if it holds none).
pub open spec fn unterminated_tail(s: Seq<u8>) -> Seq<u8>
    decreases s.len(),
{
    if s.len() == 0 {
        Seq::empty()
    } else if s.last() == NEWLINE {
        Seq::empty()
    } else {
        unterminated_tail(s.drop_last()).push(s.last())
    }
}

/// The newline-terminated lines of `s`, in order and without their newlines.
pub open spec fn complete_lines(s: Seq<u8>) -> Seq<Seq<u8>>
    decreases s.len(),
{
    if s.len() == 0 {
        Seq::empty()
    } else if s.last() == NEWLINE {
        complete_lines(s.drop_last()).push(unterminated_tail(s.drop_last()))
    } else {
        complete_lines(s.drop_last())
    }
}

/// The tail after the last newline holds no newline.
pub proof fn lemma_tail_has_no_newline(s: Seq<u8>)
    ensures
        !unterminated_tail(s).contains(NEWLINE),
    decreases s.len(),
{
    if s.len() > 0 && s.last() != NEWLINE {
        lemma_tail_has_no_newline(s.drop_last());
        assert(unterminated_tail(s) == unterminated_tail(s.drop_last()).push(s.last()));
        if unterminated_tail(s).contains(NEWLINE) {
            let i = choose|i: int|
                0 <= i < unterminated_tail(s).len() && unterminated_tail(s)[i] == NEWLINE;
            if i < unterminated_tail(s.drop_last()).len() {
                assert(unterminated_tail(s.drop_last()).contains(NEWLINE));
            }
        }
    }
}

/// Output with no newline is one unfinished line.
pub proof fn lemma_no_newline(s: Seq<u8>)
    requires
        !s.contains(NEWLINE),
    ensures
        complete_lines(s) == Seq::<Seq<u8>>::empty(),
        unterminated_tail(s) == s,
    decreases s.len(),
{
    if s.len() > 0 {
        assert(s.last() == s[s.len() - 1]);
        if s.drop_last().contains(NEWLINE) {
            let i = choose|i: int| 0 <= i < s.drop_last().len() && s.drop_last()[i] == NEWLINE;
            assert(s[i] == NEWLINE);
        }
        lemma_no_newline(s.drop_last());
        assert(s.drop_last().push(s.last()) =~= s);
    }
}

/// The log severity of a standard stream: informational for standard output
/// (1), error for standard error (2). Other descriptors have none.
pub fn stream_log_level(fd: i32) -> (r: Option<LogLevel>)
    ensures
        fd == 1 ==> r == Some(LogLevel::Info),
        fd == 2 ==> r == Some(LogLevel::Error),
        fd != 1 && fd != 2 ==> r is None,
{
    if fd == 1 {
        Some(LogLevel::Info)
    } else if fd == 2 {
        Some(LogLevel::Error)
    } else {
        None
    }
}

/// Collects console output into lines. Bytes after the last newline wait in
/// the buffer until a later write completes their line.
pub struct ConsoleBuffer {
    pending: Vec<u8>,
}

impl View for ConsoleBuffer {
    type V = Seq<u8>;

    /// The bytes of the unfinished line.
    closed spec fn view(&self) -> Seq<u8> {
        self.pending@
    }
}

impl ConsoleBuffer {
    /// The unfinished line never holds a newline.
    pub open spec fn wf(self) -> bool {
        !self@.contains(NEWLINE)
    }

    /// Creates a buffer with no pending output.
    pub fn new() -> (r: ConsoleBuffer)
        ensures
            r.wf(),
            r@ == Seq::<u8>::empty(),
    {
        let pending: Vec<u8> = Vec::new();
        assert(!pending@.contains(NEWLINE));
        ConsoleBuffer { pending }
    }

    /// Writes the given buffers, in order, and returns the lines that they
    /// complete together with the number of bytes written. The pending bytes
    /// begin the first completed line; what follows the last newline stays
    /// pending.
    pub fn write(&mut self, bufs: &Vec<Vec<u8>>) -> (r: (Vec<Vec<u8>>, usize))
        requires
            old(self).wf(),
            flatten(bufs.deep_view()).len() <= usize::MAX,
        ensures
            final(self).wf(),
            r.0.deep_view() == complete_lines(old(self)@ + flatten(bufs.deep_view())),
            final(self)@ == unterminated_tail(old(self)@ + flatten(bufs.deep_view())),
            r.1 == flatten(bufs.deep_view()).len(),
    {
        let ghost start = self.pending@;
        let ghost all = bufs.deep_view();
        let mut lines: Vec<Vec<u8>> = Vec::new();
        let mut written: usize = 0;
        let mut i: usize = 0;
        proof {
            lemma_no_newline(start);
            assert(all.subrange(0, 0) =~= Seq::<Seq<u8>>::empty());
            assert(start + flatten(all.subrange(0, 0)) =~= start);
        }
        while i < bufs.len()
            invariant
                0 <= i <= bufs.len(),
                all == bufs.deep_view(),
                flatten(all).len() <= usize::MAX,
                lines.deep_view() == complete_lines(start + flatten(all.subrange(0, i as int))),
                self.pending@ == unterminated_tail(start + flatten(all.subrange(0, i as int))),
                written == flatten(all.subrange(0, i as int)).len(),
            decreases bufs.len() - i,
        {
            let buf: &Vec<u8> = &bufs[i];
            let ghost before = start + flatten(all.subrange(0, i as int));
            proof {
                assert(buf.deep_view() =~= buf@);
                lemma_flatten_prefix_grows(all, i as int);
                lemma_flatten_prefix_len(all, i as int + 1);
            }
            let mut j: usize = 0;
            while j < buf.len()
                invariant
                    0 <= j <= buf.len(),
                    0 <= i < all.len(),
                    buf@ == all[i as int],
                    lines.deep_view() == complete_lines(before + buf@.subrange(0, j as int)),
                    self.pending@ == unterminated_tail(before + buf@.subrange(0, j as int)),
                decreases buf.len() - j,
            {
                let b = buf[j];
                let ghost prefix = before + buf@.subrange(0, j as int);
                assert(before + buf@.subrange(0, j as int + 1) =~= prefix.push(b));
                assert(prefix.push(b).drop_last() =~= prefix);
                if b == NEWLINE {
                    let ghost lines_before = lines.deep_view();
                    let ghost pending_before = self.pending@;
                    let line = self.pending.split_off(0);
                    assert(line@ =~= pending_before);
                    assert(self.pending@ =~= Seq::<u8>::empty());
                    assert(line.deep_view() =~= line@);
                    lines.push(line);
                    assert(lines.deep_view() =~= lines_before.push(line@));
                } else {
                    self.pending.push(b);
                    assert(prefix.push(b).last() == b);
                }
                j = j + 1;
            }
            assert(buf@.subrange(0, buf@.len() as int) =~= buf@);
            assert(start + flatten(all.subrange(0, i as int + 1)) =~= before + buf@);
            written = written + buf.len();
            i = i + 1;
        }
        assert(all.subrange(0, all.len() as int) =~= all);
        proof {
            lemma_tail_has_no_newline(start + flatten(all));
        }
        (lines, written)
    }
}

/// One more buffer extends the flattened prefix by that buffer.
proof fn lemma_flatten_prefix_grows(all: Seq<Seq<u8>>, i: int)
    requires
        0 <= i < all.len(),
    ensures
        flatten(all.subrange(0, i + 1)) == flatten(all.subrange(0, i)) + all[i],
{
    assert(all.subrange(0, i + 1).drop_last() =~= all.subrange(0, i));
}

/// A flattened prefix is no longer than the whole.
proof fn lemma_flatten_prefix_len(all: Seq<Seq<u8>>, i: int)
    requires
        0 <= i <= all.len(),
    ensures
        flatten(all.subrange(0, i)).len() <= flatten(all).len(),
    decreases all.len() - i,
{
    if i < all.len() {
        lemma_flatten_prefix_grows(all, i);
        lemma_flatten_prefix_len(all, i + 1);
    } else {
        assert(all.subrange(0, i) =~= all);
    }
}

/// Reports the number and total size of the environment variables: there are none.
pub fn environ_sizes_get() -> (r: (usize, usize))
    ensures
        r == (0usize, 0usize),
{
    (0, 0)
}

/// Temporarily yields execution of the calling thread: always succeeds at once.
pub fn sched_yield() -> (r: i32)
    ensures
        r == 0,
{
    0
}

/// Fills a buffer for a request for random data. The host offers no source
/// of entropy, so the bytes are all zero: not suitable where randomness matters.
pub fn random_get(buf: &mut Vec<u8>) -> (r: i32)
    ensures
        r == 0,
        final(buf)@.len() == old(buf)@.len(),
        forall|i: int| 0 <= i < final(buf)@.len() ==> #[trigger] final(buf)@[i] == 0,
{
    let mut i: usize = 0;
    while i < buf.len()
        invariant
            0 <= i <= buf.len(),
            buf@.len() == old(buf)@.len(),
            forall|k: int| 0 <= k < i ==> #[trigger] buf@[k] == 0,
        decreases buf.len() - i,
    {
        buf.set(i, 0);
        i = i + 1;
    }
    0
}

} // verus!
