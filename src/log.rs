use vstd::prelude::*;
use vstd::string::StringSliceAdditionalSpecFns;

verus! {

/// The byte that ends a line.
pub const NEWLINE: u8 = 10;

/// The byte that a line may carry before its terminator (`\r\n` endings).
pub const CARRIAGE_RETURN: u8 = 13;

/// The bytes after the last line terminator of `s`: a line still being written.
pub open spec fn tail(s: Seq<u8>) -> Seq<u8>
    decreases s.len(),
{
    if s.len() == 0 {
        Seq::empty()
    } else if s.last() == NEWLINE {
        Seq::empty()
    } else {
        tail(s.drop_last()).push(s.last())
    }
}

/// The complete lines of `s`, each without its terminator, in order; the
/// unterminated tail is not a line yet.
pub open spec fn lines(s: Seq<u8>) -> Seq<Seq<u8>>
    decreases s.len(),
{
    if s.len() == 0 {
        Seq::empty()
    } else if s.last() == NEWLINE {
        lines(s.drop_last()).push(tail(s.drop_last()))
    } else {
        lines(s.drop_last())
    }
}

/// The bytes of `ls`, each line followed by a terminator.
pub open spec fn join_lines(ls: Seq<Seq<u8>>) -> Seq<u8>
    decreases ls.len(),
{
    if ls.len() == 0 {
        Seq::empty()
    } else {
        join_lines(ls.drop_last()) + ls.last().push(NEWLINE)
    }
}

/// The length of the part of `s` that ends at its last terminator.
pub open spec fn boundary(s: Seq<u8>) -> int {
    s.len() - tail(s).len()
}

/// A line as an observer receives it: without a trailing carriage return.
pub open spec fn trim_cr(l: Seq<u8>) -> Seq<u8> {
    if l.len() > 0 && l.last() == CARRIAGE_RETURN {
        l.drop_last()
    } else {
        l
    }
}

/// The events that lines give an observer: one for each line, trimmed, in order.
pub open spec fn events(ls: Seq<Seq<u8>>) -> Seq<Seq<u8>> {
    ls.map_values(|l: Seq<u8>| trim_cr(l))
}

/// What an observer of a log holding `s` has been handed in all.
pub open spec fn observed(s: Seq<u8>) -> Seq<Seq<u8>> {
    events(lines(s))
}

pub open spec fn no_newline(l: Seq<u8>) -> bool {
    forall|i: int| 0 <= i < l.len() ==> l[i] != NEWLINE
}

proof fn lemma_tail_len(s: Seq<u8>)
    ensures
        tail(s).len() <= s.len(),
        tail(s) == s.subrange(boundary(s), s.len() as int),
        no_newline(tail(s)),
        boundary(s) == 0 || s[boundary(s) - 1] == NEWLINE,
    decreases s.len(),
{
    if s.len() > 0 && s.last() != NEWLINE {
        lemma_tail_len(s.drop_last());
        assert(tail(s) =~= s.subrange(boundary(s), s.len() as int));
    }
}

/// A line without a terminator is all tail.
proof fn lemma_no_newline(l: Seq<u8>)
    requires
        no_newline(l),
    ensures
        lines(l) == Seq::<Seq<u8>>::empty(),
        tail(l) == l,
    decreases l.len(),
{
    if l.len() > 0 {
        lemma_no_newline(l.drop_last());
        assert(tail(l) =~= l);
    }
}

/// After a terminated prefix the tail starts afresh.
proof fn lemma_tail_concat(a: Seq<u8>, b: Seq<u8>)
    requires
        tail(a).len() == 0,
    ensures
        tail(a + b) == tail(b),
    decreases b.len(),
{
    if b.len() == 0 {
        assert(a + b =~= a);
    } else {
        assert((a + b).drop_last() =~= a + b.drop_last());
        lemma_tail_concat(a, b.drop_last());
    }
}

/// Lines split across a terminated prefix.
pub proof fn lemma_lines_concat(a: Seq<u8>, b: Seq<u8>)
    requires
        tail(a).len() == 0,
    ensures
        lines(a + b) == lines(a) + lines(b),
    decreases b.len(),
{
    if b.len() == 0 {
        assert(a + b =~= a);
        assert(lines(a) + lines(b) =~= lines(a));
    } else {
        assert((a + b).drop_last() =~= a + b.drop_last());
        lemma_lines_concat(a, b.drop_last());
        lemma_tail_concat(a, b.drop_last());
        if b.last() == NEWLINE {
            assert(lines(a + b) =~= lines(a) + lines(b));
        } else {
            assert(lines(a + b) =~= lines(a) + lines(b));
        }
    }
}

/// The part of `s` up to its last terminator holds all of its lines.
proof fn lemma_boundary_prefix(s: Seq<u8>)
    ensures
        tail(s.subrange(0, boundary(s))).len() == 0,
        lines(s.subrange(0, boundary(s))) == lines(s),
    decreases s.len(),
{
    lemma_tail_len(s);
    if s.len() > 0 {
        if s.last() == NEWLINE {
            assert(s.subrange(0, boundary(s)) =~= s);
        } else {
            lemma_boundary_prefix(s.drop_last());
            lemma_tail_len(s.drop_last());
            assert(s.subrange(0, boundary(s)) =~= s.drop_last().subrange(
                0,
                boundary(s.drop_last()),
            ));
        }
    }
}

proof fn lemma_events_concat(a: Seq<Seq<u8>>, b: Seq<Seq<u8>>)
    ensures
        events(a + b) == events(a) + events(b),
{
    assert(events(a + b) =~= events(a) + events(b));
}

/// Reading back what was appended: the bytes of `n` appended lines, none of which
/// holds a terminator, split into exactly those `n` lines, in order, each once.
pub proof fn law_round_trip(ls: Seq<Seq<u8>>)
    requires
        forall|i: int| 0 <= i < ls.len() ==> no_newline(#[trigger] ls[i]),
    ensures
        lines(join_lines(ls)) == ls,
        tail(join_lines(ls)).len() == 0,
    decreases ls.len(),
{
    if ls.len() > 0 {
        let init = ls.drop_last();
        let l = ls.last();
        law_round_trip(init);
        assert(no_newline(ls[ls.len() - 1]));
        lemma_no_newline(l);
        lemma_lines_concat(join_lines(init), l.push(NEWLINE));
        assert(l.push(NEWLINE).drop_last() =~= l);
        lemma_tail_concat(join_lines(init), l.push(NEWLINE));
        assert(ls =~= init.push(l));
    }
}

/// The round trip as an observer sees it: a tailer that starts at the beginning
/// of a log made of `n` appended lines, none of which holds a terminator or ends
/// in a carriage return, is handed exactly those `n` lines, in order, each once.
pub proof fn law_tailer_round_trip(ls: Seq<Seq<u8>>)
    requires
        forall|i: int| 0 <= i < ls.len() ==> no_newline(#[trigger] ls[i]),
        forall|i: int|
            0 <= i < ls.len() ==> #[trigger] ls[i].len() == 0 || ls[i].last() != CARRIAGE_RETURN,
    ensures
        observed(join_lines(ls)) == ls,
{
    law_round_trip(ls);
    assert(events(ls) =~= ls);
}

/// A tailer that polled the log when it held `s1` and polls again when it holds
/// `s2` (the log only grows) is handed, at the second poll, exactly what it lacked:
/// its two hand-outs together are what a tailer polling once at `s2` gets, with no
/// line lost, repeated or reordered.
pub proof fn law_polls_concatenate(s1: Seq<u8>, s2: Seq<u8>)
    requires
        s1.is_prefix_of(s2),
    ensures
        observed(s1) + events(lines(s2.subrange(boundary(s1), s2.len() as int))) == observed(
            s2,
        ),
{
    let c = boundary(s1);
    lemma_tail_len(s1);
    lemma_boundary_prefix(s1);
    let p = s1.subrange(0, c);
    let rest = s2.subrange(c, s2.len() as int);
    assert(s2 =~= p + rest);
    lemma_lines_concat(p, rest);
    lemma_events_concat(lines(p), lines(rest));
}

/// Two tailers of one log agree: what one was handed when the log held `s1` is a
/// prefix of what another was handed when it held `s2`, for any later `s2`.
pub proof fn law_tailers_agree(s1: Seq<u8>, s2: Seq<u8>)
    requires
        s1.is_prefix_of(s2),
    ensures
        observed(s1).is_prefix_of(observed(s2)),
{
    law_polls_concatenate(s1, s2);
}

/// An append-only log of bytes: one writer appends whole lines, any number of
/// readers read from an offset.
pub struct LogSink {
    data: Vec<u8>,
}

impl View for LogSink {
    type V = Seq<u8>;

    closed spec fn view(&self) -> Seq<u8> {
        self.data@
    }
}

impl LogSink {
    pub fn new() -> (r: LogSink)
        ensures
            r@ == Seq::<u8>::empty(),
    {
        LogSink { data: Vec::new() }
    }

    pub fn len(&self) -> (r: usize)
        ensures
            r == self@.len(),
    {
        self.data.len()
    }

    /// Appends `text` and a terminator; the bytes already there stay as they were.
    pub fn append_line(&mut self, text: &str)
        ensures
            final(self)@ == old(self)@ + text.spec_bytes().push(NEWLINE),
    {
        let bytes = text.as_bytes();
        let ghost start = self.data@;
        let mut i: usize = 0;
        while i < bytes.len()
            invariant
                i <= bytes@.len(),
                bytes@ == text.spec_bytes(),
                self.data@ == start + bytes@.subrange(0, i as int),
            decreases bytes@.len() - i,
        {
            self.data.push(bytes[i]);
            i = i + 1;
            assert(self.data@ =~= start + bytes@.subrange(0, i as int));
        }
        self.data.push(NEWLINE);
        assert(bytes@.subrange(0, i as int) =~= bytes@);
    }

    /// The bytes from `offset` on and the offset at which the next read starts.
    /// An offset past the end reads nothing.
    pub fn read_from(&self, offset: usize) -> (r: (Vec<u8>, usize))
        ensures
            r.1 == self@.len(),
            offset <= self@.len() ==> r.0@ == self@.subrange(offset as int, self@.len() as int),
            offset > self@.len() ==> r.0@.len() == 0,
    {
        let n = self.data.len();
        let mut out: Vec<u8> = Vec::new();
        if offset >= n {
            return (out, n);
        }
        let mut i: usize = offset;
        while i < n
            invariant
                n == self@.len(),
                offset <= i <= n,
                out@ == self@.subrange(offset as int, i as int),
            decreases n - i,
        {
            out.push(self.data[i]);
            i = i + 1;
            assert(out@ =~= self@.subrange(offset as int, i as int));
        }
        (out, n)
    }
}

/// The bytes of `v` from `from` up to `to`.
fn copy_range(v: &Vec<u8>, from: usize, to: usize) -> (r: Vec<u8>)
    requires
        from <= to <= v@.len(),
    ensures
        r@ == v@.subrange(from as int, to as int),
{
    let mut out: Vec<u8> = Vec::new();
    let mut i: usize = from;
    while i < to
        invariant
            from <= i <= to <= v@.len(),
            out@ == v@.subrange(from as int, i as int),
        decreases to - i,
    {
        out.push(v[i]);
        i = i + 1;
        assert(out@ =~= v@.subrange(from as int, i as int));
    }
    out
}

/// One observer's read cursor into a log: polled repeatedly, it hands out each
/// complete line once, and holds a partial last line back until its terminator
/// has been appended.
pub struct Tailer {
    cursor: usize,
}

impl Tailer {
    /// The offset up to which lines have been handed out.
    pub closed spec fn offset(&self) -> nat {
        self.cursor as nat
    }

    pub fn new() -> (r: Tailer)
        ensures
            r.offset() == 0,
    {
        Tailer { cursor: 0 }
    }

    pub fn position(&self) -> (r: usize)
        ensures
            r == self.offset(),
    {
        self.cursor
    }

    /// The events of the lines completed since the last poll, in order; the
    /// cursor moves past them and no further.
    pub fn poll(&mut self, sink: &LogSink) -> (r: Vec<Vec<u8>>)
        ensures
            old(self).offset() <= sink@.len() ==> {
                let rest = sink@.subrange(old(self).offset() as int, sink@.len() as int);
                &&& final(self).offset() == old(self).offset() + boundary(rest)
                &&& r.deep_view() == events(lines(rest))
            },
            old(self).offset() > sink@.len() ==> final(self).offset() == old(self).offset()
                && r@.len() == 0,
    {
        let n = sink.data.len();
        let c = self.cursor;
        let mut out: Vec<Vec<u8>> = Vec::new();
        if c > n {
            return out;
        }
        let mut mark: usize = c;
        let mut i: usize = c;
        while i < n
            invariant
                n == sink@.len(),
                c <= mark <= i <= n,
                c == old(self).offset(),
                ({
                    let seg = sink@.subrange(c as int, i as int);
                    &&& out.deep_view() == events(lines(seg))
                    &&& tail(seg) == sink@.subrange(mark as int, i as int)
                }),
            decreases n - i,
        {
            let ghost seg = sink@.subrange(c as int, i as int);
            let ghost seg2 = sink@.subrange(c as int, i + 1);
            assert(seg2.drop_last() =~= seg);
            let b = sink.data[i];
            if b == NEWLINE {
                let mut end = i;
                if end > mark && sink.data[end - 1] == CARRIAGE_RETURN {
                    end = end - 1;
                }
                let line = copy_range(&sink.data, mark, end);
                assert(line@ =~= trim_cr(tail(seg)));
                assert(lines(seg2) == lines(seg).push(tail(seg)));
                assert(events(lines(seg2)) =~= events(lines(seg)).push(trim_cr(tail(seg))));
                let ghost before = out.deep_view();
                let ghost prev = out@;
                assert(line.deep_view() =~= line@);
                out.push(line);
                assert(out@ == prev.push(line));
                assert(out.deep_view() =~= before.push(line@));
                mark = i + 1;
                assert(tail(seg2) =~= sink@.subrange(mark as int, i + 1));
            } else {
                assert(tail(seg2) =~= sink@.subrange(mark as int, i + 1));
            }
            i = i + 1;
        }
        proof {
            let rest = sink@.subrange(c as int, n as int);
            lemma_tail_len(rest);
        }
        self.cursor = mark;
        out
    }
}

} // verus!
