use vstd::prelude::*;

verus! {

// ---------------------------------------------------------------------------
// Server-sent-event framing: `data:` lines accumulate, a blank line closes
// one event. Input arrives in arbitrary byte chunks; only complete lines are
// interpreted, the unfinished tail is kept.
// ---------------------------------------------------------------------------

/// The position of the first newline, if any.
pub open spec fn spec_first_nl(s: Seq<u8>) -> Option<int>
    decreases s.len(),
{
    if s.len() == 0 {
        None
    } else if s[0] == 10 {
        Some(0)
    } else {
        match spec_first_nl(s.skip(1)) {
            Some(i) => Some(i + 1),
            None => None,
        }
    }
}

pub proof fn lemma_first_nl_bounds(s: Seq<u8>)
    ensures
        spec_first_nl(s) matches Some(i) ==> 0 <= i < s.len() && s[i] == 10 && forall|j: int|
            0 <= j < i ==> s[j] != 10,
        spec_first_nl(s) is None ==> forall|j: int| 0 <= j < s.len() ==> s[j] != 10,
    decreases s.len(),
{
    if s.len() > 0 && s[0] != 10 {
        lemma_first_nl_bounds(s.skip(1));
        match spec_first_nl(s.skip(1)) {
            Some(k) => {
                assert(s.skip(1)[k] == s[k + 1]);
                assert forall|j: int| 0 <= j < k + 1 implies s[j] != 10 by {
                    if j > 0 {
                        assert(s.skip(1)[j - 1] == s[j]);
                    }
                }
            }
            None => {
                assert forall|j: int| 0 <= j < s.len() implies s[j] != 10 by {
                    if j > 0 {
                        assert(s.skip(1)[j - 1] == s[j]);
                    }
                }
            }
        }
    }
}

/// The complete lines of a byte stream, and the unfinished tail after the
/// last newline.
pub open spec fn spec_split_lines(s: Seq<u8>) -> (Seq<Seq<u8>>, Seq<u8>)
    decreases s.len() via spec_split_lines_decreases
{
    match spec_first_nl(s) {
        None => (Seq::empty(), s),
        Some(i) => {
            let (ls, rest) = spec_split_lines(s.skip(i + 1));
            (seq![s.take(i)] + ls, rest)
        },
    }
}

#[via_fn]
proof fn spec_split_lines_decreases(s: Seq<u8>) {
    lemma_first_nl_bounds(s);
}

/// Leading whitespace bytes are dropped from a data payload.
pub open spec fn spec_is_ws_byte(b: u8) -> bool {
    b == 32 || b == 9 || b == 13 || b == 10
}

pub open spec fn spec_trim_start_bytes(s: Seq<u8>) -> Seq<u8>
    decreases s.len(),
{
    if s.len() > 0 && spec_is_ws_byte(s[0]) {
        spec_trim_start_bytes(s.skip(1))
    } else {
        s
    }
}

/// What one complete line does to the pending data lines: a trailing
/// carriage return is dropped; a blank line closes the pending lines into
/// one event; a `data:` line files its payload; any other line is ignored.
pub open spec fn spec_sse_line(pending: Seq<Seq<u8>>, line: Seq<u8>) -> (
    Seq<Seq<u8>>,
    Option<Seq<u8>>,
) {
    let l = if line.len() > 0 && line.last() == 13 {
        line.take(line.len() - 1)
    } else {
        line
    };
    if l.len() == 0 {
        if pending.len() > 0 {
            (Seq::empty(), Some(spec_join_lines(pending)))
        } else {
            (pending, None)
        }
    } else if l.len() >= 5 && l.subrange(0, 5) == seq![100u8, 97u8, 116u8, 97u8, 58u8] {
        (pending.push(spec_trim_start_bytes(l.skip(5))), None)
    } else {
        (pending, None)
    }
}

/// Data lines joined with newlines into one event payload.
pub open spec fn spec_join_lines(ls: Seq<Seq<u8>>) -> Seq<u8>
    decreases ls.len(),
{
    if ls.len() == 0 {
        Seq::empty()
    } else if ls.len() == 1 {
        ls[0]
    } else {
        ls[0] + seq![10u8] + spec_join_lines(ls.skip(1))
    }
}

/// The pending lines and emitted events after a run of complete lines.
pub open spec fn spec_sse_fold(pending: Seq<Seq<u8>>, lines: Seq<Seq<u8>>) -> (
    Seq<Seq<u8>>,
    Seq<Seq<u8>>,
)
    decreases lines.len(),
{
    if lines.len() == 0 {
        (pending, Seq::empty())
    } else {
        let (p1, ev) = spec_sse_line(pending, lines[0]);
        let (p2, evs) = spec_sse_fold(p1, lines.skip(1));
        (
            p2,
            (match ev {
                Some(e) => seq![e],
                None => Seq::empty(),
            }) + evs,
        )
    }
}

/// Assembles complete events out of a stream of byte chunks.
#[derive(Debug)]
pub struct SseAccumulator {
    pub buffer: Vec<u8>,
    pub data_lines: Vec<Vec<u8>>,
}

fn find_nl(v: &Vec<u8>) -> (r: Option<usize>)
    ensures
        r matches Some(i) ==> spec_first_nl(v@) == Some(i as int) && i < v@.len(),
        r is None ==> spec_first_nl(v@) is None,
{
    let mut i: usize = 0;
    while i < v.len()
        invariant
            0 <= i <= v@.len(),
            forall|j: int| 0 <= j < i ==> v@[j] != 10,
        decreases v@.len() - i,
    {
        if v[i] == 10 {
            proof {
                lemma_first_nl_found(v@, i as int);
            }
            return Some(i);
        }
        i = i + 1;
    }
    proof {
        lemma_first_nl_none(v@, 0);
    }
    None
}

proof fn lemma_first_nl_found(s: Seq<u8>, i: int)
    requires
        0 <= i < s.len(),
        s[i] == 10,
        forall|j: int| 0 <= j < i ==> s[j] != 10,
    ensures
        spec_first_nl(s) == Some(i),
    decreases i,
{
    if i > 0 {
        assert(forall|j: int| 0 <= j < s.skip(1).len() ==> s.skip(1)[j] == s[j + 1]);
        lemma_first_nl_found(s.skip(1), i - 1);
    }
}

proof fn lemma_first_nl_none(s: Seq<u8>, k: int)
    requires
        0 <= k <= s.len(),
        forall|j: int| 0 <= j < s.len() ==> s[j] != 10,
    ensures
        spec_first_nl(s) is None,
    decreases s.len(),
{
    if s.len() > 0 {
        assert(forall|j: int| 0 <= j < s.skip(1).len() ==> s.skip(1)[j] == s[j + 1]);
        lemma_first_nl_none(s.skip(1), 0);
    }
}

fn slice_range(v: &Vec<u8>, from: usize, to: usize) -> (r: Vec<u8>)
    requires
        from <= to <= v@.len(),
    ensures
        r@ == v@.subrange(from as int, to as int),
{
    let mut out: Vec<u8> = Vec::new();
    let mut i: usize = from;
    while i < to
        invariant
            from <= i <= to,
            out@.len() == i - from,
            forall|j: int| 0 <= j < i - from ==> out@[j] == v@[from + j],
            to <= v@.len(),
        decreases to - i,
    {
        out.push(v[i]);
        i = i + 1;
    }
    proof {
        assert(out@ =~= v@.subrange(from as int, to as int));
    }
    out
}

#[verifier::loop_isolation(false)]
fn trim_start_bytes(v: Vec<u8>) -> (r: Vec<u8>)
    ensures
        r@ == spec_trim_start_bytes(v@),
{
    let mut start: usize = 0;
    proof {
        assert(v@.skip(0) =~= v@);
    }
    while start < v.len() && (v[start] == 32 || v[start] == 9 || v[start] == 13 || v[start] == 10)
        invariant
            0 <= start <= v@.len(),
            spec_trim_start_bytes(v@) == spec_trim_start_bytes(v@.skip(start as int)),
        decreases v@.len() - start,
    {
        proof {
            assert(v@.skip(start as int)[0] == v@[start as int]);
            assert(v@.skip(start as int).skip(1) =~= v@.skip(start as int + 1));
        }
        start = start + 1;
    }
    proof {
        if start < v.len() {
            assert(v@.skip(start as int)[0] == v@[start as int]);
        }
        assert(spec_trim_start_bytes(v@) == v@.skip(start as int));
    }
    let r = slice_range(&v, start, v.len());
    proof {
        assert(v@.subrange(start as int, v@.len() as int) =~= v@.skip(start as int));
    }
    r
}

#[verifier::loop_isolation(false)]
fn join_lines(ls: &Vec<Vec<u8>>) -> (r: Vec<u8>)
    ensures
        r@ == spec_join_lines(ls.deep_view()),
{
    let ghost lv = ls.deep_view();
    let mut out: Vec<u8> = Vec::new();
    if ls.len() == 0 {
        proof {
            assert(out@ =~= spec_join_lines(lv));
        }
        return out;
    }
    let mut i: usize = 0;
    while i < ls.len()
        invariant
            0 <= i <= ls@.len(),
            lv.len() == ls@.len(),
            forall|j: int| 0 <= j < ls@.len() ==> lv[j] == ls@[j]@,
            ls@.len() > 0,
            i > 0 ==> spec_join_lines(lv) == out@ + (if i < ls@.len() {
                seq![10u8] + spec_join_lines(lv.skip(i as int))
            } else {
                Seq::<u8>::empty()
            }),
            i == 0 ==> out@ == Seq::<u8>::empty(),
        decreases ls@.len() - i,
    {
        if i > 0 {
            out.push(10);
        }
        let ghost o0 = out@;
        let mut line = slice_range(&ls[i], 0, ls[i].len());
        let ghost linev = line@;
        out.append(&mut line);
        proof {
            assert(linev =~= lv[i as int]);
            lemma_join_step(lv, i as int);
        }
        i = i + 1;
    }
    proof {
        assert(spec_join_lines(lv) == out@ + Seq::<u8>::empty());
        assert(out@ + Seq::<u8>::empty() =~= out@);
    }
    out
}

/// Unrolls one step of the join.
proof fn lemma_join_step(lv: Seq<Seq<u8>>, i: int)
    requires
        0 <= i < lv.len(),
    ensures
        i + 1 < lv.len() ==> spec_join_lines(lv.skip(i)) == lv[i] + seq![10u8]
            + spec_join_lines(lv.skip(i + 1)),
        i + 1 == lv.len() ==> spec_join_lines(lv.skip(i)) == lv[i],
{
    assert(lv.skip(i)[0] == lv[i]);
    assert(lv.skip(i).skip(1) =~= lv.skip(i + 1));
    if i + 1 == lv.len() {
        assert(lv.skip(i).len() == 1);
    }
}

impl SseAccumulator {
    /// An accumulator with nothing buffered.
    pub fn new() -> (r: SseAccumulator)
        ensures
            r.buffer@ == Seq::<u8>::empty(),
            r.data_lines.deep_view() == Seq::<Seq<u8>>::empty(),
    {
        let r = SseAccumulator { buffer: Vec::new(), data_lines: Vec::new() };
        proof {
            assert(r.buffer@ =~= Seq::<u8>::empty());
            assert(r.data_lines.deep_view() =~= Seq::<Seq<u8>>::empty());
        }
        r
    }

    /// Feeds one chunk: every line completed by it is interpreted, and the
    /// events closed by blank lines come back, in order. The unfinished tail
    /// stays buffered and the data lines of unfinished events stay pending.
    #[verifier::loop_isolation(false)]
    #[verifier::rlimit(60)]
    pub fn push(&mut self, chunk: &[u8]) -> (events: Vec<Vec<u8>>)
        ensures
            ({
                let total = old(self).buffer@ + chunk@;
                let (lines, rest) = spec_split_lines(total);
                let (pf, evs) = spec_sse_fold(old(self).data_lines.deep_view(), lines);
                &&& final(self).buffer@ == rest
                &&& final(self).data_lines.deep_view() == pf
                &&& events.deep_view() == evs
            }),
    {
        self.buffer.extend_from_slice(chunk);
        let ghost total = self.buffer@;
        let ghost pending0 = self.data_lines.deep_view();
        let mut events: Vec<Vec<u8>> = Vec::new();
        proof {
            assert(old(self).buffer@ + chunk@ =~= total);
            assert(events.deep_view() =~= Seq::<Seq<u8>>::empty());
            assert(Seq::<Seq<u8>>::empty() + spec_sse_fold(
                pending0,
                spec_split_lines(total).0,
            ).1 =~= spec_sse_fold(pending0, spec_split_lines(total).0).1);
        }
        loop
            invariant
                ({
                    let (lines, rest) = spec_split_lines(total);
                    let (pf, evs) = spec_sse_fold(pending0, lines);
                    let (cur_lines, cur_rest) = spec_split_lines(self.buffer@);
                    let (cpf, cevs) = spec_sse_fold(self.data_lines.deep_view(), cur_lines);
                    &&& cur_rest == rest
                    &&& cpf == pf
                    &&& events.deep_view() + cevs == evs
                }),
            decreases self.buffer@.len(),
        {
            let pos = match find_nl(&self.buffer) {
                Some(p) => p,
                None => {
                    break ;
                }
            };
            proof {
                lemma_first_nl_bounds(self.buffer@);
                assert(pos < self.buffer@.len());
            }
            let buffer_len = self.buffer.len();
            let mut line = slice_range(&self.buffer, 0, pos);
            let new_buffer = slice_range(&self.buffer, pos + 1, buffer_len);
            let ghost b0 = self.buffer@;
            let ghost pending_before = self.data_lines.deep_view();
            let ghost events_before = events.deep_view();
            self.buffer = new_buffer;
            proof {
                assert(self.buffer@ =~= b0.skip(pos as int + 1));
                assert(line@ =~= b0.take(pos as int));
            }
            let ghost rawline = line@;
            if line.len() > 0 && line[line.len() - 1] == 13 {
                line.pop();
                proof {
                    assert(line@ =~= rawline.take(rawline.len() - 1));
                }
            }
            let ghost stripped = line@;
            if line.len() == 0 {
                if self.data_lines.len() > 0 {
                    let joined = join_lines(&self.data_lines);
                    let ghost joined_v = joined@;
                    events.push(joined);
                    self.data_lines.clear();
                    proof {
                        assert(joined_v == spec_join_lines(pending_before));
                        assert(self.data_lines.deep_view() =~= Seq::<Seq<u8>>::empty());
                        assert(events.deep_view() =~~= events_before.push(joined_v));
                    }
                }
            } else if line.len() >= 5 && line[0] == 100 && line[1] == 97 && line[2] == 116
                && line[3] == 97 && line[4] == 58 {
                let payload = slice_range(&line, 5, line.len());
                let ghost payload_v = payload@;
                let trimmed = trim_start_bytes(payload);
                let ghost trimmed_v = trimmed@;
                let ghost p0 = self.data_lines.deep_view();
                self.data_lines.push(trimmed);
                proof {
                    assert(stripped.subrange(0, 5) =~= seq![100u8, 97u8, 116u8, 97u8, 58u8]);
                    assert(stripped.subrange(5, stripped.len() as int) =~= stripped.skip(5));
                    assert(payload_v == stripped.skip(5));
                    assert(trimmed_v == spec_trim_start_bytes(stripped.skip(5)));
                    assert(self.data_lines.deep_view() =~~= p0.push(trimmed_v));
                }
            } else {
                proof {
                    if stripped.len() >= 5 {
                        assert(stripped.subrange(0, 5) == seq![100u8, 97u8, 116u8, 97u8, 58u8]
                            ==> stripped[0] == 100 && stripped[1] == 97 && stripped[2] == 116
                            && stripped[3] == 97 && stripped[4] == 58);
                    }
                }
            }
            proof {
                let b_lines = spec_split_lines(b0).0;
                assert(b_lines =~= seq![rawline] + spec_split_lines(
                    b0.skip(pos as int + 1),
                ).0);
                assert(b_lines[0] == rawline);
                assert(b_lines.skip(1) =~= spec_split_lines(self.buffer@).0);
                lemma_fold_step(pending_before, b_lines, rawline);
                let l = if rawline.len() > 0 && rawline.last() == 13 {
                    rawline.take(rawline.len() - 1)
                } else {
                    rawline
                };
                assert(l == stripped);
                if stripped.len() >= 5 {
                    assert(stripped.subrange(0, 5) == seq![100u8, 97u8, 116u8, 97u8, 58u8]
                        ==> stripped[0] == 100 && stripped[1] == 97 && stripped[2] == 116
                        && stripped[3] == 97 && stripped[4] == 58);
                }
                let p1 = spec_sse_line(pending_before, rawline).0;
                let ev = spec_sse_line(pending_before, rawline).1;
                assert(self.data_lines.deep_view() =~~= p1);
                assert(events.deep_view() =~~= events_before + (match ev {
                    Some(e) => seq![e],
                    None => Seq::<Seq<u8>>::empty(),
                }));
                assert(events.deep_view() + spec_sse_fold(
                    self.data_lines.deep_view(),
                    spec_split_lines(self.buffer@).0,
                ).1 =~~= events_before + spec_sse_fold(pending_before, b_lines).1);
            }
        }
        proof {
            assert(events.deep_view() + Seq::<Seq<u8>>::empty() =~= events.deep_view());
        }
        events
    }
}

/// Unrolls one step of the fold.
proof fn lemma_fold_step(pending: Seq<Seq<u8>>, lines: Seq<Seq<u8>>, first: Seq<u8>)
    requires
        lines.len() > 0,
        lines[0] == first,
    ensures
        ({
            let (p1, ev) = spec_sse_line(pending, first);
            let (p2, evs) = spec_sse_fold(p1, lines.skip(1));
            spec_sse_fold(pending, lines) == (
                p2,
                (match ev {
                    Some(e) => seq![e],
                    None => Seq::<Seq<u8>>::empty(),
                }) + evs,
            )
        }),
{
}

} // verus!
