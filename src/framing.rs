//! Framing of the backend's output stream into newline-delimited messages.
use vstd::prelude::*;

verus! {

/// The line terminator of the wire protocol.
pub const NEWLINE: u8 = 10;

/// Bytes that framing treats as separator noise around a message: the ASCII
/// whitespace bytes (space, tab, line feed, vertical tab, form feed, carriage
/// return). Other Unicode whitespace is not trimmed; a line made of it reaches
/// the decoder, fails there, and is skipped as a line that does not decode.
pub open spec fn is_blank(b: u8) -> bool {
    b == 32 || (9 <= b && b <= 13)
}

/// `s` with its leading blank bytes removed.
pub open spec fn strip_start(s: Seq<u8>) -> Seq<u8>
    decreases s.len(),
{
    if s.len() > 0 && is_blank(s[0]) {
        strip_start(s.drop_first())
    } else {
        s
    }
}

/// `s` with its trailing blank bytes removed.
pub open spec fn strip_end(s: Seq<u8>) -> Seq<u8>
    decreases s.len(),
{
    if s.len() > 0 && is_blank(s.last()) {
        strip_end(s.drop_last())
    } else {
        s
    }
}

/// `s` with blank bytes removed from both ends.
pub open spec fn trimmed(s: Seq<u8>) -> Seq<u8> {
    strip_end(strip_start(s))
}

pub open spec fn all_blank(s: Seq<u8>) -> bool {
    forall|j: int| 0 <= j < s.len() ==> is_blank(#[trigger] s[j])
}

pub open spec fn has_newline(s: Seq<u8>) -> bool {
    exists|j: int| 0 <= j < s.len() && s[j] == NEWLINE
}

fn blank(b: u8) -> (r: bool)
    ensures
        r == is_blank(b),
{
    b == 32 || (9 <= b && b <= 13)
}

/// Copies `s[lo..hi]` with blank bytes removed from both ends.
pub fn trim_range(s: &Vec<u8>, lo: usize, hi: usize) -> (r: Vec<u8>)
    requires
        lo <= hi <= s@.len(),
    ensures
        r@ == trimmed(s@.subrange(lo as int, hi as int)),
        r@.len() == 0 <==> all_blank(s@.subrange(lo as int, hi as int)),
{
    let ghost t = s@.subrange(lo as int, hi as int);
    let mut i: usize = lo;
    while i < hi && blank(s[i])
        invariant
            lo <= i <= hi <= s@.len(),
            t == s@.subrange(lo as int, hi as int),
            strip_start(t) == strip_start(s@.subrange(i as int, hi as int)),
            forall|k: int| lo <= k < i ==> is_blank(#[trigger] s@[k]),
        decreases hi - i,
    {
        assert(s@.subrange(i as int, hi as int).drop_first() =~= s@.subrange(i + 1, hi as int));
        i = i + 1;
    }
    assert(strip_start(t) == s@.subrange(i as int, hi as int));
    let mut j: usize = hi;
    while j > i && blank(s[j - 1])
        invariant
            lo <= i <= j <= hi <= s@.len(),
            strip_start(t) == s@.subrange(i as int, hi as int),
            strip_end(s@.subrange(i as int, hi as int)) == strip_end(s@.subrange(i as int, j as int)),
            i < hi ==> !is_blank(s@[i as int]) && i < j,
        decreases j - i,
    {
        assert(s@.subrange(i as int, j as int).drop_last() =~= s@.subrange(i as int, j - 1));
        j = j - 1;
    }
    let mut r: Vec<u8> = Vec::new();
    let mut k: usize = i;
    while k < j
        invariant
            i <= k <= j <= s@.len(),
            r@ == s@.subrange(i as int, k as int),
        decreases j - k,
    {
        r.push(s[k]);
        assert(r@ =~= s@.subrange(i as int, k + 1));
        k = k + 1;
    }
    assert(r@ =~= s@.subrange(i as int, j as int));
    proof {
        if r@.len() == 0 {
            assert(i == j);
            assert(i == hi);
            assert forall|m: int| 0 <= m < t.len() implies is_blank(#[trigger] t[m]) by {
                assert(t[m] == s@[lo + m]);
            }
        } else {
            assert(!is_blank(s@[i as int]));
            assert(t[i - lo] == s@[i as int]);
        }
    }
    r
}

/// The partial-line buffer: bytes read from the backend that do not yet end
/// a line.
pub struct LineBuffer {
    buf: Vec<u8>,
}

impl View for LineBuffer {
    type V = Seq<u8>;

    closed spec fn view(&self) -> Seq<u8> {
        self.buf@
    }
}

impl LineBuffer {
    pub fn new() -> (r: LineBuffer)
        ensures
            r@ == Seq::<u8>::empty(),
    {
        LineBuffer { buf: Vec::new() }
    }

    /// Appends a chunk of output as it was read.
    pub fn push_chunk(&mut self, chunk: &[u8])
        ensures
            final(self)@ == old(self)@ + chunk@,
    {
        let mut i: usize = 0;
        while i < chunk.len()
            invariant
                i <= chunk@.len(),
                self@ == old(self)@ + chunk@.subrange(0, i as int),
            decreases chunk.len() - i,
        {
            self.buf.push(chunk[i]);
            assert(chunk@.subrange(0, i + 1) =~= chunk@.subrange(0, i as int).push(chunk@[i as int]));
            i = i + 1;
        }
        assert(chunk@.subrange(0, i as int) =~= chunk@);
    }

    /// Takes the first complete line out of the buffer, with its terminator
    /// dropped and blank bytes trimmed from both ends; `None` while no line is
    /// complete.
    pub fn next_line(&mut self) -> (r: Option<Vec<u8>>)
        ensures
            match r {
                None => !has_newline(old(self)@) && final(self)@ == old(self)@,
                Some(line) => {
                    let k = old(self)@.len() - final(self)@.len() - 1;
                    &&& 0 <= k < old(self)@.len()
                    &&& old(self)@[k] == NEWLINE
                    &&& forall|j: int| 0 <= j < k ==> old(self)@[j] != NEWLINE
                    &&& final(self)@ == old(self)@.skip(k + 1)
                    &&& line@ == trimmed(old(self)@.take(k))
                    &&& (line@.len() == 0 <==> all_blank(old(self)@.take(k)))
                },
            },
    {
        let n = self.buf.len();
        let mut k: usize = 0;
        while k < n && self.buf[k] != NEWLINE
            invariant
                k <= n == self.buf@.len(),
                self@ == old(self)@,
                forall|j: int| 0 <= j < k ==> self.buf@[j] != NEWLINE,
            decreases n - k,
        {
            k = k + 1;
        }
        if k == n {
            return None;
        }
        let line = trim_range(&self.buf, 0, k);
        let mut rest: Vec<u8> = Vec::new();
        let mut m: usize = k + 1;
        while m < n
            invariant
                k < m <= n == self.buf@.len(),
                self@ == old(self)@,
                rest@ == self.buf@.subrange(k + 1, m as int),
            decreases n - m,
        {
            rest.push(self.buf[m]);
            assert(rest@ =~= self.buf@.subrange(k + 1, m + 1));
            m = m + 1;
        }
        assert(rest@ =~= old(self)@.skip(k + 1));
        assert(self.buf@.subrange(0, k as int) =~= old(self)@.take(k as int));
        self.buf = rest;
        Some(line)
    }
    /// Takes the next message out of the buffer: the first complete line that
    /// is not blank, trimmed. Blank lines before it are consumed and dropped;
    /// `None` once no complete non-blank line remains, with every complete line
    /// consumed.
    pub fn next_message(&mut self) -> (r: Option<Vec<u8>>)
        ensures
            ({
                let c = old(self)@.len() - final(self)@.len();
                &&& 0 <= c <= old(self)@.len()
                &&& final(self)@ == old(self)@.skip(c)
                &&& match r {
                    None => !has_newline(final(self)@) && all_blank(old(self)@.take(c)),
                    Some(m) => {
                        &&& m@.len() > 0
                        &&& c > 0 && old(self)@[c - 1] == NEWLINE
                        &&& exists|p: int|
                            {
                                &&& 0 <= p < c
                                &&& (p == 0 || old(self)@[p - 1] == NEWLINE)
                                &&& all_blank(#[trigger] old(self)@.take(p))
                                &&& forall|j: int| p <= j < c - 1 ==> old(self)@[j] != NEWLINE
                                &&& m@ == trimmed(old(self)@.subrange(p, c - 1))
                            }
                    },
                }
            }),
    {
        let ghost start = self@;
        let ghost mut c: int = 0;
        loop
            invariant
                0 <= c <= start.len(),
                self@ == start.skip(c),
                all_blank(start.take(c)),
                c == 0 || start[c - 1] == NEWLINE,
                start == old(self)@,
            decreases self@.len(),
        {
            let ghost before = self@;
            match self.next_line() {
                None => {
                    return None;
                },
                Some(line) => {
                    let ghost k = before.len() - self@.len() - 1;
                    proof {
                        assert(before.take(k) =~= start.subrange(c, c + k));
                        assert(self@ =~= start.skip(c + k + 1));
                    }
                    if line.len() > 0 {
                        proof {
                            assert forall|j: int| c <= j < c + k implies start[j] != NEWLINE by {
                                assert(before[j - c] == start[j]);
                            }
                        }
                        return Some(line);
                    }
                    proof {
                        assert forall|j: int| 0 <= j < c + k + 1 implies is_blank(
                            #[trigger] start.take(c + k + 1)[j],
                        ) by {
                            if j < c {
                                assert(start.take(c)[j] == start[j]);
                            } else if j < c + k {
                                assert(before.take(k)[j - c] == start[j]);
                            } else {
                                assert(start[j] == before[k]);
                            }
                        }
                        c = c + k + 1;
                    }
                },
            }
        }
    }
}

/// Framing does not look into a line: whatever bytes `bad` holds, the line it
/// forms ends at its own terminator, and what follows is framed as if `bad`
/// had not been there.
pub proof fn lemma_line_isolated(bad: Seq<u8>, rest: Seq<u8>)
    requires
        !has_newline(bad),
    ensures
        ({
            let s = bad.push(NEWLINE) + rest;
            &&& s[bad.len() as int] == NEWLINE
            &&& forall|j: int| 0 <= j < bad.len() ==> s[j] != NEWLINE
            &&& s.take(bad.len() as int) == bad
            &&& s.skip(bad.len() as int + 1) == rest
        }),
{
    let s = bad.push(NEWLINE) + rest;
    assert forall|j: int| 0 <= j < bad.len() implies s[j] != NEWLINE by {
        assert(s[j] == bad[j]);
    }
    assert(s.take(bad.len() as int) =~= bad);
    assert(s.skip(bad.len() as int + 1) =~= rest);
}

} // verus!
