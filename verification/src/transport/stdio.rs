//! The stdio transport's rules: how newline-delimited messages are cut from the input,
//! with a bound on their size, and what is done with each line.

use vstd::prelude::*;

verus! {

/// The index of the first newline byte, or -1 when there is none.
pub open spec fn first_newline(s: Seq<u8>) -> int
    decreases s.len(),
{
    if s.len() == 0 {
        -1
    } else if s[0] == 10 {
        0
    } else {
        let rest = first_newline(s.drop_first());
        if rest < 0 {
            -1
        } else {
            rest + 1
        }
    }
}

/// How reading one line of a stream fails.
#[derive(Debug, Clone, Copy, PartialEq, Eq)]
pub enum LineError {
    /// The line is longer than the bound; it has been skipped through its newline.
    TooLong,
    /// The stream ended inside a line longer than the bound.
    UnterminatedTooLong,
}

/// What reading one line from the stream `input` yields, with the bound `max`: the
/// number of bytes taken (the newline included), or why the line is refused.
pub open spec fn line_result(input: Seq<u8>, max: int) -> Result<int, LineError> {
    let l = first_newline(input);
    if l >= 0 {
        if l <= max {
            Ok(l + 1)
        } else {
            Err(LineError::TooLong)
        }
    } else if input.len() <= max {
        Ok(input.len() as int)
    } else {
        Err(LineError::UnterminatedTooLong)
    }
}

/// How many bytes of the stream reading one line takes: through the first newline,
/// or all of it when there is none.
pub open spec fn line_consumed(input: Seq<u8>) -> int {
    let l = first_newline(input);
    if l >= 0 {
        l + 1
    } else {
        input.len() as int
    }
}

/// The line that reading yields: the bytes before the first newline, or all of them.
pub open spec fn line_content(input: Seq<u8>) -> Seq<u8> {
    let l = first_newline(input);
    if l >= 0 {
        input.take(l)
    } else {
        input
    }
}

/// `first_newline` finds the first newline.
pub proof fn lemma_first_newline(s: Seq<u8>)
    ensures
        -1 <= first_newline(s) < s.len(),
        first_newline(s) >= 0 ==> s[first_newline(s)] == 10,
        forall|j: int| 0 <= j < s.len() && (first_newline(s) < 0 || j < first_newline(s)) ==> s[j] != 10,
    decreases s.len(),
{
    if s.len() > 0 {
        lemma_first_newline(s.drop_first());
        assert forall|j: int| 1 <= j < s.len() implies s[j] == s.drop_first()[j - 1] by {}
    }
}

/// The first newline of `a + b` is that of `a`, or, when `a` has none, that of `b`
/// shifted by the length of `a`.
pub proof fn lemma_first_newline_concat(a: Seq<u8>, b: Seq<u8>)
    ensures
        first_newline(a) >= 0 ==> first_newline(a + b) == first_newline(a),
        first_newline(a) < 0 && first_newline(b) >= 0 ==> first_newline(a + b) == a.len() + first_newline(b),
        first_newline(a) < 0 && first_newline(b) < 0 ==> first_newline(a + b) < 0,
    decreases a.len(),
{
    if a.len() > 0 {
        lemma_first_newline_concat(a.drop_first(), b);
        assert((a + b).drop_first() =~= a.drop_first() + b);
    } else {
        assert(a + b =~= b);
    }
}

/// Once the part of the stream read so far holds a newline, what reading one line
/// yields no longer depends on what follows it.
pub proof fn lemma_line_fixed_by_newline(prefix: Seq<u8>, rest: Seq<u8>, max: int)
    requires
        first_newline(prefix) >= 0,
    ensures
        line_result(prefix + rest, max) == line_result(prefix, max),
        line_consumed(prefix + rest) == line_consumed(prefix),
        line_content(prefix + rest) == line_content(prefix),
{
    lemma_first_newline_concat(prefix, rest);
    lemma_first_newline(prefix);
    assert((prefix + rest).take(first_newline(prefix)) =~= prefix.take(first_newline(prefix)));
}

/// What a step of reading does after it has seen a chunk.
#[derive(Debug, Clone, Copy, PartialEq, Eq)]
pub enum LineStep {
    /// The line goes on: read the next chunk.
    Pending,
    /// The line is decided.
    Done(Result<usize, LineError>),
}

/// Reads one newline-delimited line of at most `max_size` bytes from a stream that
/// arrives in chunks of any size. The line's bytes, without the newline, are appended
/// to a buffer; a longer line is skipped through its newline and refused, and the
/// buffer never holds more than `max_size` bytes.
pub struct LineReader {
    max_size: usize,
    total: usize,
    discarding: bool,
    seen: Ghost<Seq<u8>>,
}

impl LineReader {
    /// The bound on a line's length.
    pub closed spec fn max(&self) -> int {
        self.max_size as int
    }

    /// The bytes of the stream this reader has consumed so far.
    pub closed spec fn consumed(&self) -> Seq<u8> {
        self.seen@
    }

    /// The reader is consistent with the buffer it appends to: the consumed bytes hold
    /// no newline, and either they are all in the buffer, within the bound, or they
    /// exceed the bound and are being skipped.
    pub closed spec fn inv(&self, buf: Seq<u8>) -> bool {
        &&& first_newline(self.seen@) < 0
        &&& self.max_size < usize::MAX
        &&& if self.discarding {
            &&& self.seen@.len() > self.max_size
            &&& buf.len() <= self.max_size
            &&& first_newline(buf) < 0
        } else {
            &&& self.total == self.seen@.len()
            &&& self.total <= self.max_size
            &&& buf == self.seen@
        }
    }

    /// A reader at the start of a line; the buffer is emptied.
    ///
    /// The bound is `max_size`, except that `usize::MAX` stands for `usize::MAX - 1`:
    /// the count a line yields includes its newline and must fit in a `usize`, so a
    /// line is never longer than that anyway.
    pub fn new(max_size: usize, buf: &mut Vec<u8>) -> (r: Self)
        ensures
            final(buf)@.len() == 0,
            r.max() == (if max_size < usize::MAX { max_size as int } else { usize::MAX - 1 }),
            r.consumed().len() == 0,
            r.inv(final(buf)@),
    {
        buf.clear();
        let bound = if max_size < usize::MAX { max_size } else { max_size - 1 };
        LineReader { max_size: bound, total: 0, discarding: false, seen: Ghost(Seq::empty()) }
    }

    /// Takes in the next chunk of the stream (which is not empty). Returns how many
    /// of its bytes are consumed and whether the line is decided.
    ///
    /// While the line goes on, the whole chunk is consumed. Once it is decided, the
    /// outcome, the bytes consumed and the line in the buffer are those of reading one
    /// line from the stream, whatever follows and however it was cut into chunks.
    pub fn feed(&mut self, chunk: &[u8], buf: &mut Vec<u8>) -> (r: (usize, LineStep))
        requires
            old(self).inv(old(buf)@),
            chunk@.len() > 0,
        ensures
            0 < r.0 <= chunk@.len(),
            final(self).max() == old(self).max(),
            final(buf)@.len() <= old(self).max(),
            first_newline(final(buf)@) < 0,
            r.1 matches LineStep::Done(Err(_)) ==> final(buf)@ == old(buf)@,
            old(self).consumed().len() + chunk@.len() > old(self).max() && first_newline(
                old(self).consumed() + chunk@,
            ) < 0 ==> final(buf)@ == old(buf)@,
            r.1 is Pending <==> first_newline(old(self).consumed() + chunk@) < 0,
            r.1 is Pending ==> {
                &&& r.0 == chunk@.len()
                &&& final(self).consumed() == old(self).consumed() + chunk@
                &&& final(self).consumed().len() <= final(self).max() ==> final(buf)@
                    == final(self).consumed()
                &&& final(self).inv(final(buf)@)
            },
            r.1 matches LineStep::Done(res) ==> {
                let input = old(self).consumed() + chunk@;
                &&& first_newline(input) >= 0
                &&& line_consumed(input) == old(self).consumed().len() + r.0
                &&& match res {
                    Ok(n) => line_result(input, old(self).max()) == Ok::<int, LineError>(n as int)
                        && final(buf)@ == line_content(input),
                    Err(e) => line_result(input, old(self).max()) == Err::<int, LineError>(e),
                }
            },
    {
        let len = chunk.len();
        let ghost prefix = self.seen@;
        let mut nl: usize = 0;
        while nl < len && chunk[nl] != 10
            invariant
                len == chunk@.len(),
                nl <= len,
                forall|j: int| 0 <= j < nl ==> chunk@[j] != 10,
            decreases len - nl,
        {
            nl = nl + 1;
        }
        proof {
            lemma_first_newline(prefix);
            lemma_first_newline(chunk@);
            lemma_first_newline_concat(prefix, chunk@);
            if nl < len {
                assert(first_newline(chunk@) == nl as int) by {
                    if first_newline(chunk@) < 0 || first_newline(chunk@) > nl {
                        assert(chunk@[nl as int] == 10);
                    }
                }
            } else {
                assert(first_newline(chunk@) < 0) by {
                    if first_newline(chunk@) >= 0 {
                        assert(chunk@[first_newline(chunk@)] == 10);
                    }
                }
            }
        }
        let ghost input = prefix + chunk@;
        if self.discarding {
            if nl < len {
                return (nl + 1, LineStep::Done(Err(LineError::TooLong)));
            }
            self.seen = Ghost(input);
            return (len, LineStep::Pending);
        }
        if nl < len {
            if nl > self.max_size - self.total {
                return (nl + 1, LineStep::Done(Err(LineError::TooLong)));
            }
            let mut j: usize = 0;
            while j < nl
                invariant
                    j <= nl,
                    nl < len,
                    len == chunk@.len(),
                    buf@ == prefix + chunk@.take(j as int),
                decreases nl - j,
            {
                buf.push(chunk[j]);
                assert(chunk@.take(j + 1) == chunk@.take(j as int).push(chunk@[j as int]));
                j = j + 1;
            }
            assert(input.take(prefix.len() + nl) =~= prefix + chunk@.take(nl as int));
            proof {
                let head = chunk@.take(nl as int);
                lemma_first_newline(head);
                if first_newline(head) >= 0 {
                    assert(head[first_newline(head)] == chunk@[first_newline(head)]);
                }
                lemma_first_newline_concat(prefix, head);
            }
            return (nl + 1, LineStep::Done(Ok(self.total + nl + 1)));
        }
        if len > self.max_size - self.total {
            self.discarding = true;
            self.seen = Ghost(input);
            return (len, LineStep::Pending);
        }
        let mut j: usize = 0;
        while j < len
            invariant
                j <= len,
                len == chunk@.len(),
                buf@ == prefix + chunk@.take(j as int),
            decreases len - j,
        {
            buf.push(chunk[j]);
            assert(chunk@.take(j + 1) == chunk@.take(j as int).push(chunk@[j as int]));
            j = j + 1;
        }
        assert(chunk@.take(len as int) =~= chunk@);
        self.total = self.total + len;
        self.seen = Ghost(input);
        (len, LineStep::Pending)
    }

    /// In every state a line read can be in, from `new` through each `feed` that
    /// leaves the line pending, the buffer holds at most the bound and no newline (and
    /// `feed` and `finish` say the same of it once the line is decided), so a line
    /// longer than the bound never grows the buffer beyond it.
    pub proof fn lemma_buffer_bounded(&self, buf: Seq<u8>)
        requires
            self.inv(buf),
        ensures
            buf.len() <= self.max(),
            first_newline(buf) < 0,
    {
    }

    /// The outcome when the stream ends: the bytes read, or the refusal of a line that
    /// exceeded the bound without a newline.
    pub fn finish(&self, buf: &Vec<u8>) -> (r: Result<usize, LineError>)
        requires
            self.inv(buf@),
        ensures
            match r {
                Ok(n) => line_result(self.consumed(), self.max()) == Ok::<int, LineError>(n as int)
                    && buf@ == line_content(self.consumed()),
                Err(e) => line_result(self.consumed(), self.max()) == Err::<int, LineError>(e),
            },
            line_consumed(self.consumed()) == self.consumed().len(),
            buf@.len() <= self.max(),
            first_newline(buf@) < 0,
    {
        if self.discarding {
            Err(LineError::UnterminatedTooLong)
        } else {
            Ok(self.total)
        }
    }
}

} // verus!
