//! The line framer: turns the raw lines read from the child's output into
//! complete JSON documents. A logical document may be split across several
//! physical lines, so incomplete text accumulates until it parses; the
//! accumulated size is bounded so a misbehaving child cannot exhaust memory.

use vstd::prelude::*;
use vstd::utf8::encode_utf8;

use crate::json::is_json_document;
use crate::json::json_parse_ok;
use crate::strutil::trim_str;
use crate::strutil::trimmed;

verus! {

/// The byte length of a character sequence in its UTF-8 encoding.
pub open spec fn byte_len(s: Seq<char>) -> nat {
    encode_utf8(s).len()
}

/// Relies on str::len: the length in bytes. A Rust string never holds more
/// than usize::MAX bytes, so the length is exact, not truncated.
#[verifier::external_body]
fn str_byte_len(s: &str) -> (r: usize)
    ensures
        r as nat == byte_len(s@),
{
    s.len()
}

/// What one fed line produced.
#[derive(Debug, PartialEq)]
pub enum FrameStep {
    /// The line was blank after trimming; nothing changed.
    Skipped,
    /// The accumulated text does not yet parse; keep reading.
    Incomplete,
    /// The accumulated text is one complete JSON document; the buffer is reset.
    Complete(String),
    /// The accumulated text exceeded the size limit: a fatal framing error,
    /// carrying the size reached; the buffer is discarded.
    Overflow { size: usize },
    /// The framer already reported an overflow; nothing more is accepted.
    Failed,
}

/// Accumulates trimmed lines until they form one parseable JSON document,
/// enforcing a maximum buffered size in bytes.
pub struct LineFramer {
    buffer: String,
    max_buffer_size: usize,
    failed: bool,
}

impl LineFramer {
    /// The text accumulated so far.
    pub closed spec fn buffered(&self) -> Seq<char> {
        self.buffer@
    }

    /// The configured size limit in bytes.
    pub closed spec fn limit(&self) -> nat {
        self.max_buffer_size as nat
    }

    /// Whether the framer has reported a fatal overflow.
    pub closed spec fn has_failed(&self) -> bool {
        self.failed
    }

    /// Create a framer with the given maximum buffered size in bytes.
    pub fn new(max_buffer_size: usize) -> (r: LineFramer)
        ensures
            r.buffered() == Seq::<char>::empty(),
            r.limit() == max_buffer_size as nat,
            !r.has_failed(),
    {
        LineFramer { buffer: String::new(), max_buffer_size, failed: false }
    }

    /// Whether the framer has reported a fatal overflow.
    pub fn failed(&self) -> (r: bool)
        ensures
            r == self.has_failed(),
    {
        self.failed
    }

    /// What feeding one line to a framer with buffer `buf` and limit `max`
    /// produces: nothing for a blank line, an overflow once the accumulated
    /// text is too large, the accumulated document once it parses, and
    /// otherwise a longer buffer.
    pub open spec fn feed_result(buf: Seq<char>, max: nat, line: Seq<char>) -> FramerOutcome {
        let t = trimmed(line);
        if t.len() == 0 {
            FramerOutcome::Skip
        } else {
            let nb = buf + t;
            if byte_len(nb) > max {
                FramerOutcome::Fatal
            } else if json_parse_ok(nb) {
                FramerOutcome::Document(nb)
            } else {
                FramerOutcome::Grow(nb)
            }
        }
    }

    /// Feed one physical line (without its newline). The step returned and
    /// the new state follow `feed_result` exactly; after a fatal overflow the
    /// framer stays failed and accepts nothing.
    pub fn feed_line(&mut self, line: &str) -> (step: FrameStep)
        ensures
            old(self).has_failed() ==> {
                &&& step == FrameStep::Failed
                &&& *final(self) == *old(self)
            },
            !old(self).has_failed() ==> {
                &&& final(self).limit() == old(self).limit()
                &&& match LineFramer::feed_result(old(self).buffered(), old(self).limit(), line@) {
                    FramerOutcome::Skip => {
                        &&& step == FrameStep::Skipped
                        &&& *final(self) == *old(self)
                    },
                    FramerOutcome::Fatal => {
                        &&& step matches FrameStep::Overflow { size }
                            && size as nat == byte_len(old(self).buffered() + trimmed(line@))
                        &&& final(self).buffered() == Seq::<char>::empty()
                        &&& final(self).has_failed()
                    },
                    FramerOutcome::Document(doc) => {
                        &&& step matches FrameStep::Complete(d) && d@ == doc
                        &&& final(self).buffered() == Seq::<char>::empty()
                        &&& !final(self).has_failed()
                    },
                    FramerOutcome::Grow(nb) => {
                        &&& step == FrameStep::Incomplete
                        &&& final(self).buffered() == nb
                        &&& !final(self).has_failed()
                    },
                }
            },
    {
        if self.failed {
            return FrameStep::Failed;
        }
        let t = trim_str(line);
        if t.as_str().unicode_len() == 0 {
            return FrameStep::Skipped;
        }
        self.buffer.append(t.as_str());
        let size = str_byte_len(self.buffer.as_str());
        if size > self.max_buffer_size {
            self.buffer = String::new();
            self.failed = true;
            return FrameStep::Overflow { size };
        }
        if is_json_document(self.buffer.as_str()) {
            let doc = self.buffer.clone();
            self.buffer = String::new();
            return FrameStep::Complete(doc);
        }
        FrameStep::Incomplete
    }
}

/// The abstract outcome of feeding one line.
pub enum FramerOutcome {
    Skip,
    Fatal,
    Document(Seq<char>),
    Grow(Seq<char>),
}


/// The state of an abstract framer run: the documents emitted, the
/// accumulated text, and whether a fatal overflow happened.
pub struct FramerRun {
    pub docs: Seq<Seq<char>>,
    pub buffer: Seq<char>,
    pub failed: bool,
}

/// Feed a whole sequence of lines, front to back, collecting the documents
/// that complete. A framer that has overflowed accepts nothing more.
pub open spec fn feed_all(buf: Seq<char>, max: nat, failed: bool, lines: Seq<Seq<char>>) -> FramerRun
    decreases lines.len(),
{
    if lines.len() == 0 {
        FramerRun { docs: Seq::empty(), buffer: buf, failed }
    } else if failed {
        feed_all(buf, max, true, lines.drop_first())
    } else {
        match LineFramer::feed_result(buf, max, lines[0]) {
            FramerOutcome::Skip => feed_all(buf, max, false, lines.drop_first()),
            FramerOutcome::Fatal => {
                let rest = feed_all(Seq::empty(), max, true, lines.drop_first());
                FramerRun { docs: rest.docs, buffer: rest.buffer, failed: true }
            },
            FramerOutcome::Document(doc) => {
                let rest = feed_all(Seq::empty(), max, false, lines.drop_first());
                FramerRun { docs: seq![doc] + rest.docs, buffer: rest.buffer, failed: rest.failed }
            },
            FramerOutcome::Grow(nb) => feed_all(nb, max, false, lines.drop_first()),
        }
    }
}

/// The concatenation of a sequence of pieces.
pub open spec fn concat_all(pieces: Seq<Seq<char>>) -> Seq<char>
    decreases pieces.len(),
{
    if pieces.len() == 0 {
        Seq::empty()
    } else {
        concat_all(pieces.drop_last()) + pieces.last()
    }
}

/// The concatenation read from the front.
proof fn lemma_concat_all_first(p: Seq<Seq<char>>)
    requires
        p.len() > 0,
    ensures
        concat_all(p) == p[0] + concat_all(p.drop_first()),
    decreases p.len(),
{
    if p.len() == 1 {
        assert(p.drop_last() =~= Seq::<Seq<char>>::empty());
        assert(p.drop_first() =~= Seq::<Seq<char>>::empty());
        assert(concat_all(p) == concat_all(p.drop_last()) + p.last());
        assert(Seq::<char>::empty() + p[0] =~= p[0]);
        assert(p[0] + Seq::<char>::empty() =~= p[0]);
    } else {
        lemma_concat_all_first(p.drop_last());
        assert(p.drop_last()[0] == p[0]);
        assert(p.drop_last().drop_first() =~= p.drop_first().drop_last());
        assert(p.drop_first().last() == p.last());
        assert(concat_all(p.drop_first()) == concat_all(p.drop_first().drop_last())
            + p.drop_first().last());
        assert((p[0] + concat_all(p.drop_first().drop_last())) + p.last() =~= p[0] + (concat_all(
            p.drop_first().drop_last(),
        ) + p.last()));
    }
}

/// UTF-8 encoding distributes over concatenation.
pub proof fn lemma_byte_len_concat(a: Seq<char>, b: Seq<char>)
    ensures
        encode_utf8(a + b) == encode_utf8(a) + encode_utf8(b),
        byte_len(a + b) == byte_len(a) + byte_len(b),
    decreases a.len(),
{
    if a.len() == 0 {
        assert(a + b =~= b);
        assert(encode_utf8(a) =~= Seq::<u8>::empty());
        assert(encode_utf8(a) + encode_utf8(b) =~= encode_utf8(b));
    } else {
        assert((a + b)[0] == a[0]);
        assert((a + b).drop_first() =~= a.drop_first() + b);
        lemma_byte_len_concat(a.drop_first(), b);
        assert(encode_utf8(a + b) == vstd::utf8::encode_scalar((a + b)[0] as u32) + encode_utf8(
            (a + b).drop_first(),
        ));
        assert((vstd::utf8::encode_scalar(a[0] as u32) + encode_utf8(a.drop_first())) + encode_utf8(
            b,
        ) =~= vstd::utf8::encode_scalar(a[0] as u32) + (encode_utf8(a.drop_first()) + encode_utf8(
            b,
        )));
    }
}

/// A framer that has overflowed emits nothing more, whatever else arrives.
pub proof fn lemma_failed_framer_emits_nothing(buf: Seq<char>, max: nat, lines: Seq<Seq<char>>)
    ensures
        feed_all(buf, max, true, lines).docs == Seq::<Seq<char>>::empty(),
        feed_all(buf, max, true, lines).failed,
        feed_all(buf, max, true, lines).buffer == buf,
    decreases lines.len(),
{
    if lines.len() > 0 {
        lemma_failed_framer_emits_nothing(buf, max, lines.drop_first());
    }
}

/// Overflow is fatal and leaves no partial value: a line whose accumulation
/// exceeds the limit produces exactly one fatal outcome, an empty buffer,
/// and no document, no matter what arrives afterwards.
pub proof fn lemma_overflow_is_fatal(
    buf: Seq<char>,
    max: nat,
    line: Seq<char>,
    rest: Seq<Seq<char>>,
)
    requires
        LineFramer::feed_result(buf, max, line) is Fatal,
    ensures
        feed_all(buf, max, false, seq![line] + rest).docs == Seq::<Seq<char>>::empty(),
        feed_all(buf, max, false, seq![line] + rest).buffer == Seq::<char>::empty(),
        feed_all(buf, max, false, seq![line] + rest).failed,
{
    let lines = seq![line] + rest;
    assert(lines[0] == line);
    assert(lines.drop_first() =~= rest);
    lemma_failed_framer_emits_nothing(Seq::empty(), max, rest);
}

/// Feeding the pieces of one document, none of whose intermediate
/// accumulations parses, emits exactly that document.
proof fn lemma_feed_pieces(max: nat, b: Seq<char>, pieces: Seq<Seq<char>>, doc: Seq<char>)
    requires
        pieces.len() > 0,
        forall|i: int|
            0 <= i < pieces.len() ==> trimmed(#[trigger] pieces[i]) == pieces[i] && pieces[i].len()
                > 0,
        b + concat_all(pieces) == doc,
        byte_len(doc) <= max,
        json_parse_ok(doc),
        forall|k: int|
            1 <= k < pieces.len() ==> !json_parse_ok(b + concat_all(#[trigger] pieces.subrange(0, k))),
    ensures
        feed_all(b, max, false, pieces) == (FramerRun {
            docs: seq![doc],
            buffer: Seq::<char>::empty(),
            failed: false,
        }),
    decreases pieces.len(),
{
    let first = pieces[0];
    let nb = b + first;
    lemma_concat_all_first(pieces);
    assert(doc == b + (first + concat_all(pieces.drop_first())));
    assert(b + (first + concat_all(pieces.drop_first())) =~= nb + concat_all(pieces.drop_first()));
    lemma_byte_len_concat(nb, concat_all(pieces.drop_first()));
    assert(byte_len(nb) <= byte_len(doc));
    assert(trimmed(first) == first);
    if pieces.len() == 1 {
        assert(pieces.drop_first() =~= Seq::<Seq<char>>::empty());
        assert(concat_all(pieces.drop_first()) == Seq::<char>::empty());
        assert(nb + Seq::<char>::empty() =~= nb);
        assert(nb == doc);
        assert(LineFramer::feed_result(b, max, first) == FramerOutcome::Document(doc));
        let rest = feed_all(Seq::<char>::empty(), max, false, pieces.drop_first());
        assert(rest.docs == Seq::<Seq<char>>::empty());
        assert(rest.buffer == Seq::<char>::empty());
        assert(!rest.failed);
        assert(feed_all(b, max, false, pieces).docs == seq![doc] + rest.docs);
        assert(seq![doc] + rest.docs =~= seq![doc]);
        assert(feed_all(b, max, false, pieces).buffer == rest.buffer);
        assert(feed_all(b, max, false, pieces).failed == rest.failed);
    } else {
        assert(pieces.subrange(0, 1) =~= seq![first]);
        assert(concat_all(seq![first]) == concat_all(seq![first].drop_last()) + first);
        assert(seq![first].drop_last() =~= Seq::<Seq<char>>::empty());
        assert(Seq::<char>::empty() + first =~= first);
        assert(!json_parse_ok(nb));
        assert(LineFramer::feed_result(b, max, first) == FramerOutcome::Grow(nb));
        let tail = pieces.drop_first();
        assert forall|k: int| 1 <= k < tail.len() implies !json_parse_ok(
            nb + concat_all(#[trigger] tail.subrange(0, k)),
        ) by {
            assert(pieces.subrange(0, k + 1)[0] == first);
            assert(pieces.subrange(0, k + 1).drop_first() =~= tail.subrange(0, k));
            lemma_concat_all_first(pieces.subrange(0, k + 1));
            assert(concat_all(pieces.subrange(0, k + 1)) == first + concat_all(
                tail.subrange(0, k),
            ));
            assert(b + (first + concat_all(tail.subrange(0, k))) =~= nb + concat_all(
                tail.subrange(0, k),
            ));
        }
        assert forall|i: int|
            0 <= i < tail.len() implies trimmed(#[trigger] tail[i]) == tail[i] && tail[i].len()
            > 0 by {
            assert(tail[i] == pieces[i + 1]);
        }
        lemma_feed_pieces(max, nb, tail, doc);
    }
}

/// Framing splits cleanly: feeding one JSON document cut into pieces, none
/// of whose intermediate accumulations already parses and none of which
/// carries whitespace at its edges, emits exactly the whole document once,
/// leaves the buffer empty, and reports no error — the same as feeding the
/// document whole.
pub proof fn lemma_split_framing(max: nat, pieces: Seq<Seq<char>>, doc: Seq<char>)
    requires
        pieces.len() > 0,
        forall|i: int|
            0 <= i < pieces.len() ==> trimmed(#[trigger] pieces[i]) == pieces[i] && pieces[i].len()
                > 0,
        concat_all(pieces) == doc,
        byte_len(doc) <= max,
        json_parse_ok(doc),
        forall|k: int|
            1 <= k < pieces.len() ==> !json_parse_ok(concat_all(#[trigger] pieces.subrange(0, k))),
    ensures
        feed_all(Seq::<char>::empty(), max, false, pieces) == (FramerRun {
            docs: seq![doc],
            buffer: Seq::<char>::empty(),
            failed: false,
        }),
        feed_all(Seq::<char>::empty(), max, false, seq![doc]) == (FramerRun {
            docs: seq![doc],
            buffer: Seq::<char>::empty(),
            failed: false,
        }),
{
    assert(Seq::<char>::empty() + concat_all(pieces) =~= concat_all(pieces));
    assert forall|k: int| 1 <= k < pieces.len() implies !json_parse_ok(
        Seq::<char>::empty() + concat_all(#[trigger] pieces.subrange(0, k)),
    ) by {
        assert(Seq::<char>::empty() + concat_all(pieces.subrange(0, k)) =~= concat_all(
            pieces.subrange(0, k),
        ));
    }
    lemma_feed_pieces(max, Seq::<char>::empty(), pieces, doc);
    let whole = seq![doc];
    assert(concat_all(whole) == concat_all(whole.drop_last()) + doc);
    assert(whole.drop_last() =~= Seq::<Seq<char>>::empty());
    assert(Seq::<char>::empty() + doc =~= doc);
    assert(concat_all(whole) == doc);
    assert(trimmed(doc) == doc) by {
        assert(pieces.subrange(0, pieces.len() as int) =~= pieces);
        lemma_trim_stable_concat(pieces);
    }
    assert(whole[0] == doc);
    lemma_feed_pieces(max, Seq::<char>::empty(), whole, doc);
}

/// A concatenation of trim-stable nonempty pieces is itself trim-stable.
proof fn lemma_trim_stable_concat(pieces: Seq<Seq<char>>)
    requires
        pieces.len() > 0,
        forall|i: int|
            0 <= i < pieces.len() ==> trimmed(#[trigger] pieces[i]) == pieces[i] && pieces[i].len()
                > 0,
    ensures
        trimmed(concat_all(pieces)) == concat_all(pieces),
        concat_all(pieces).len() > 0,
        !crate::strutil::is_ws(concat_all(pieces)[0]),
        !crate::strutil::is_ws(concat_all(pieces).last()),
    decreases pieces.len(),
{
    let w = concat_all(pieces);
    if pieces.len() == 1 {
        assert(pieces.drop_last() =~= Seq::<Seq<char>>::empty());
        assert(w == Seq::<char>::empty() + pieces[0]);
        assert(w =~= pieces[0]);
        lemma_trim_stable_char(pieces[0]);
    } else {
        lemma_trim_stable_concat(pieces.drop_last());
        let front = concat_all(pieces.drop_last());
        let lastp = pieces.last();
        lemma_trim_stable_char(lastp);
        assert(w == front + lastp);
        assert(w[0] == front[0]);
        assert(w.last() == lastp.last());
        lemma_ends_stable(w);
    }
}

/// A nonempty text with no whitespace at either end is trim-stable.
proof fn lemma_ends_stable(s: Seq<char>)
    requires
        s.len() > 0,
        !crate::strutil::is_ws(s[0]),
        !crate::strutil::is_ws(s.last()),
    ensures
        trimmed(s) == s,
{
    assert(crate::strutil::trim_front(s) == s);
    assert(crate::strutil::trim_back(s) == s);
}

/// A nonempty trim-stable text has no whitespace at either end.
proof fn lemma_trim_stable_char(s: Seq<char>)
    requires
        s.len() > 0,
        trimmed(s) == s,
    ensures
        !crate::strutil::is_ws(s[0]),
        !crate::strutil::is_ws(s.last()),
{
    lemma_trim_front_len(s);
    lemma_trim_back_len(crate::strutil::trim_front(s));
    assert(crate::strutil::trim_front(s).len() == s.len());
    lemma_trim_front_same_len(s);
    assert(crate::strutil::trim_front(s) == s);
    assert(crate::strutil::trim_back(s) == s);
    if crate::strutil::is_ws(s[0]) {
        assert(crate::strutil::trim_front(s) == crate::strutil::trim_front(s.drop_first()));
        lemma_trim_front_len(s.drop_first());
        assert(false);
    }
    if crate::strutil::is_ws(s.last()) {
        assert(crate::strutil::trim_back(s) == crate::strutil::trim_back(s.drop_last()));
        lemma_trim_back_len(s.drop_last());
        assert(false);
    }
}

proof fn lemma_trim_front_len(s: Seq<char>)
    ensures
        crate::strutil::trim_front(s).len() <= s.len(),
    decreases s.len(),
{
    if s.len() > 0 && crate::strutil::is_ws(s[0]) {
        lemma_trim_front_len(s.drop_first());
    }
}

proof fn lemma_trim_back_len(s: Seq<char>)
    ensures
        crate::strutil::trim_back(s).len() <= s.len(),
    decreases s.len(),
{
    if s.len() > 0 && crate::strutil::is_ws(s.last()) {
        lemma_trim_back_len(s.drop_last());
    }
}

proof fn lemma_trim_front_same_len(s: Seq<char>)
    requires
        crate::strutil::trim_front(s).len() == s.len(),
    ensures
        crate::strutil::trim_front(s) == s,
    decreases s.len(),
{
    if s.len() > 0 && crate::strutil::is_ws(s[0]) {
        lemma_trim_front_len(s.drop_first());
    }
}

} // verus!

