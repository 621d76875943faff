//! Gathering the bytes that arrive one at a time into lines.
use vstd::prelude::*;

verus! {

/// The byte that ends a line.
pub const NEWLINE: u8 = 10;

/// The characters of `bytes`, each byte read as the character with that code.
pub open spec fn chars_of(bytes: Seq<u8>) -> Seq<char> {
    bytes.map_values(|b: u8| b as char)
}

/// One step of line gathering: from the characters gathered so far and the
/// next byte, the characters gathered afterwards and the line completed, if any.
pub open spec fn step(pending: Seq<char>, byte: u8) -> (Seq<char>, Option<Seq<char>>) {
    if byte == NEWLINE {
        (Seq::<char>::empty(), Some(pending))
    } else {
        (pending.push(byte as char), None)
    }
}

/// The lines completed while `bytes` arrive, starting from `pending`, and the
/// characters still gathered at the end.
pub open spec fn feed(pending: Seq<char>, bytes: Seq<u8>) -> (Seq<Seq<char>>, Seq<char>)
    decreases bytes.len(),
{
    if bytes.len() == 0 {
        (Seq::<Seq<char>>::empty(), pending)
    } else {
        let (lines, rest) = feed(pending, bytes.drop_last());
        match step(rest, bytes.last()) {
            (next, Some(line)) => (lines.push(line), next),
            (next, None) => (lines, next),
        }
    }
}

/// Each line followed by a newline, one after the other.
pub open spec fn terminated(lines: Seq<Seq<char>>) -> Seq<char>
    decreases lines.len(),
{
    if lines.len() == 0 {
        Seq::<char>::empty()
    } else {
        terminated(lines.drop_last()) + lines.last().push('\n')
    }
}

/// The number of lines in `lines` of which `p` holds.
pub open spec fn count_where(lines: Seq<Seq<char>>, p: spec_fn(Seq<char>) -> bool) -> nat
    decreases lines.len(),
{
    if lines.len() == 0 {
        0
    } else {
        count_where(lines.drop_last(), p) + if p(lines.last()) { 1nat } else { 0nat }
    }
}

/// Counting by two tests that agree on every line gives the same number.
pub proof fn lemma_count_where_agrees(
    lines: Seq<Seq<char>>,
    p: spec_fn(Seq<char>) -> bool,
    q: spec_fn(Seq<char>) -> bool,
)
    requires
        forall|l: Seq<char>| #[trigger] p(l) == q(l),
    ensures
        count_where(lines, p) == count_where(lines, q),
    decreases lines.len(),
{
    if lines.len() > 0 {
        lemma_count_where_agrees(lines.drop_last(), p, q);
    }
}

/// The content of an optional character vector, as a sequence.
pub open spec fn line_view(line: Option<Vec<char>>) -> Option<Seq<char>> {
    match line {
        Some(v) => Some(v@),
        None => None,
    }
}

/// Gathers received bytes until a newline completes a line.
pub struct LineReader {
    word: Vec<char>,
}

impl View for LineReader {
    type V = Seq<char>;

    /// The characters received since the last completed line.
    closed spec fn view(&self) -> Seq<char> {
        self.word@
    }
}

impl LineReader {
    #[verifier::type_invariant]
    spec fn no_newline_pending(self) -> bool {
        !self.word@.contains('\n')
    }

    /// A reader with nothing gathered yet.
    pub fn new() -> (r: LineReader)
        ensures
            r@ == Seq::<char>::empty(),
    {
        LineReader { word: Vec::new() }
    }

    /// Takes in the next byte: a newline hands out the gathered line and starts
    /// a new one; any other byte is added to the line as a character.
    pub fn receive(&mut self, byte: u8) -> (line: Option<Vec<char>>)
        ensures
            step(old(self)@, byte) == (final(self)@, line_view(line)),
            line matches Some(l) ==> !l@.contains('\n'),
    {
        proof {
            use_type_invariant(&*self);
        }
        if byte == NEWLINE {
            let mut done: Vec<char> = Vec::new();
            std::mem::swap(&mut done, &mut self.word);
            Some(done)
        } else {
            let c = byte as char;
            assert(c != '\n') by {
                assert(byte != 10u8);
            }
            let ghost before = self.word@;
            let mut w: Vec<char> = Vec::new();
            std::mem::swap(&mut w, &mut self.word);
            w.push(c);
            assert forall|i: int| 0 <= i < w@.len() implies w@[i] != '\n' by {
                if i < before.len() {
                    assert(before[i] == w@[i]);
                }
            }
            self.word = w;
            None
        }
    }
}

/// Nothing is lost or added in gathering: the lines completed, each with its
/// newline, followed by what is still gathered, are the characters gathered
/// before followed by those of the bytes received.
pub proof fn lemma_feed_keeps_text(pending: Seq<char>, bytes: Seq<u8>)
    ensures
        terminated(feed(pending, bytes).0) + feed(pending, bytes).1 == pending + chars_of(bytes),
    decreases bytes.len(),
{
    if bytes.len() > 0 {
        let init = bytes.drop_last();
        lemma_feed_keeps_text(pending, init);
        let (lines, rest) = feed(pending, init);
        let b: u8 = bytes.last();
        let c = b as char;
        assert(chars_of(bytes) =~= chars_of(init).push(c));
        assert(terminated(lines) + rest.push(c) =~= (terminated(lines) + rest).push(c));
        assert((pending + chars_of(init)).push(c) =~= pending + chars_of(init).push(c));
        if b == NEWLINE {
            assert(b as char == '\n') by {
                assert(b == 10u8);
            }
            assert(lines.push(rest).drop_last() =~= lines);
            assert(terminated(lines.push(rest)) =~= terminated(lines) + rest.push('\n'));
            assert(terminated(lines.push(rest)) + Seq::<char>::empty() =~= pending + chars_of(
                bytes,
            ));
        } else {
            assert(terminated(lines) + rest.push(b as char) =~= pending + chars_of(bytes));
        }
    }
}

/// No completed line holds a newline, and none is still gathered, as long as
/// none was gathered at the start.
pub proof fn lemma_feed_lines_have_no_newline(pending: Seq<char>, bytes: Seq<u8>)
    requires
        !pending.contains('\n'),
    ensures
        forall|i: int|
            0 <= i < feed(pending, bytes).0.len() ==> !(#[trigger] feed(pending, bytes).0[i]).contains(
                '\n',
            ),
        !feed(pending, bytes).1.contains('\n'),
    decreases bytes.len(),
{
    if bytes.len() > 0 {
        let init = bytes.drop_last();
        lemma_feed_lines_have_no_newline(pending, init);
        let (lines, rest) = feed(pending, init);
        let b: u8 = bytes.last();
        if b != NEWLINE {
            assert(b as char != '\n') by {
                assert(b != 10u8);
            }
            let grown = rest.push(b as char);
            assert forall|i: int| 0 <= i < grown.len() implies #[trigger] grown[i] != '\n' by {
                if i < rest.len() {
                    assert(rest[i] == grown[i]);
                }
            }
        }
    }
}

/// A line of bytes without a newline, followed by a newline, comes out as
/// exactly that line, and nothing stays gathered.
pub proof fn lemma_one_line_round_trip(bytes: Seq<u8>)
    requires
        !bytes.contains(NEWLINE),
    ensures
        feed(Seq::<char>::empty(), bytes.push(NEWLINE)) == (
            seq![chars_of(bytes)],
            Seq::<char>::empty(),
        ),
{
    lemma_feed_no_newline(Seq::<char>::empty(), bytes);
    assert(bytes.push(NEWLINE).drop_last() =~= bytes);
    assert(seq![chars_of(bytes)] =~= Seq::<Seq<char>>::empty().push(chars_of(bytes)));
}

/// Bytes without a newline only add to what is gathered.
pub proof fn lemma_feed_no_newline(pending: Seq<char>, bytes: Seq<u8>)
    requires
        !bytes.contains(NEWLINE),
    ensures
        feed(pending, bytes) == (Seq::<Seq<char>>::empty(), pending + chars_of(bytes)),
    decreases bytes.len(),
{
    if bytes.len() == 0 {
        assert(pending + chars_of(bytes) =~= pending);
    } else {
        let init = bytes.drop_last();
        assert(!init.contains(NEWLINE)) by {
            if init.contains(NEWLINE) {
                let k = choose|k: int| 0 <= k < init.len() && init[k] == NEWLINE;
                assert(bytes[k] == NEWLINE);
            }
        }
        assert(bytes[bytes.len() - 1] != NEWLINE);
        lemma_feed_no_newline(pending, init);
        assert(pending + chars_of(bytes) =~= (pending + chars_of(init)).push(bytes.last() as char));
    }
}

} // verus!
