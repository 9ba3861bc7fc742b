//! In-memory capture of log records: a bounded store of complete lines and a
//! writer that assembles byte fragments into lines.
use vstd::prelude::*;
use vstd::utf8::{encode_scalar, encode_utf8};
use std::collections::VecDeque;
use crate::text::{append_text, chars_of, push_char, same_text};

verus! {

/// The most lines the store keeps.
pub const MAX_LOG_LINES: usize = 2000;
/// The most bytes the store keeps, and the longest line it accepts.
pub const MAX_LOG_BYTES: usize = 1048576;
/// Appended to a line that was cut short.
pub const TRUNCATION_MARKER: &'static str = " …[truncated]";

/// The length of the UTF-8 encoding of `s`.
pub open spec fn utf8_len(s: Seq<char>) -> nat {
    encode_utf8(s).len()
}

/// The total UTF-8 length of `lines`.
pub open spec fn total_bytes(lines: Seq<Seq<char>>) -> nat
    decreases lines.len(),
{
    if lines.len() == 0 {
        0
    } else {
        utf8_len(lines[0]) + total_bytes(lines.drop_first())
    }
}

/// `lines` written one after another.
pub open spec fn joined(lines: Seq<Seq<char>>) -> Seq<char>
    decreases lines.len(),
{
    if lines.len() == 0 {
        Seq::empty()
    } else {
        lines[0] + joined(lines.drop_first())
    }
}

/// Whether `lines` fit both the line and the byte bound.
pub open spec fn within_bounds(lines: Seq<Seq<char>>) -> bool {
    lines.len() <= MAX_LOG_LINES && total_bytes(lines) <= MAX_LOG_BYTES
}

/// `lines` without as many of its oldest lines as the bounds require.
pub open spec fn retained(lines: Seq<Seq<char>>) -> Seq<Seq<char>>
    decreases lines.len(),
{
    if lines.len() == 0 || within_bounds(lines) {
        lines
    } else {
        retained(lines.drop_first())
    }
}

/// The next revision: one more, wrapping at the end of the range.
pub open spec fn next_revision(revision: u64) -> u64 {
    if revision == u64::MAX {
        0
    } else {
        (revision + 1) as u64
    }
}

/// The lines and revision of a store after one rendered line is appended: the
/// oldest lines are evicted as the bounds require, and the revision advances
/// exactly when the visible text changed.
pub open spec fn store_append(state: (Seq<Seq<char>>, u64), line: Seq<char>) -> (
    Seq<Seq<char>>,
    u64,
) {
    let lines = retained(state.0.push(line));
    (lines, if joined(lines) == joined(state.0) {
        state.1
    } else {
        next_revision(state.1)
    })
}

/// The lines and revision of a store after `added` are appended in order.
pub open spec fn store_append_all(state: (Seq<Seq<char>>, u64), added: Seq<Seq<char>>) -> (
    Seq<Seq<char>>,
    u64,
)
    decreases added.len(),
{
    if added.len() == 0 {
        state
    } else {
        store_append(store_append_all(state, added.drop_last()), added.last())
    }
}

/// The character views of `lines`.
pub open spec fn views(lines: Seq<String>) -> Seq<Seq<char>> {
    lines.map_values(|line: String| line@)
}

/// Eviction only drops the oldest lines: what is retained is a suffix of
/// `lines`, and, when the newest line fits the byte bound on its own, that
/// suffix keeps the newest line and fits both bounds.
pub proof fn lemma_retained_suffix(lines: Seq<Seq<char>>)
    requires
        lines.len() > 0,
        utf8_len(lines.last()) <= MAX_LOG_BYTES,
    ensures
        exists|k: int|
            0 <= k < lines.len() && #[trigger] lines.skip(k) == retained(lines),
        retained(lines).len() > 0,
        retained(lines).last() == lines.last(),
        within_bounds(retained(lines)),
    decreases lines.len(),
{
    if within_bounds(lines) {
        assert(lines.skip(0) =~= lines);
    } else if lines.len() == 1 {
        assert(lines.drop_first() =~= Seq::<Seq<char>>::empty());
        assert(total_bytes(lines.drop_first()) == 0);
        assert(total_bytes(lines) == utf8_len(lines[0]));
        assert(false);
    } else {
        let rest = lines.drop_first();
        assert(rest.last() == lines.last());
        lemma_retained_suffix(rest);
        let k = choose|k: int| 0 <= k < rest.len() && #[trigger] rest.skip(k) == retained(rest);
        assert(lines.skip(k + 1) =~= rest.skip(k));
    }
}

/// Appending a line to a store within its bounds keeps the store within its
/// bounds, keeps the new line as the newest, and drops only the oldest lines:
/// the result is a suffix of the old lines followed by the new one.
pub proof fn law_append_keeps_newest_line(state: (Seq<Seq<char>>, u64), line: Seq<char>)
    requires
        within_bounds(state.0),
        utf8_len(line) <= MAX_LOG_BYTES,
    ensures
        within_bounds(store_append(state, line).0),
        store_append(state, line).0.len() > 0,
        store_append(state, line).0.last() == line,
        exists|k: int|
            0 <= k <= state.0.len() && #[trigger] state.0.skip(k).push(line) == store_append(
                state,
                line,
            ).0,
{
    let pushed = state.0.push(line);
    lemma_retained_suffix(pushed);
    let k = choose|k: int| 0 <= k < pushed.len() && #[trigger] pushed.skip(k) == retained(pushed);
    assert(pushed.skip(k) =~= state.0.skip(k).push(line));
}

/// The UTF-8 encoding of `s` followed by `c` is that of `s` followed by that of `c`.
pub proof fn lemma_encode_push(s: Seq<char>, c: char)
    ensures
        encode_utf8(s.push(c)) == encode_utf8(s) + encode_scalar(c as u32),
    decreases s.len(),
{
    if s.len() == 0 {
        assert(s.push(c).drop_first() =~= Seq::<char>::empty());
        assert(encode_utf8(Seq::<char>::empty()) =~= Seq::<u8>::empty());
        assert(encode_utf8(s.push(c)) =~= encode_scalar(c as u32));
        assert(encode_utf8(s) =~= Seq::<u8>::empty());
    } else {
        lemma_encode_push(s.drop_first(), c);
        assert(s.push(c).drop_first() =~= s.drop_first().push(c));
        assert(encode_utf8(s.push(c)) =~= encode_scalar(s[0] as u32) + encode_utf8(
            s.drop_first().push(c),
        ));
        assert(encode_utf8(s.push(c)) =~= encode_utf8(s) + encode_scalar(c as u32));
    }
}

/// The UTF-8 encoding of a concatenation is the concatenation of the encodings.
pub proof fn lemma_encode_concat(a: Seq<char>, b: Seq<char>)
    ensures
        encode_utf8(a + b) == encode_utf8(a) + encode_utf8(b),
    decreases a.len(),
{
    if a.len() == 0 {
        assert(a + b =~= b);
        assert(encode_utf8(a) =~= Seq::<u8>::empty());
        assert(encode_utf8(a + b) =~= encode_utf8(a) + encode_utf8(b));
    } else {
        lemma_encode_concat(a.drop_first(), b);
        assert((a + b).drop_first() =~= a.drop_first() + b);
        assert((a + b)[0] == a[0]);
        assert(encode_utf8(a + b) =~= encode_utf8(a) + encode_utf8(b));
    }
}

proof fn lemma_total_push(lines: Seq<Seq<char>>, line: Seq<char>)
    ensures
        total_bytes(lines.push(line)) == total_bytes(lines) + utf8_len(line),
    decreases lines.len(),
{
    let pushed = lines.push(line);
    if lines.len() == 0 {
        assert(pushed.drop_first() =~= Seq::<Seq<char>>::empty());
        assert(total_bytes(pushed.drop_first()) == 0);
        assert(pushed[0] == line);
        assert(total_bytes(pushed) == utf8_len(line) + total_bytes(pushed.drop_first()));
    } else {
        lemma_total_push(lines.drop_first(), line);
        assert(pushed.drop_first() =~= lines.drop_first().push(line));
        assert(pushed[0] == lines[0]);
        assert(total_bytes(pushed) == utf8_len(lines[0]) + total_bytes(pushed.drop_first()));
    }
}

proof fn lemma_joined_push(lines: Seq<Seq<char>>, line: Seq<char>)
    ensures
        joined(lines.push(line)) == joined(lines) + line,
    decreases lines.len(),
{
    let pushed = lines.push(line);
    if lines.len() == 0 {
        assert(pushed.drop_first() =~= Seq::<Seq<char>>::empty());
        assert(joined(pushed.drop_first()) =~= Seq::<char>::empty());
        assert(pushed[0] == line);
        assert(joined(pushed) =~= line + joined(pushed.drop_first()));
        assert(joined(pushed) =~= line);
        assert(joined(lines) =~= Seq::<char>::empty());
        assert(joined(lines) + line =~= line);
    } else {
        lemma_joined_push(lines.drop_first(), line);
        assert(pushed.drop_first() =~= lines.drop_first().push(line));
        assert(pushed[0] == lines[0]);
        assert(joined(pushed) =~= lines[0] + joined(pushed.drop_first()));
        assert(joined(pushed) =~= joined(lines) + line);
    }
}

/// `String::replace_range` over the first `prefix.len()` bytes: removes a
/// prefix that `s` is known to start with.
#[verifier::external_body]
fn drop_leading(s: &mut String, prefix: &str)
    requires
        prefix@.len() <= old(s)@.len(),
        old(s)@.take(prefix@.len() as int) == prefix@,
    ensures
        final(s)@ == old(s)@.skip(prefix@.len() as int),
{
    s.replace_range(..prefix.len(), "")
}

/// A copy of the captured text and its revision.
#[derive(Clone, Debug, Default, PartialEq, Eq)]
pub struct LogSnapshot {
    pub revision: u64,
    pub text: String,
}

/// A bounded store of complete log lines. The revision changes exactly when
/// the visible text does.
#[derive(Debug)]
pub struct LogStore {
    lines: VecDeque<String>,
    rendered: String,
    bytes: usize,
    revision: u64,
}

impl LogStore {
    /// The stored lines, oldest first.
    pub closed spec fn line_views(&self) -> Seq<Seq<char>> {
        views(self.lines@)
    }

    /// The current revision.
    pub closed spec fn revision_view(&self) -> u64 {
        self.revision
    }

    /// The store's internal consistency: the rendered text is the lines
    /// joined, the byte count is their total, and both bounds hold.
    pub closed spec fn wf(&self) -> bool {
        &&& self.rendered@ == joined(views(self.lines@))
        &&& self.bytes == total_bytes(views(self.lines@))
        &&& within_bounds(views(self.lines@))
    }

    /// An empty store at revision 0.
    pub fn new() -> (r: Self)
        ensures
            r.wf(),
            r.line_views() == Seq::<Seq<char>>::empty(),
            r.revision_view() == 0,
    {
        let r = LogStore { lines: VecDeque::new(), rendered: String::new(), bytes: 0, revision: 0 };
        assert(views(r.lines@) =~= Seq::<Seq<char>>::empty());
        r
    }

    /// The current revision.
    pub fn revision(&self) -> (r: u64)
        ensures
            r == self.revision_view(),
    {
        self.revision
    }

    /// The stored text and its revision.
    pub fn snapshot(&self) -> (r: LogSnapshot)
        requires
            self.wf(),
        ensures
            r.revision == self.revision_view(),
            r.text@ == joined(self.line_views()),
    {
        LogSnapshot { revision: self.revision, text: self.rendered.clone() }
    }

    /// Appends one rendered line, evicting the oldest lines as the bounds
    /// require.
    pub fn append_rendered_line(&mut self, line: String)
        requires
            old(self).wf(),
            utf8_len(line@) <= MAX_LOG_BYTES,
        ensures
            final(self).wf(),
            (final(self).line_views(), final(self).revision_view()) == store_append(
                (old(self).line_views(), old(self).revision_view()),
                line@,
            ),
    {
        let ghost old_lines = views(self.lines@);
        let ghost pushed = old_lines.push(line@);
        let previous = self.rendered.clone();
        let line_bytes = line.as_str().len();
        proof {
            lemma_total_push(old_lines, line@);
            lemma_joined_push(old_lines, line@);
        }
        self.bytes = self.bytes + line_bytes;
        append_text(&mut self.rendered, line.as_str());
        self.lines.push_back(line);
        assert(views(self.lines@) =~= pushed);
        while self.lines.len() > MAX_LOG_LINES || self.bytes > MAX_LOG_BYTES
            invariant
                self.rendered@ == joined(views(self.lines@)),
                self.bytes == total_bytes(views(self.lines@)),
                retained(views(self.lines@)) == retained(pushed),
                self.lines@.len() <= MAX_LOG_LINES + 1,
                self.bytes <= 2 * MAX_LOG_BYTES,
                previous@ == joined(old_lines),
                self.revision == old(self).revision,
            decreases self.lines@.len(),
        {
            let ghost before = views(self.lines@);
            match self.lines.pop_front() {
                Some(oldest) => {
                    assert(views(self.lines@) =~= before.drop_first());
                    assert(before[0] == oldest@);
                    let oldest_bytes = oldest.as_str().len();
                    self.bytes = self.bytes - oldest_bytes;
                    assert(self.rendered@.take(oldest@.len() as int) =~= oldest@);
                    drop_leading(&mut self.rendered, oldest.as_str());
                    assert(self.rendered@ =~= joined(before.drop_first()));
                },
                None => {
                    assert(before =~= Seq::<Seq<char>>::empty());
                    assert(total_bytes(before) == 0);
                    assert(false);
                },
            }
        }
        assert(within_bounds(views(self.lines@)));
        assert(retained(views(self.lines@)) == views(self.lines@));
        if !same_text(self.rendered.as_str(), previous.as_str()) {
            self.revision = if self.revision == u64::MAX {
                0
            } else {
                self.revision + 1
            };
        }
    }

    /// Renders `line` as a complete record and appends it.
    pub fn push_line(&mut self, line: &str)
        requires
            old(self).wf(),
        ensures
            final(self).wf(),
            (final(self).line_views(), final(self).revision_view()) == store_append(
                (old(self).line_views(), old(self).revision_view()),
                rendered_text(line@, false),
            ),
    {
        let rendered = render_text(line, false);
        self.append_rendered_line(rendered);
    }
}


/// What `String::from_utf8_lossy` makes of `bytes`: their text, with each
/// invalid sequence replaced by U+FFFD.
pub uninterp spec fn utf8_lossy(bytes: Seq<u8>) -> Seq<char>;

/// `String::from_utf8_lossy`: the text of `bytes`, decoded exactly when they
/// are valid UTF-8.
#[verifier::external_body]
fn lossy_text(bytes: &[u8]) -> (r: String)
    ensures
        r@ == utf8_lossy(bytes@),
        vstd::utf8::valid_utf8(bytes@) ==> r@ == vstd::utf8::decode_utf8(bytes@),
{
    String::from_utf8_lossy(bytes).into_owned()
}

/// `char::len_utf8`: the length of the character's UTF-8 encoding.
#[verifier::external_body]
fn utf8_width(c: char) -> (r: usize)
    ensures
        r == encode_scalar(c as u32).len(),
{
    c.len_utf8()
}

/// Each character takes at most four bytes.
proof fn lemma_utf8_len_bound(s: Seq<char>)
    ensures
        utf8_len(s) <= 4 * s.len(),
    decreases s.len(),
{
    if s.len() > 0 {
        lemma_utf8_len_bound(s.drop_first());
        assert(encode_scalar(s[0] as u32).len() <= 4);
    }
}

/// How many leading characters of `s` fit in `budget` bytes of UTF-8.
pub open spec fn fitting_prefix_len(s: Seq<char>, budget: nat) -> nat
    decreases s.len(),
{
    if s.len() == 0 {
        0
    } else if encode_scalar(s[0] as u32).len() <= budget {
        1 + fitting_prefix_len(s.drop_first(), (budget - encode_scalar(s[0] as u32).len()) as nat)
    } else {
        0
    }
}

/// The bytes left for a cut line's content once the marker and the line end
/// are counted.
pub open spec fn content_limit() -> nat {
    (MAX_LOG_BYTES - utf8_len(TRUNCATION_MARKER@) - 1) as nat
}

/// A captured record as stored: the text and a line end, or, when it is
/// forced or too long, the longest prefix that fits with the marker.
pub open spec fn rendered_text(text: Seq<char>, force_truncated: bool) -> Seq<char> {
    if !force_truncated && utf8_len(text) + 1 <= MAX_LOG_BYTES {
        text.push('\n')
    } else {
        text.take(fitting_prefix_len(text, content_limit()) as int) + TRUNCATION_MARKER@ + seq![
            '\n',
        ]
    }
}

/// Renders a record's text as a stored line.
pub fn render_text(text: &str, force_truncated: bool) -> (r: String)
    ensures
        r@ == rendered_text(text@, force_truncated),
        utf8_len(r@) <= MAX_LOG_BYTES,
{
    let text_bytes = text.as_bytes().len();
    if !force_truncated && text_bytes < MAX_LOG_BYTES {
        let mut rendered = text.to_owned();
        push_char(&mut rendered, '\n');
        proof {
            lemma_encode_push(text@, '\n');
            assert(('\n' as u32) == 10u32);
            assert(encode_scalar(10u32).len() == 1);
            assert(utf8_len(text@) == text_bytes);
            assert(utf8_len(rendered@) == text_bytes + 1);
        }
        return rendered;
    }
    let marker_bytes = TRUNCATION_MARKER.len();
    proof {
        reveal_strlit(" …[truncated]");
        lemma_utf8_len_bound(TRUNCATION_MARKER@);
    }
    let limit = MAX_LOG_BYTES - marker_bytes - 1;
    let chars = chars_of(text);
    let mut rendered = String::new();
    let mut used: usize = 0;
    let mut i: usize = 0;
    assert(chars@.skip(0) =~= chars@);
    while i < chars.len()
        invariant
            chars@ == text@,
            0 <= i <= chars@.len(),
            rendered@ == chars@.take(i as int),
            used == utf8_len(rendered@),
            used <= limit,
            limit == content_limit(),
            fitting_prefix_len(chars@, limit as nat) == i + fitting_prefix_len(
                chars@.skip(i as int),
                (limit - used) as nat,
            ),
        ensures
            rendered@ == chars@.take(i as int),
            fitting_prefix_len(chars@, limit as nat) == i,
        decreases chars@.len() - i,
    {
        let c = chars[i];
        let width = utf8_width(c);
        assert(chars@.skip(i as int)[0] == c);
        assert(chars@.skip(i as int).drop_first() =~= chars@.skip(i + 1));
        if width > limit - used {
            break;
        }
        proof {
            lemma_encode_push(rendered@, c);
        }
        push_char(&mut rendered, c);
        used = used + width;
        i = i + 1;
        assert(rendered@ =~= chars@.take(i as int));
    }
    let ghost content = rendered@;
    append_text(&mut rendered, TRUNCATION_MARKER);
    push_char(&mut rendered, '\n');
    proof {
        lemma_encode_concat(content, TRUNCATION_MARKER@);
        lemma_encode_push(content + TRUNCATION_MARKER@, '\n');
    }
    rendered
}

/// Renders a captured record's bytes as a stored line.
pub fn render_line(bytes: &[u8], force_truncated: bool) -> (r: String)
    ensures
        r@ == rendered_text(utf8_lossy(bytes@), force_truncated),
        utf8_len(r@) <= MAX_LOG_BYTES,
{
    let text = lossy_text(bytes);
    render_text(text.as_str(), force_truncated)
}

/// A fragment without one trailing carriage return.
pub open spec fn without_cr(fragment: Seq<u8>) -> Seq<u8> {
    if fragment.len() > 0 && fragment.last() == 13u8 {
        fragment.drop_last()
    } else {
        fragment
    }
}

/// The line that a newline completes: the fragment without its carriage
/// return, decoded and rendered.
pub open spec fn completed_line(fragment: Seq<u8>, truncated: bool) -> Seq<char> {
    rendered_text(utf8_lossy(without_cr(fragment)), truncated)
}

/// A writer's pending fragment and truncation flag after one more byte: a
/// newline starts a fresh fragment; other bytes are kept until the fragment
/// is full, after which the fragment is marked as cut and grows no further.
pub open spec fn fragment_after(state: (Seq<u8>, bool), byte: u8) -> (Seq<u8>, bool) {
    if byte == 10u8 {
        (Seq::empty(), false)
    } else if state.1 {
        state
    } else if state.0.len() < MAX_LOG_BYTES {
        (state.0.push(byte), false)
    } else {
        (state.0, true)
    }
}

/// A writer's pending fragment and truncation flag after `bytes`.
pub open spec fn writer_after(state: (Seq<u8>, bool), bytes: Seq<u8>) -> (Seq<u8>, bool)
    decreases bytes.len(),
{
    if bytes.len() == 0 {
        state
    } else {
        fragment_after(writer_after(state, bytes.drop_last()), bytes.last())
    }
}

/// The lines that `bytes` complete, in order, starting from a writer in `state`.
pub open spec fn captured_lines(state: (Seq<u8>, bool), bytes: Seq<u8>) -> Seq<Seq<char>>
    decreases bytes.len(),
{
    if bytes.len() == 0 {
        Seq::empty()
    } else {
        let before = writer_after(state, bytes.drop_last());
        let earlier = captured_lines(state, bytes.drop_last());
        if bytes.last() == 10u8 {
            earlier.push(completed_line(before.0, before.1))
        } else {
            earlier
        }
    }
}

/// Assembles written bytes into complete lines for a store. A record ends at
/// each newline; one carriage return before it is dropped.
#[derive(Debug)]
pub struct CapturingWriter {
    fragment: Vec<u8>,
    fragment_truncated: bool,
}

impl CapturingWriter {
    /// The pending fragment and whether it was cut.
    pub closed spec fn pending(&self) -> (Seq<u8>, bool) {
        (self.fragment@, self.fragment_truncated)
    }

    /// The pending fragment never exceeds the byte bound.
    pub closed spec fn wf(&self) -> bool {
        self.fragment@.len() <= MAX_LOG_BYTES
    }

    /// A writer with nothing pending.
    pub fn new() -> (r: Self)
        ensures
            r.wf(),
            r.pending() == (Seq::<u8>::empty(), false),
    {
        CapturingWriter { fragment: Vec::new(), fragment_truncated: false }
    }

    fn append_fragment_byte(&mut self, byte: u8)
        requires
            old(self).wf(),
            byte != 10u8,
        ensures
            final(self).wf(),
            final(self).pending() == fragment_after(old(self).pending(), byte),
    {
        if self.fragment_truncated {
            return;
        }
        if self.fragment.len() < MAX_LOG_BYTES {
            self.fragment.push(byte);
        } else {
            self.fragment_truncated = true;
        }
    }

    fn finish_fragment(&mut self, store: &mut LogStore)
        requires
            old(self).wf(),
            old(store).wf(),
        ensures
            final(self).wf(),
            final(self).pending() == fragment_after(old(self).pending(), 10u8),
            final(store).wf(),
            (final(store).line_views(), final(store).revision_view()) == store_append(
                (old(store).line_views(), old(store).revision_view()),
                completed_line(old(self).fragment@, old(self).fragment_truncated),
            ),
    {
        let n = self.fragment.len();
        if n > 0 && self.fragment[n - 1] == 13u8 {
            self.fragment.pop();
        }
        assert(self.fragment@ =~= without_cr(old(self).fragment@));
        let line = render_line(self.fragment.as_slice(), self.fragment_truncated);
        store.append_rendered_line(line);
        self.fragment.clear();
        self.fragment_truncated = false;
    }

    /// Captures `bytes` into `store`: every newline completes a line, which
    /// the store appends; the rest stays pending. All bytes are accepted.
    pub fn write(&mut self, store: &mut LogStore, bytes: &[u8]) -> (r: usize)
        requires
            old(self).wf(),
            old(store).wf(),
        ensures
            r == bytes@.len(),
            final(self).wf(),
            final(self).pending() == writer_after(old(self).pending(), bytes@),
            final(store).wf(),
            (final(store).line_views(), final(store).revision_view()) == store_append_all(
                (old(store).line_views(), old(store).revision_view()),
                captured_lines(old(self).pending(), bytes@),
            ),
    {
        let ghost start = self.pending();
        let ghost store_start = (store.line_views(), store.revision_view());
        let mut i: usize = 0;
        assert(bytes@.take(0) =~= Seq::<u8>::empty());
        while i < bytes.len()
            invariant
                0 <= i <= bytes@.len(),
                self.wf(),
                store.wf(),
                self.pending() == writer_after(start, bytes@.take(i as int)),
                (store.line_views(), store.revision_view()) == store_append_all(
                    store_start,
                    captured_lines(start, bytes@.take(i as int)),
                ),
            decreases bytes@.len() - i,
        {
            let byte = bytes[i];
            let ghost prefix = bytes@.take(i as int);
            let ghost next = bytes@.take(i + 1);
            assert(next.drop_last() =~= prefix);
            assert(next.last() == byte);
            let ghost earlier = captured_lines(start, prefix);
            if byte == 10u8 {
                self.finish_fragment(store);
                assert(earlier.push(completed_line(
                    writer_after(start, prefix).0,
                    writer_after(start, prefix).1,
                )).drop_last() =~= earlier);
            } else {
                self.append_fragment_byte(byte);
            }
            i = i + 1;
        }
        assert(bytes@.take(i as int) =~= bytes@);
        bytes.len()
    }
}

/// Appending lines in two batches leaves the store as appending them all at
/// once does.
pub proof fn lemma_append_all_concat(state: (Seq<Seq<char>>, u64), first: Seq<Seq<char>>, second: Seq<Seq<char>>)
    ensures
        store_append_all(state, first + second) == store_append_all(store_append_all(state, first), second),
    decreases second.len(),
{
    if second.len() == 0 {
        assert(first + second =~= first);
    } else {
        lemma_append_all_concat(state, first, second.drop_last());
        assert((first + second).drop_last() =~= first + second.drop_last());
        assert((first + second).last() == second.last());
    }
}

/// Writing `first` and then `second` leaves the writer pending as writing
/// them in one piece does, and completes the same lines in the same order.
pub proof fn lemma_writer_concat(state: (Seq<u8>, bool), first: Seq<u8>, second: Seq<u8>)
    ensures
        writer_after(state, first + second) == writer_after(writer_after(state, first), second),
        captured_lines(state, first + second) == captured_lines(state, first) + captured_lines(
            writer_after(state, first),
            second,
        ),
    decreases second.len(),
{
    if second.len() == 0 {
        assert(first + second =~= first);
        assert(captured_lines(state, first) + Seq::<Seq<char>>::empty() =~= captured_lines(state, first));
    } else {
        lemma_writer_concat(state, first, second.drop_last());
        assert((first + second).drop_last() =~= first + second.drop_last());
        assert((first + second).last() == second.last());
        let middle = writer_after(state, first);
        let before = writer_after(middle, second.drop_last());
        if second.last() == 10u8 {
            assert(captured_lines(state, first + second) =~= captured_lines(state, first) + captured_lines(
                middle,
                second,
            ));
        } else {
            assert(captured_lines(state, first + second) =~= captured_lines(state, first) + captured_lines(
                middle,
                second,
            ));
        }
    }
}

/// Capturing is independent of how the output is split into writes: writing
/// `first` and then `second` leaves the writer and the store exactly as
/// writing `first + second` in one call does.
pub proof fn law_split_writes_capture_the_same_lines(
    store: (Seq<Seq<char>>, u64),
    writer: (Seq<u8>, bool),
    first: Seq<u8>,
    second: Seq<u8>,
)
    ensures
        writer_after(writer_after(writer, first), second) == writer_after(writer, first + second),
        store_append_all(
            store_append_all(store, captured_lines(writer, first)),
            captured_lines(writer_after(writer, first), second),
        ) == store_append_all(store, captured_lines(writer, first + second)),
{
    lemma_writer_concat(writer, first, second);
    lemma_append_all_concat(
        store,
        captured_lines(writer, first),
        captured_lines(writer_after(writer, first), second),
    );
}

} // verus!
