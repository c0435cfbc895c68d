//! The messages that the editor shows in its windows.

use vstd::prelude::*;
use vstd::arithmetic::div_mod::{lemma_fundamental_div_mod, lemma_fundamental_div_mod_converse};
use crate::engine::{matches_removed, remove_matches};
use crate::text::{chars_of, string_of};

verus! {

/// The width, in characters, to which the text of a message is broken.
pub const MESSAGE_WIDTH: usize = 60;

/// Single message to print to a window.
#[derive(Debug, Clone)]
pub enum Message {
    Error(String),
    Warning(String),
    Info(String),
}

pub enum MessageView {
    Error(Seq<char>),
    Warning(Seq<char>),
    Info(Seq<char>),
}

impl View for Message {
    type V = MessageView;

    open spec fn view(&self) -> MessageView {
        match self {
            Message::Error(text) => MessageView::Error(text@),
            Message::Warning(text) => MessageView::Warning(text@),
            Message::Info(text) => MessageView::Info(text@),
        }
    }
}

/// The pattern of the colour and erase sequences of a terminal.
pub open spec fn ansi_pattern() -> Seq<char> {
    "\x1B\\[[0-9;]*[mK]"@
}

/// The label that errors carry in front.
pub open spec fn error_label() -> Seq<char> {
    "error: "@
}

/// The text without the occurrences of a pattern, leftmost first. An empty
/// pattern occurs nowhere.
pub open spec fn spec_remove_all(s: Seq<char>, pattern: Seq<char>) -> Seq<char>
    decreases s.len(),
{
    if pattern.len() == 0 || s.len() < pattern.len() {
        s
    } else if s.take(pattern.len() as int) == pattern {
        spec_remove_all(s.skip(pattern.len() as int), pattern)
    } else {
        seq![s[0]] + spec_remove_all(s.skip(1), pattern)
    }
}

/// The text broken into lines, from a character that is the `count`-th of its
/// line: a line break in the text is followed by a bar between two spaces and
/// starts a line anew; before a character whose count is a multiple of `n`
/// a line break is put in.
pub open spec fn spec_insert_newlines_from(s: Seq<char>, n: int, count: int) -> Seq<char>
    decreases s.len(),
{
    if s.len() == 0 {
        Seq::empty()
    } else if s[0] == '\n' {
        seq!['\n', ' ', '|', ' '] + spec_insert_newlines_from(s.skip(1), n, 1)
    } else if count % n == 0 {
        seq!['\n', s[0]] + spec_insert_newlines_from(s.skip(1), n, count + 1)
    } else {
        seq![s[0]] + spec_insert_newlines_from(s.skip(1), n, count + 1)
    }
}

/// The text broken into lines of `n` characters; the first line is one
/// character shorter.
pub open spec fn spec_insert_newlines(s: Seq<char>, n: int) -> Seq<char> {
    spec_insert_newlines_from(s, n, 1)
}

/// The text of a message as a window shows it, for a label and the message
/// without its colour sequences: the label, a space and the message without
/// error labels, broken into lines.
pub open spec fn spec_display_text(label: Seq<char>, stripped: Seq<char>) -> Seq<char> {
    spec_insert_newlines(
        label + seq![' '] + spec_remove_all(stripped, error_label()),
        MESSAGE_WIDTH as int,
    )
}

impl MessageView {
    /// What the message says.
    pub open spec fn text(self) -> Seq<char> {
        match self {
            MessageView::Error(text) => text,
            MessageView::Warning(text) => text,
            MessageView::Info(text) => text,
        }
    }

    /// What stands before the text of the message.
    pub open spec fn label(self) -> Seq<char> {
        match self {
            MessageView::Error(_) => "error:"@,
            MessageView::Warning(_) => "warning: "@,
            MessageView::Info(_) => ""@,
        }
    }

    /// The text without the colour sequences of a terminal; the text itself
    /// should the pattern of those sequences not compile.
    pub open spec fn stripped(self) -> Seq<char> {
        match matches_removed(ansi_pattern(), self.text()) {
            Some(text) => text,
            None => self.text(),
        }
    }
}

proof fn lemma_next_count(count: int, n: int)
    requires
        n > 0,
        count >= 0,
    ensures
        0 <= count % n < n,
        (count + 1) % n == (if count % n + 1 == n {
            0
        } else {
            count % n + 1
        }),
{
    lemma_fundamental_div_mod(count, n);
    let q = count / n;
    let r = count % n;
    assert(0 <= r < n) by (nonlinear_arith)
        requires
            n > 0,
            r == count % n,
    ;
    if r + 1 == n {
        assert(count + 1 == (q + 1) * n + 0) by (nonlinear_arith)
            requires
                count == n * q + r,
                r + 1 == n,
        ;
        lemma_fundamental_div_mod_converse(count + 1, n, q + 1, 0);
    } else {
        assert(count + 1 == q * n + (r + 1)) by (nonlinear_arith)
            requires
                count == n * q + r,
        ;
        lemma_fundamental_div_mod_converse(count + 1, n, q, r + 1);
    }
}

fn matches_at(chars: &Vec<char>, at: usize, pattern: &Vec<char>) -> (r: bool)
    requires
        at <= chars.len(),
    ensures
        r == (at + pattern.len() <= chars.len() && chars@.skip(at as int).take(
            pattern.len() as int,
        ) == pattern@),
{
    if pattern.len() > chars.len() - at {
        return false;
    }
    let ghost window = chars@.skip(at as int).take(pattern.len() as int);
    let mut j: usize = 0;
    while j < pattern.len()
        invariant
            j <= pattern.len(),
            at + pattern.len() <= chars.len(),
            window == chars@.skip(at as int).take(pattern.len() as int),
            forall|k: int| 0 <= k < j ==> window[k] == pattern@[k],
        decreases pattern.len() - j,
    {
        if chars[at + j] != pattern[j] {
            assert(window[j as int] == chars@[at + j]);
            return false;
        }
        assert(window[j as int] == chars@[at + j]);
        j = j + 1;
    }
    assert(window =~= pattern@);
    true
}

fn remove_all(chars: &Vec<char>, pattern: &Vec<char>) -> (out: Vec<char>)
    ensures
        out@ == spec_remove_all(chars@, pattern@),
{
    let mut out: Vec<char> = Vec::new();
    let n: usize = chars.len();
    let m: usize = pattern.len();
    let mut i: usize = 0;
    assert(chars@.skip(0) =~= chars@);
    assert(out@ + spec_remove_all(chars@, pattern@) =~= spec_remove_all(chars@, pattern@));
    while i < n
        invariant
            i <= n,
            n == chars.len(),
            m == pattern.len(),
            out@ + spec_remove_all(chars@.skip(i as int), pattern@) == spec_remove_all(
                chars@,
                pattern@,
            ),
        decreases n - i,
    {
        let ghost rest = chars@.skip(i as int);
        let ghost before = out@;
        if m > 0 && matches_at(chars, i, pattern) {
            assert(rest.skip(m as int) =~= chars@.skip(i + m));
            i = i + m;
        } else {
            out.push(chars[i]);
            proof {
                assert(rest[0] == chars@[i as int]);
                assert(rest.skip(1) =~= chars@.skip(i as int + 1));
                if m == 0 || rest.len() < m {
                    // Nothing occurs in what is left, nor in what is left behind its first character.
                    assert(spec_remove_all(rest, pattern@) == rest);
                    assert(spec_remove_all(rest.skip(1), pattern@) == rest.skip(1));
                    assert(rest =~= seq![rest[0]] + rest.skip(1));
                }
                assert(spec_remove_all(rest, pattern@) =~= seq![rest[0]] + spec_remove_all(
                    rest.skip(1),
                    pattern@,
                ));
                assert(out@ =~= before + seq![rest[0]]);
                assert(out@ + spec_remove_all(rest.skip(1), pattern@) =~= before
                    + spec_remove_all(rest, pattern@));
            }
            i = i + 1;
        }
    }
    assert(chars@.skip(n as int) =~= Seq::<char>::empty());
    assert(out@ =~= out@ + spec_remove_all(chars@.skip(n as int), pattern@));
    out
}

fn insert_breaks(chars: &Vec<char>, n: usize) -> (out: Vec<char>)
    requires
        n > 0,
    ensures
        out@ == spec_insert_newlines(chars@, n as int),
{
    let mut out: Vec<char> = Vec::new();
    let len: usize = chars.len();
    let fresh: usize = if n == 1 {
        0
    } else {
        1
    };
    let mut phase: usize = fresh;
    let ghost mut count: int = 1;
    let mut i: usize = 0;
    proof {
        lemma_next_count(0, n as int);
        assert(0int % (n as int) == 0) by {
            lemma_fundamental_div_mod_converse(0, n as int, 0, 0);
        }
        assert(chars@.skip(0) =~= chars@);
        assert(out@ + spec_insert_newlines(chars@, n as int) =~= spec_insert_newlines(
            chars@,
            n as int,
        ));
    }
    while i < len
        invariant
            i <= len,
            len == chars.len(),
            n > 0,
            count >= 1,
            phase == count % (n as int),
            fresh == 1int % (n as int),
            phase < n,
            out@ + spec_insert_newlines_from(chars@.skip(i as int), n as int, count)
                == spec_insert_newlines(chars@, n as int),
        decreases len - i,
    {
        let ghost rest = chars@.skip(i as int);
        let ghost before = out@;
        let c = chars[i];
        proof {
            assert(rest[0] == c);
            assert(rest.skip(1) =~= chars@.skip(i as int + 1));
            lemma_next_count(count, n as int);
        }
        if c == '\n' {
            out.push('\n');
            out.push(' ');
            out.push('|');
            out.push(' ');
            proof {
                assert(out@ =~= before + seq!['\n', ' ', '|', ' ']);
                assert(out@ + spec_insert_newlines_from(rest.skip(1), n as int, 1) =~= before
                    + spec_insert_newlines_from(rest, n as int, count));
                count = 1;
            }
            phase = fresh;
        } else {
            if phase == 0 {
                out.push('\n');
            }
            out.push(c);
            proof {
                let head = if count % (n as int) == 0 {
                    seq!['\n', c]
                } else {
                    seq![c]
                };
                assert(out@ =~= before + head);
                assert(out@ + spec_insert_newlines_from(rest.skip(1), n as int, count + 1)
                    =~= before + spec_insert_newlines_from(rest, n as int, count));
                count = count + 1;
            }
            phase = if phase + 1 == n {
                0
            } else {
                phase + 1
            };
        }
        i = i + 1;
    }
    assert(chars@.skip(len as int) =~= Seq::<char>::empty());
    assert(out@ =~= out@ + spec_insert_newlines_from(chars@.skip(len as int), n as int, count));
    out
}

impl Message {
    /// What the message says.
    pub fn text(&self) -> (r: &String)
        ensures
            r@ == self@.text(),
    {
        match self {
            Message::Error(x) => x,
            Message::Warning(x) => x,
            Message::Info(x) => x,
        }
    }

    /// What stands before the text of the message.
    pub fn label(&self) -> (r: &'static str)
        ensures
            r@ == self@.label(),
    {
        match self {
            Message::Error(_) => "error:",
            Message::Warning(_) => "warning: ",
            Message::Info(_) => "",
        }
    }

    /// Remove the colour and erase sequences of a terminal from a string.
    pub fn strip_ansi_codes(input: &str) -> (r: String)
        ensures
            r@ == (match matches_removed(ansi_pattern(), input@) {
                Some(text) => text,
                None => input@,
            }),
    {
        match remove_matches("\x1B\\[[0-9;]*[mK]", input) {
            Some(text) => text,
            None => input.to_owned(),
        }
    }

    /// Remove all `error: ` labels from the string.
    pub fn remove_error_labels(input: &str) -> (r: String)
        ensures
            r@ == spec_remove_all(input@, error_label()),
    {
        let chars = chars_of(input);
        let pattern = chars_of("error: ");
        let out = remove_all(&chars, &pattern);
        string_of(&out)
    }

    /// Format string to fit into a rectangle of specific width.
    pub fn insert_newlines(input: &str, n: usize) -> (r: String)
        requires
            n > 0,
        ensures
            r@ == spec_insert_newlines(input@, n as int),
    {
        let chars = chars_of(input);
        let out = insert_breaks(&chars, n);
        string_of(&out)
    }

    /// The text that a window shows for a label and a message that holds no
    /// colour sequences.
    pub fn compose(label: &str, stripped: &str) -> (r: String)
        ensures
            r@ == spec_display_text(label@, stripped@),
    {
        let mut chars = chars_of(label);
        chars.push(' ');
        let message = chars_of(stripped);
        let pattern = chars_of("error: ");
        let mut cleaned = remove_all(&message, &pattern);
        chars.append(&mut cleaned);
        assert(chars@ =~= label@ + seq![' '] + spec_remove_all(stripped@, error_label()));
        let out = insert_breaks(&chars, MESSAGE_WIDTH);
        string_of(&out)
    }

    /// The text that a window shows for the message.
    pub fn display_text(&self) -> (r: String)
        ensures
            r@ == spec_display_text(self@.label(), self@.stripped()),
    {
        let stripped = Self::strip_ansi_codes(self.text().as_str());
        Self::compose(self.label(), stripped.as_str())
    }
}

/// A single window.
#[derive(Debug, Clone)]
pub struct Window {
    /// The number under which the window was opened.
    pub id: usize,
    pub title: String,
    pub messages: Vec<Message>,
    pub open: bool,
}

/// All spawned windows, in the order in which they were opened.
#[derive(Debug, Clone)]
pub struct Windows {
    pub windows: Vec<Window>,
    pub total_spawned: usize,
}

/// The windows of a list that are open, in their order.
pub open spec fn spec_open_windows(windows: Seq<Window>) -> Seq<Window> {
    windows.filter(|w: Window| w.open)
}

impl Windows {
    /// Every window was opened under a number below the count of windows
    /// opened so far, and no two windows under the same number.
    pub open spec fn wf(&self) -> bool {
        &&& forall|i: int| 0 <= i < self.windows@.len() ==> (#[trigger] self.windows@[i]).id
            < self.total_spawned
        &&& forall|i: int, j: int|
            0 <= i < j < self.windows@.len() ==> (#[trigger] self.windows@[i]).id != (
            #[trigger] self.windows@[j]).id
    }
}

impl Default for Windows {
    fn default() -> (r: Self)
        ensures
            r.windows@.len() == 0,
            r.total_spawned == 0,
            r.wf(),
    {
        Windows { windows: Vec::new(), total_spawned: 0 }
    }
}

impl Windows {
    /// Whether one more window can be opened: the count of the windows
    /// opened so far can still grow.
    pub fn can_open(&self) -> (r: bool)
        ensures
            r == (self.total_spawned < usize::MAX),
    {
        self.total_spawned < usize::MAX
    }

    /// Open a new window with a single message under the next free number.
    fn open_window(&mut self, title: String, message: Message)
        requires
            old(self).total_spawned < usize::MAX,
        ensures
            old(self).wf() ==> final(self).wf(),
            final(self).total_spawned == old(self).total_spawned + 1,
            final(self).windows@.len() == old(self).windows@.len() + 1,
            final(self).windows@.take(old(self).windows@.len() as int) == old(self).windows@,
            final(self).windows@.last().id == old(self).total_spawned,
            final(self).windows@.last().open,
            final(self).windows@.last().title@ == title@,
            final(self).windows@.last().messages@.len() == 1,
            final(self).windows@.last().messages@[0]@ == message@,
    {
        let mut messages: Vec<Message> = Vec::new();
        messages.push(message);
        let window = Window { id: self.total_spawned, title, messages, open: true };
        self.windows.push(window);
        self.total_spawned = self.total_spawned + 1;
        assert(self.windows@.take(old(self).windows@.len() as int) =~= old(self).windows@);
    }

    /// Open a new error window.
    pub fn open_error_window(&mut self, error: String)
        requires
            old(self).total_spawned < usize::MAX,
        ensures
            old(self).wf() ==> final(self).wf(),
            final(self).total_spawned == old(self).total_spawned + 1,
            final(self).windows@.len() == old(self).windows@.len() + 1,
            final(self).windows@.take(old(self).windows@.len() as int) == old(self).windows@,
            final(self).windows@.last().id == old(self).total_spawned,
            final(self).windows@.last().open,
            final(self).windows@.last().title@ == "Error!"@,
            final(self).windows@.last().messages@.len() == 1,
            final(self).windows@.last().messages@[0]@ == MessageView::Error(error@),
    {
        self.open_window("Error!".to_owned(), Message::Error(error));
    }

    /// Open a new window that reports a success.
    pub fn open_success_window(&mut self, message: String)
        requires
            old(self).total_spawned < usize::MAX,
        ensures
            old(self).wf() ==> final(self).wf(),
            final(self).total_spawned == old(self).total_spawned + 1,
            final(self).windows@.len() == old(self).windows@.len() + 1,
            final(self).windows@.take(old(self).windows@.len() as int) == old(self).windows@,
            final(self).windows@.last().id == old(self).total_spawned,
            final(self).windows@.last().open,
            final(self).windows@.last().title@ == "Success!"@,
            final(self).windows@.last().messages@.len() == 1,
            final(self).windows@.last().messages@[0]@ == MessageView::Info(message@),
    {
        self.open_window("Success!".to_owned(), Message::Info(message));
    }

    /// Clean up closed windows: the windows that are open stay, in their
    /// order.
    pub fn remove_closed(&mut self)
        ensures
            old(self).wf() ==> final(self).wf(),
            final(self).total_spawned == old(self).total_spawned,
            final(self).windows@ == spec_open_windows(old(self).windows@),
    {
        let ghost before = self.windows@;
        let mut i: usize = 0;
        let ghost mut done: int = 0;
        proof {
            assert(before.take(0) =~= Seq::<Window>::empty());
            assert(before.skip(0) =~= before);
            assert(self.windows@.take(0) =~= Seq::<Window>::empty());
            assert(spec_open_windows(Seq::<Window>::empty()) =~= Seq::<Window>::empty());
        }
        while i < self.windows.len()
            invariant
                0 <= done <= before.len(),
                i <= self.windows@.len(),
                self.total_spawned == old(self).total_spawned,
                before == old(self).windows@,
                self.windows@.skip(i as int) == before.skip(done),
                self.windows@.take(i as int) == spec_open_windows(before.take(done)),
                self.windows@.len() - i == before.len() - done,
            decreases self.windows@.len() - i,
        {
            let ghost current = self.windows@;
            proof {
                assert(current.skip(i as int)[0] == current[i as int]);
                assert(before.skip(done)[0] == before[done]);
                assert(before.take(done + 1) =~= before.take(done).push(before[done]));
                lemma_open_windows_push(before.take(done), before[done]);
            }
            if self.windows[i].open {
                proof {
                    assert(current.take(i as int + 1) =~= current.take(i as int).push(
                        current[i as int],
                    ));
                    assert(current.skip(i as int + 1) =~= current.skip(i as int).skip(1));
                    assert(before.skip(done + 1) =~= before.skip(done).skip(1));
                    done = done + 1;
                }
                i = i + 1;
            } else {
                let _ = self.windows.remove(i);
                proof {
                    assert(self.windows@.take(i as int) =~= current.take(i as int));
                    assert(self.windows@.skip(i as int) =~= current.skip(i as int).skip(1));
                    assert(before.skip(done + 1) =~= before.skip(done).skip(1));
                    done = done + 1;
                }
            }
        }
        proof {
            assert(self.windows@.take(i as int) =~= self.windows@);
            assert(before.take(done) =~= before);
            if old(self).wf() {
                lemma_open_windows_keep_order(before, old(self).total_spawned);
            }
        }
    }
}

/// The open windows of a list with one more window at its end.
proof fn lemma_open_windows_push(windows: Seq<Window>, window: Window)
    ensures
        spec_open_windows(windows.push(window)) == (if window.open {
            spec_open_windows(windows).push(window)
        } else {
            spec_open_windows(windows)
        }),
{
    let keep = |w: Window| w.open;
    assert(windows.push(window).drop_last() =~= windows);
    reveal(Seq::filter);
    assert(spec_open_windows(windows.push(window)) =~= (if window.open {
        spec_open_windows(windows).push(window)
    } else {
        spec_open_windows(windows)
    }));
}

/// The open windows of a well-formed list are well-formed: their numbers are
/// below the count and differ from each other.
proof fn lemma_open_windows_keep_order(windows: Seq<Window>, total: usize)
    requires
        forall|i: int| 0 <= i < windows.len() ==> (#[trigger] windows[i]).id < total,
        forall|i: int, j: int|
            0 <= i < j < windows.len() ==> (#[trigger] windows[i]).id != (#[trigger] windows[j]).id,
    ensures
        forall|i: int|
            0 <= i < spec_open_windows(windows).len() ==> (#[trigger] spec_open_windows(
                windows,
            )[i]).id < total,
        forall|i: int, j: int|
            0 <= i < j < spec_open_windows(windows).len() ==> (#[trigger] spec_open_windows(
                windows,
            )[i]).id != (#[trigger] spec_open_windows(windows)[j]).id,
        spec_open_windows(windows).len() <= windows.len(),
    decreases windows.len(),
{
    if windows.len() == 0 {
        assert(spec_open_windows(windows) =~= Seq::<Window>::empty()) by {
            reveal(Seq::filter);
        }
    } else {
        let front = windows.drop_last();
        let last = windows.last();
        lemma_open_windows_keep_order(front, total);
        assert(front.push(last) =~= windows);
        lemma_open_windows_push(front, last);
        let kept = spec_open_windows(front);
        // every window that is kept is a window of the list in front
        assert forall|k: int| 0 <= k < kept.len() implies front.contains(#[trigger] kept[k]) by {
            assert(kept.contains(kept[k]));
            front.lemma_filter_contains_rev(|w: Window| w.open, kept[k]);
        }
        if last.open {
            assert forall|i: int, j: int|
                0 <= i < j < kept.push(last).len() implies (#[trigger] kept.push(last)[i]).id != (
            #[trigger] kept.push(last)[j]).id by {
                if j == kept.len() {
                    assert(front.contains(kept[i]));
                    let m = choose|m: int| 0 <= m < front.len() && front[m] == kept[i];
                    assert(windows[m] == kept[i]);
                    assert(windows[windows.len() - 1] == last);
                }
            }
        }
    }
}

} // verus!
