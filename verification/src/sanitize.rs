//! Removal of terminal escape sequences from captured output lines.

use vstd::prelude::*;

verus! {

/// The character that introduces an escape sequence.
pub const ESC: char = '\u{1b}';

/// An ASCII letter ends an escape sequence.
pub open spec fn is_terminator(c: char) -> bool {
    ('a' <= c && c <= 'z') || ('A' <= c && c <= 'Z')
}

/// Position `i` of `s` lies inside an escape sequence: an introducer stands
/// at or before `i`, and no terminator stands strictly between the two.
/// The introducer itself and the terminator that closes the sequence both
/// count as inside.
pub open spec fn in_escape_at(s: Seq<char>, i: int) -> bool {
    exists|j: int|
        0 <= j <= i && #[trigger] s[j] == ESC && forall|k: int|
            j < k < i ==> !is_terminator(#[trigger] s[k])
}

/// The characters of `s` that lie outside every escape sequence, in order.
pub open spec fn strip_ansi(s: Seq<char>) -> Seq<char>
    decreases s.len(),
{
    if s.len() == 0 {
        Seq::empty()
    } else if in_escape_at(s, s.len() - 1) {
        strip_ansi(s.drop_last())
    } else {
        strip_ansi(s.drop_last()).push(s.last())
    }
}

/// An escape sequence is still open after the last character of `s`.
pub open spec fn open_at_end(s: Seq<char>) -> bool {
    exists|j: int|
        0 <= j < s.len() && #[trigger] s[j] == ESC && forall|k: int|
            j < k < s.len() ==> !is_terminator(#[trigger] s[k])
}

/// Reading one more character `s[i]` opens an escape sequence if it is the
/// introducer, and otherwise keeps one open unless it is a terminator.
proof fn lemma_open_step(s: Seq<char>, i: int)
    requires
        0 <= i < s.len(),
    ensures
        open_at_end(s.take(i + 1)) == (s[i] == ESC || (open_at_end(s.take(i)) && !is_terminator(
            s[i],
        ))),
{
    let p = s.take(i);
    let q = s.take(i + 1);
    if open_at_end(q) {
        let j = choose|j: int|
            0 <= j < q.len() && #[trigger] q[j] == ESC && forall|k: int|
                j < k < q.len() ==> !is_terminator(#[trigger] q[k]);
        if j < i {
            assert(p[j] == ESC);
            assert forall|k: int| j < k < p.len() implies !is_terminator(#[trigger] p[k]) by {
                assert(q[k] == p[k]);
            }
            assert(!is_terminator(q[i]));
        }
    }
    if s[i] == ESC {
        assert(q[i] == ESC);
    }
    if open_at_end(p) && !is_terminator(s[i]) {
        let j = choose|j: int|
            0 <= j < p.len() && #[trigger] p[j] == ESC && forall|k: int|
                j < k < p.len() ==> !is_terminator(#[trigger] p[k]);
        assert(q[j] == ESC);
        assert forall|k: int| j < k < q.len() implies !is_terminator(#[trigger] q[k]) by {
            if k < i {
                assert(p[k] == q[k]);
            }
        }
    }
}

/// The last position of a sequence lies inside an escape sequence when it
/// holds the introducer or an escape sequence is open before it.
proof fn lemma_in_escape_last(s: Seq<char>)
    requires
        s.len() > 0,
    ensures
        in_escape_at(s, s.len() - 1) == (s.last() == ESC || open_at_end(s.drop_last())),
{
    let n = s.len() - 1;
    let p = s.drop_last();
    if in_escape_at(s, n) {
        let j = choose|j: int|
            0 <= j <= n && #[trigger] s[j] == ESC && forall|k: int|
                j < k < n ==> !is_terminator(#[trigger] s[k]);
        if j < n {
            assert(p[j] == ESC);
            assert forall|k: int| j < k < p.len() implies !is_terminator(#[trigger] p[k]) by {
                assert(s[k] == p[k]);
            }
        }
    }
    if s.last() == ESC {
        assert(s[n] == ESC);
    }
    if open_at_end(p) {
        let j = choose|j: int|
            0 <= j < p.len() && #[trigger] p[j] == ESC && forall|k: int|
                j < k < p.len() ==> !is_terminator(#[trigger] p[k]);
        assert(s[j] == ESC);
        assert forall|k: int| j < k < n implies !is_terminator(#[trigger] s[k]) by {
            assert(p[k] == s[k]);
        }
    }
}

/// One step of the left-to-right scan: `s[i]` is dropped when it is the
/// introducer or an escape sequence is open before it, and kept otherwise.
proof fn lemma_strip_step(s: Seq<char>, i: int)
    requires
        0 <= i < s.len(),
    ensures
        strip_ansi(s.take(i + 1)) == if s[i] == ESC || open_at_end(s.take(i)) {
            strip_ansi(s.take(i))
        } else {
            strip_ansi(s.take(i)).push(s[i])
        },
{
    let q = s.take(i + 1);
    assert(q.drop_last() == s.take(i));
    assert(q.last() == s[i]);
    lemma_in_escape_last(q);
}

/// The scan written over a sequence and the character appended to it.
proof fn lemma_push(x: Seq<char>, c: char)
    ensures
        open_at_end(x.push(c)) == (c == ESC || (open_at_end(x) && !is_terminator(c))),
        strip_ansi(x.push(c)) == if c == ESC || open_at_end(x) {
            strip_ansi(x)
        } else {
            strip_ansi(x).push(c)
        },
{
    let s = x.push(c);
    assert(s.take(x.len() as int) == x);
    assert(s.take(x.len() as int + 1) == s);
    lemma_open_step(s, x.len() as int);
    lemma_strip_step(s, x.len() as int);
}

/// Where a scan of a line stands between two characters.
pub enum Scan {
    /// In text that is copied.
    Copying,
    /// Right behind an introducer: a bracket here is skipped.
    Introduced,
    /// Inside an escape sequence, discarding up to its terminator.
    Discarding,
}

/// The line sanitized by one scan from the left, which starts in the
/// state `state`: text is copied; an introducer starts an escape
/// sequence; a bracket right behind the introducer is skipped; all that
/// follows is discarded up to and with the first ASCII letter.
pub open spec fn scan(s: Seq<char>, state: Scan) -> Seq<char>
    decreases s.len(),
{
    if s.len() == 0 {
        Seq::empty()
    } else if s[0] == ESC {
        scan(s.skip(1), Scan::Introduced)
    } else {
        match state {
            Scan::Copying => seq![s[0]] + scan(s.skip(1), Scan::Copying),
            Scan::Introduced => if s[0] == '[' {
                scan(s.skip(1), Scan::Discarding)
            } else if is_terminator(s[0]) {
                scan(s.skip(1), Scan::Copying)
            } else {
                scan(s.skip(1), Scan::Discarding)
            },
            Scan::Discarding => if is_terminator(s[0]) {
                scan(s.skip(1), Scan::Copying)
            } else {
                scan(s.skip(1), Scan::Discarding)
            },
        }
    }
}

/// A scan that has read `x` and stands in `state` goes on over `y` to
/// what the sanitized whole holds behind the sanitized `x`.
proof fn lemma_scan_from(x: Seq<char>, y: Seq<char>, state: Scan)
    requires
        state is Copying <==> !open_at_end(x),
    ensures
        strip_ansi(x + y) == strip_ansi(x) + scan(y, state),
    decreases y.len(),
{
    if y.len() == 0 {
        assert(x + y == x);
        assert(strip_ansi(x) + scan(y, state) == strip_ansi(x));
    } else {
        let c = y[0];
        let rest = y.skip(1);
        let next = if c == ESC {
            Scan::Introduced
        } else {
            match state {
                Scan::Copying => Scan::Copying,
                Scan::Introduced => if c != '[' && is_terminator(c) {
                    Scan::Copying
                } else {
                    Scan::Discarding
                },
                Scan::Discarding => if is_terminator(c) {
                    Scan::Copying
                } else {
                    Scan::Discarding
                },
            }
        };
        lemma_push(x, c);
        assert(x.push(c) + rest == x + y);
        lemma_scan_from(x.push(c), rest, next);
        if c != ESC && state is Copying {
            assert(strip_ansi(x).push(c) + scan(rest, next) == strip_ansi(x) + (seq![c] + scan(
                rest,
                next,
            )));
        }
    }
}

/// The characters outside every escape sequence are what one scan from
/// the left copies: the bracket behind an introducer needs no rule of
/// its own.
pub proof fn lemma_scan_agrees(s: Seq<char>)
    ensures
        scan(s, Scan::Copying) == strip_ansi(s),
{
    let none = Seq::<char>::empty();
    lemma_scan_from(none, s, Scan::Copying);
    assert(none + s == s);
    assert(strip_ansi(none) + scan(s, Scan::Copying) == scan(s, Scan::Copying));
}

/// An introducer followed only by characters that do not end an escape
/// sequence: an escape sequence whose terminator has not come yet.
pub open spec fn unterminated_escape(t: Seq<char>) -> bool {
    &&& t.len() >= 1
    &&& t[0] == ESC
    &&& forall|k: int| 0 < k < t.len() ==> !is_terminator(#[trigger] t[k])
}

/// A complete escape sequence: the introducer, any number of characters
/// that are not ASCII letters (a bracket, parameters), and one ASCII letter.
pub open spec fn well_formed_escape(e: Seq<char>) -> bool {
    &&& e.len() >= 2
    &&& unterminated_escape(e.drop_last())
    &&& is_terminator(e.last())
}

/// Text that holds no introducer.
pub open spec fn plain_text(s: Seq<char>) -> bool {
    forall|i: int| 0 <= i < s.len() ==> #[trigger] s[i] != ESC
}

/// After text in which no escape sequence is left open, what follows is
/// sanitized as if it stood alone.
pub proof fn lemma_strip_concat(x: Seq<char>, b: Seq<char>)
    requires
        !open_at_end(x),
    ensures
        strip_ansi(x + b) == strip_ansi(x) + strip_ansi(b),
        open_at_end(x + b) == open_at_end(b),
    decreases b.len(),
{
    if b.len() == 0 {
        assert(x + b == x);
        assert(strip_ansi(x) + strip_ansi(b) == strip_ansi(x));
    } else {
        let init = b.drop_last();
        let c = b.last();
        lemma_strip_concat(x, init);
        assert(x + b == (x + init).push(c));
        assert(b == init.push(c));
        lemma_push(x + init, c);
        lemma_push(init, c);
        assert((strip_ansi(x) + strip_ansi(init)).push(c) == strip_ansi(x) + strip_ansi(init).push(
            c,
        ));
    }
}

/// An escape sequence that is cut off before its terminator is dropped
/// whole, wherever it stands, and is still open at its end.
pub proof fn lemma_unterminated_escape_dropped(a: Seq<char>, t: Seq<char>)
    requires
        unterminated_escape(t),
    ensures
        strip_ansi(a + t) == strip_ansi(a),
        open_at_end(a + t),
    decreases t.len(),
{
    let init = t.drop_last();
    let c = t.last();
    assert(a + t == (a + init).push(c));
    lemma_push(a + init, c);
    if t.len() == 1 {
        assert(a + init == a);
    } else {
        assert(init[0] == t[0]);
        assert forall|k: int| 0 < k < init.len() implies !is_terminator(#[trigger] init[k]) by {
            assert(init[k] == t[k]);
        }
        lemma_unterminated_escape_dropped(a, init);
        assert(!is_terminator(t[t.len() - 1]));
    }
}

/// Every complete escape sequence is removed, and the text on both sides
/// of it comes out as it would without the sequence between.
pub proof fn lemma_escape_sequence_removed(a: Seq<char>, e: Seq<char>, b: Seq<char>)
    requires
        well_formed_escape(e),
    ensures
        strip_ansi(a + e + b) == strip_ansi(a) + strip_ansi(b),
{
    let t = e.drop_last();
    lemma_unterminated_escape_dropped(a, t);
    assert(a + e == (a + t).push(e.last()));
    lemma_push(a + t, e.last());
    lemma_strip_concat(a + e, b);
}

/// Text without an introducer comes out unchanged, whatever characters it
/// holds, and leaves no escape sequence open.
pub proof fn lemma_plain_text_unchanged(s: Seq<char>)
    requires
        plain_text(s),
    ensures
        strip_ansi(s) == s,
        !open_at_end(s),
    decreases s.len(),
{
    if s.len() > 0 {
        let init = s.drop_last();
        assert forall|i: int| 0 <= i < init.len() implies #[trigger] init[i] != ESC by {
            assert(init[i] == s[i]);
        }
        lemma_plain_text_unchanged(init);
        assert(s == init.push(s.last()));
        assert(s[s.len() - 1] != ESC);
        lemma_push(init, s.last());
    }
}

/// The output never holds an introducer, and is never longer than the
/// input.
pub proof fn lemma_output_is_plain(s: Seq<char>)
    ensures
        plain_text(strip_ansi(s)),
        strip_ansi(s).len() <= s.len(),
    decreases s.len(),
{
    if s.len() > 0 {
        let init = s.drop_last();
        lemma_output_is_plain(init);
        assert(s == init.push(s.last()));
        lemma_push(init, s.last());
    }
}

/// Sanitizing a second time changes nothing.
pub proof fn lemma_strip_idempotent(s: Seq<char>)
    ensures
        strip_ansi(strip_ansi(s)) == strip_ansi(s),
{
    lemma_output_is_plain(s);
    lemma_plain_text_unchanged(strip_ansi(s));
}

fn is_letter(c: char) -> (r: bool)
    ensures
        r == is_terminator(c),
{
    (c >= 'a' && c <= 'z') || (c >= 'A' && c <= 'Z')
}

/// Returns a copy of `s` without its escape sequences. A bracket behind
/// the introducer needs no case of its own: it is not a letter, so it is
/// dropped like every other character of the sequence.
pub fn strip_ansi_codes(s: &str) -> (result: String)
    ensures
        result@ == strip_ansi(s@),
{
    let mut result = String::new();
    let mut in_escape = false;
    for c in it: s.chars()
        invariant
            it.seq() == s@,
            result@ == strip_ansi(s@.take(it.index() as int)),
            in_escape == open_at_end(s@.take(it.index() as int)),
    {
        proof {
            lemma_open_step(s@, it.index() as int);
            lemma_strip_step(s@, it.index() as int);
        }
        if c == ESC {
            in_escape = true;
        } else if in_escape {
            in_escape = !is_letter(c);
        } else {
            result.push(c);
        }
    }
    assert(s@.take(s@.len() as int) == s@);
    result
}

} // verus!
