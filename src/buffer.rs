use vstd::prelude::*;
use crate::keys::{backspace_glyph, get_string, glyph_of, Key};
use crate::text::same_text;

verus! {

/// Beyond this many characters the oldest ones are dropped, this many at once.
pub const MAX_RETAINED: usize = 500;

/// How many trailing characters the overlay shows.
pub const SHOW_CHARACTERS: usize = 10;

/// The text after the edit itself: the erase glyph removes the last
/// character, if there is one; any other glyph is appended.
pub open spec fn edited(c: Seq<char>, g: Seq<char>) -> Seq<char> {
    if g == backspace_glyph() {
        if c.len() == 0 {
            c
        } else {
            c.drop_last()
        }
    } else {
        c + g
    }
}

/// Text that would be empty becomes a single space.
pub open spec fn guard_underflow(c: Seq<char>) -> Seq<char> {
    if c.len() == 0 {
        seq![' ']
    } else {
        c
    }
}

/// Text longer than `MAX_RETAINED` loses its first `MAX_RETAINED` characters.
pub open spec fn guard_overflow(c: Seq<char>) -> Seq<char> {
    if c.len() > MAX_RETAINED {
        c.subrange(MAX_RETAINED as int, c.len() as int)
    } else {
        c
    }
}

/// The accumulated text after one glyph.
pub open spec fn step(c: Seq<char>, g: Seq<char>) -> Seq<char> {
    guard_overflow(guard_underflow(edited(c, g)))
}

/// The accumulated text after a run of glyphs, applied in order.
pub open spec fn replay(c: Seq<char>, gs: Seq<Seq<char>>) -> Seq<char>
    decreases gs.len(),
{
    if gs.len() == 0 {
        c
    } else {
        step(replay(c, gs.drop_last()), gs.last())
    }
}

/// How many characters of `c` are visible.
pub open spec fn visible_len(c: Seq<char>) -> nat {
    if c.len() < SHOW_CHARACTERS {
        c.len()
    } else {
        SHOW_CHARACTERS as nat
    }
}

/// The visible window: the trailing `SHOW_CHARACTERS` characters of `c`,
/// or all of it when it is shorter.
pub open spec fn window_of(c: Seq<char>) -> Seq<char> {
    c.subrange(c.len() - visible_len(c), c.len() as int)
}

/// Every edit leaves the text non-empty, whatever it was before.
pub proof fn lemma_step_nonempty(c: Seq<char>, g: Seq<char>)
    ensures
        step(c, g).len() > 0,
{
}

/// After any non-empty run of glyphs the text is non-empty.
pub proof fn lemma_replay_nonempty(c: Seq<char>, gs: Seq<Seq<char>>)
    requires
        gs.len() > 0,
    ensures
        replay(c, gs).len() > 0,
{
    lemma_step_nonempty(replay(c, gs.drop_last()), gs.last());
}

/// Any run of erases, however long, on an empty text leaves exactly one space.
pub proof fn lemma_erases_from_empty(n: nat)
    requires
        n >= 1,
    ensures
        replay(Seq::<char>::empty(), Seq::new(n, |i: int| backspace_glyph())) == seq![' '],
    decreases n,
{
    let gs = Seq::new(n, |i: int| backspace_glyph());
    assert(gs.drop_last() == Seq::new((n - 1) as nat, |i: int| backspace_glyph()));
    assert(gs.last() == backspace_glyph());
    if n > 1 {
        lemma_erases_from_empty((n - 1) as nat);
        assert(seq![' '].drop_last() == Seq::<char>::empty());
    } else {
        assert(replay(Seq::<char>::empty(), gs.drop_last()) == Seq::<char>::empty());
    }
}

/// The overflow trim: text of more than `MAX_RETAINED` characters after the
/// edit loses exactly its first `MAX_RETAINED` characters, in one go; shorter
/// text is kept whole.
pub proof fn lemma_overflow_trim(c: Seq<char>, g: Seq<char>)
    ensures
        ({
            let pre = guard_underflow(edited(c, g));
            &&& pre.len() > MAX_RETAINED ==> step(c, g) == pre.subrange(
                MAX_RETAINED as int,
                pre.len() as int,
            ) && step(c, g).len() == pre.len() - MAX_RETAINED
            &&& pre.len() <= MAX_RETAINED ==> step(c, g) == pre
        }),
{
}

/// Text within `MAX_RETAINED` characters stays within it after any glyph of
/// at most `MAX_RETAINED` characters: the trim fires once per crossing.
pub proof fn lemma_retained_bound(c: Seq<char>, g: Seq<char>)
    requires
        c.len() <= MAX_RETAINED,
        g.len() <= MAX_RETAINED,
    ensures
        step(c, g).len() <= MAX_RETAINED,
{
}

/// The window is the trailing `min(SHOW_CHARACTERS, len)` characters of the
/// text, in their order: the text is what comes before it followed by it.
pub proof fn lemma_window_is_suffix(c: Seq<char>)
    ensures
        window_of(c).len() == if c.len() < SHOW_CHARACTERS {
            c.len()
        } else {
            SHOW_CHARACTERS as nat
        },
        c == c.subrange(0, c.len() - window_of(c).len()) + window_of(c),
        forall|i: int|
            0 <= i < window_of(c).len() ==> #[trigger] window_of(c)[i] == c[c.len()
                - window_of(c).len() + i],
{
    assert(c == c.subrange(0, c.len() - window_of(c).len()) + window_of(c));
}

/// Typing the same one-character glyph `n` times on an empty text leaves
/// `(n - 1) % MAX_RETAINED + 1` copies of it.
pub proof fn lemma_repeated_char(ch: char, n: nat)
    requires
        n >= 1,
    ensures
        replay(Seq::<char>::empty(), Seq::new(n, |i: int| seq![ch])) == Seq::new(
            ((n - 1) as nat % (MAX_RETAINED as nat) + 1) as nat,
            |i: int| ch,
        ),
    decreases n,
{
    reveal_strlit("backspace");
    assert(seq![ch] != backspace_glyph()) by {
        assert(seq![ch].len() != backspace_glyph().len());
    }
    let gs = Seq::new(n, |i: int| seq![ch]);
    assert(gs.drop_last() == Seq::new((n - 1) as nat, |i: int| seq![ch]));
    assert(gs.last() == seq![ch]);
    if n == 1 {
        assert(replay(Seq::<char>::empty(), gs.drop_last()) == Seq::<char>::empty());
        assert(Seq::<char>::empty() + seq![ch] == Seq::new(1, |i: int| ch));
    } else {
        let m = (n - 1) as nat;
        lemma_repeated_char(ch, m);
        let k = ((m - 1) as nat % 500 + 1) as nat;
        let prev = Seq::new(k, |i: int| ch);
        assert(prev + seq![ch] == Seq::new(k + 1, |i: int| ch));
        if k == 500 {
            assert(m % 500 == 0) by {
                assert((m - 1) as nat % 500 == 499);
            }
            assert(Seq::new(k + 1, |i: int| ch).subrange(500, 501) == Seq::new(1, |i: int| ch));
        } else {
            assert(m % 500 == (m - 1) as nat % 500 + 1) by {
                assert((m - 1) as nat % 500 < 499);
            }
        }
    }
}

/// The rolling text behind the overlay.
pub struct DisplayBuffer {
    content: String,
}

impl View for DisplayBuffer {
    type V = Seq<char>;

    closed spec fn view(&self) -> Seq<char> {
        self.content@
    }
}

impl DisplayBuffer {
    /// A buffer holding no text yet.
    pub fn new() -> (r: DisplayBuffer)
        ensures
            r@ == Seq::<char>::empty(),
    {
        DisplayBuffer { content: String::new() }
    }

    /// The whole accumulated text.
    pub fn content(&self) -> (r: String)
        ensures
            r@ == self@,
    {
        self.content.clone()
    }

    /// The trailing characters that the overlay shows.
    pub fn visible(&self) -> (r: String)
        ensures
            r@ == window_of(self@),
    {
        let n = self.content.as_str().unicode_len();
        let start: usize = if n > SHOW_CHARACTERS {
            n - SHOW_CHARACTERS
        } else {
            0
        };
        String::from_str(self.content.as_str().substring_char(start, n))
    }

    /// Applies one glyph to the text and returns the visible window after it.
    pub fn apply(&mut self, glyph: &str) -> (r: String)
        ensures
            final(self)@ == step(old(self)@, glyph@),
            final(self)@.len() > 0,
            r@ == window_of(final(self)@),
    {
        proof {
            reveal_strlit("backspace");
            reveal_strlit(" ");
        }
        if same_text(glyph, "backspace") {
            let n = self.content.as_str().unicode_len();
            if n > 0 {
                let shorter = String::from_str(self.content.as_str().substring_char(0, n - 1));
                self.content = shorter;
            }
        } else {
            self.content.append(glyph);
        }
        assert(self@ == edited(old(self)@, glyph@));
        if self.content.as_str().unicode_len() == 0 {
            self.content = String::from_str(" ");
        }
        assert(self@ == guard_underflow(edited(old(self)@, glyph@)));
        let n = self.content.as_str().unicode_len();
        if n > MAX_RETAINED {
            let kept = String::from_str(self.content.as_str().substring_char(MAX_RETAINED, n));
            self.content = kept;
        }
        self.visible()
    }

    /// Applies the glyph of a key press and returns the visible window after it.
    pub fn press(&mut self, key: Key) -> (r: String)
        ensures
            final(self)@ == step(old(self)@, glyph_of(key)),
            final(self)@.len() > 0,
            r@ == window_of(final(self)@),
    {
        let glyph = get_string(key);
        self.apply(glyph.as_str())
    }
}

} // verus!
