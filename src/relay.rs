use vstd::prelude::*;
use std::collections::VecDeque;
use crate::text::{contains_seq, contains_text};

verus! {

/// The marker whose presence in a snapshot asks the overlay to close.
pub open spec fn exit_marker() -> Seq<char> {
    ".;.;.;"@
}

/// Whether a snapshot asks the overlay to close: it holds the exit marker.
pub fn is_exit_signal(text: &str) -> (r: bool)
    ensures
        r == contains_seq(text@, exit_marker()),
{
    contains_text(text, ".;.;.;")
}

/// What the render loop does on one turn.
pub enum Frame {
    /// Draw this text.
    Draw(String),
    /// Leave the draw loop.
    Exit,
}

/// The text a turn of the render loop is about: the newly received snapshot,
/// or the one shown last when nothing new arrived.
pub open spec fn shown_text(previous: Seq<char>, polled: Option<Seq<char>>) -> Seq<char> {
    match polled {
        Some(s) => s,
        None => previous,
    }
}

/// Decides one turn of the render loop from the text shown last and what the
/// poll brought: leave when the text holds the exit marker, else draw it.
pub fn next_frame(previous: &String, polled: Option<String>) -> (r: Frame)
    ensures
        ({
            let shown = shown_text(
                previous@,
                match polled {
                    Some(s) => Some(s@),
                    None => None,
                },
            );
            &&& contains_seq(shown, exit_marker()) ==> r is Exit
            &&& !contains_seq(shown, exit_marker()) ==> (r matches Frame::Draw(t) && t@ == shown)
        }),
{
    let shown = match polled {
        Some(s) => s,
        None => previous.clone(),
    };
    if is_exit_signal(shown.as_str()) {
        Frame::Exit
    } else {
        Frame::Draw(shown)
    }
}

/// The hand-off of snapshots from the key listener to the render loop: a
/// first-in, first-out queue that neither side waits on.
pub struct EventRelay {
    pending: VecDeque<String>,
}

impl View for EventRelay {
    type V = Seq<Seq<char>>;

    /// The snapshots sent and not yet received, oldest first.
    closed spec fn view(&self) -> Seq<Seq<char>> {
        self.pending@.map_values(|s: String| s@)
    }
}

impl EventRelay {
    /// A relay with nothing pending.
    pub fn new() -> (r: EventRelay)
        ensures
            r@ == Seq::<Seq<char>>::empty(),
    {
        EventRelay { pending: VecDeque::new() }
    }

    /// Queues a snapshot behind those not yet received.
    pub fn send(&mut self, snapshot: String)
        ensures
            final(self)@ == old(self)@.push(snapshot@),
    {
        self.pending.push_back(snapshot);
        assert(self@ =~= old(self)@.push(snapshot@));
    }

    /// Takes the oldest pending snapshot, if any; with nothing pending it
    /// returns `None` and changes nothing.
    pub fn try_receive(&mut self) -> (r: Option<String>)
        ensures
            old(self)@.len() == 0 ==> r is None && final(self)@ == old(self)@,
            old(self)@.len() > 0 ==> (r matches Some(s) && s@ == old(self)@[0]),
            old(self)@.len() > 0 ==> final(self)@ == old(self)@.drop_first(),
    {
        let r = self.pending.pop_front();
        proof {
            if old(self)@.len() > 0 {
                assert(self@ =~= old(self)@.drop_first());
            }
        }
        r
    }

    /// How many snapshots are waiting.
    pub fn pending_count(&self) -> (r: usize)
        ensures
            r == self@.len(),
    {
        self.pending.len()
    }
}

} // verus!
