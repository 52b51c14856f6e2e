//! The request queue of the notification server. Requests are appended as
//! they arrive; the server takes the most recent one and drops the rest, so
//! that a burst of requests plays a single sound.

use vstd::prelude::*;

verus! {

/// Sound paths waiting to be played, oldest first.
pub struct RequestQueue {
    sounds: Vec<String>,
}

impl View for RequestQueue {
    type V = Seq<Seq<char>>;

    closed spec fn view(&self) -> Seq<Seq<char>> {
        Seq::new(self.sounds@.len(), |i: int| self.sounds@[i]@)
    }
}

/// The request that a drain honours: the one that arrived last.
pub open spec fn latest(queue: Seq<Seq<char>>) -> Option<Seq<char>> {
    if queue.len() == 0 {
        None
    } else {
        Some(queue.last())
    }
}

impl RequestQueue {
    /// A queue with nothing in it.
    pub fn new() -> (queue: Self)
        ensures
            queue@ == Seq::<Seq<char>>::empty(),
    {
        let queue = RequestQueue { sounds: Vec::new() };
        assert(queue@ =~= Seq::<Seq<char>>::empty());
        queue
    }

    /// Appends a request behind all that are waiting.
    pub fn enqueue(&mut self, sound: String)
        ensures
            final(self)@ == old(self)@.push(sound@),
    {
        self.sounds.push(sound);
        assert(self@ =~= old(self)@.push(sound@));
    }

    /// Number of requests waiting.
    pub fn len(&self) -> (n: usize)
        ensures
            n == self@.len(),
    {
        self.sounds.len()
    }

    /// Whether nothing is waiting.
    pub fn is_empty(&self) -> (empty: bool)
        ensures
            empty == (self@.len() == 0),
    {
        self.sounds.len() == 0
    }

    /// Takes the most recent request and drops every older one. The queue is
    /// empty afterwards, whatever it held.
    pub fn take_latest(&mut self) -> (sound: Option<String>)
        ensures
            final(self)@ == Seq::<Seq<char>>::empty(),
            match sound {
                Some(s) => latest(old(self)@) == Some(s@),
                None => latest(old(self)@) is None,
            },
    {
        let sound = self.sounds.pop();
        self.sounds.clear();
        assert(self@ =~= Seq::<Seq<char>>::empty());
        sound
    }
}

/// What can happen to the queue: a request arrives, or the server drains it.
pub enum QueueEvent {
    Enqueue(Seq<char>),
    Drain,
}

/// The sounds that the server plays, in order, when the events happen to a
/// queue one after the other: each drain plays the latest request waiting,
/// if any, and forgets the others.
pub open spec fn played(queue: Seq<Seq<char>>, events: Seq<QueueEvent>) -> Seq<Seq<char>>
    decreases events.len(),
{
    if events.len() == 0 {
        Seq::empty()
    } else {
        let rest = events.drop_first();
        match events[0] {
            QueueEvent::Enqueue(sound) => played(queue.push(sound), rest),
            QueueEvent::Drain => match latest(queue) {
                Some(sound) => seq![sound] + played(Seq::empty(), rest),
                None => played(Seq::empty(), rest),
            },
        }
    }
}

/// A burst: every sound is enqueued, then the server drains once.
pub open spec fn burst(sounds: Seq<Seq<char>>) -> Seq<QueueEvent> {
    Seq::new(sounds.len(), |i: int| QueueEvent::Enqueue(sounds[i])).push(QueueEvent::Drain)
}

/// The server keeps up: it drains after every single request.
pub open spec fn paced(sounds: Seq<Seq<char>>) -> Seq<QueueEvent> {
    Seq::new(
        2 * sounds.len(),
        |i: int|
            if i % 2 == 0 {
                QueueEvent::Enqueue(sounds[i / 2])
            } else {
                QueueEvent::Drain
            },
    )
}

proof fn lemma_enqueues_then_drain(queue: Seq<Seq<char>>, sounds: Seq<Seq<char>>)
    ensures
        played(queue, burst(sounds)) == match latest(queue + sounds) {
            Some(sound) => seq![sound],
            None => Seq::empty(),
        },
    decreases sounds.len(),
{
    let events = burst(sounds);
    if sounds.len() == 0 {
        assert(queue + sounds =~= queue);
        assert(events.drop_first() =~= Seq::<QueueEvent>::empty());
        assert(played(Seq::empty(), events.drop_first()) =~= Seq::<Seq<char>>::empty());
        match latest(queue) {
            Some(sound) => {
                assert(seq![sound] + Seq::<Seq<char>>::empty() =~= seq![sound]);
            },
            None => {},
        }
    } else {
        assert(events.drop_first() =~= burst(sounds.drop_first()));
        assert(queue.push(sounds[0]) + sounds.drop_first() =~= queue + sounds);
        lemma_enqueues_then_drain(queue.push(sounds[0]), sounds.drop_first());
    }
}

/// Coalescing: when several requests arrive before the server drains the
/// queue, exactly one sound is played, and it is the one requested last.
pub proof fn lemma_burst_plays_last(sounds: Seq<Seq<char>>)
    requires
        sounds.len() > 0,
    ensures
        played(Seq::empty(), burst(sounds)) == seq![sounds.last()],
{
    lemma_enqueues_then_drain(Seq::empty(), sounds);
    assert(Seq::<Seq<char>>::empty() + sounds =~= sounds);
}

/// When the server drains the queue after every request, every request is
/// played, in the order of arrival.
pub proof fn lemma_paced_plays_all(sounds: Seq<Seq<char>>)
    ensures
        played(Seq::empty(), paced(sounds)) == sounds,
    decreases sounds.len(),
{
    let events = paced(sounds);
    if sounds.len() == 0 {
        assert(played(Seq::empty(), events) =~= sounds);
    } else {
        let after_enqueue = events.drop_first();
        let after_drain = after_enqueue.drop_first();
        let tail = sounds.drop_first();
        assert(events[0] == QueueEvent::Enqueue(sounds[0]));
        assert(after_enqueue[0] == events[1]);
        assert(after_enqueue[0] == QueueEvent::Drain);
        assert forall|i: int| 0 <= i < after_drain.len() implies after_drain[i] == paced(tail)[i] by {
            assert(after_drain[i] == events[i + 2]);
            assert((i + 2) / 2 == i / 2 + 1);
            assert((i + 2) % 2 == i % 2);
        }
        assert(after_drain =~= paced(tail));
        let queue = Seq::<Seq<char>>::empty().push(sounds[0]);
        assert(latest(queue) == Some(sounds[0]));
        lemma_paced_plays_all(tail);
        assert(played(Seq::empty(), events) == played(queue, after_enqueue));
        assert(played(queue, after_enqueue) == seq![sounds[0]] + played(
            Seq::empty(),
            after_drain,
        ));
        assert(seq![sounds[0]] + tail =~= sounds);
    }
}

} // verus!
