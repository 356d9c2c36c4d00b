//! Typing a text while the model still writes it.

use vstd::prelude::*;

verus! {

/// Appends the first `count` characters of `delta` to `typed`, or all of them
/// if there are fewer, and says how many they were.
pub fn append_typed_prefix(typed: &mut String, delta: &str, count: usize) -> (r: usize)
    ensures
        r as int == (if count < delta@.len() {
            count as int
        } else {
            delta@.len() as int
        }),
        final(typed)@ == old(typed)@ + delta@.take(r as int),
{
    let len: usize = delta.unicode_len();
    let n: usize = if count < len {
        count
    } else {
        len
    };
    proof {
        assert(delta@.subrange(0, n as int) =~= delta@.take(n as int));
    }
    typed.append(delta.substring_char(0, n));
    n
}

/// What came of typing a piece of text.
#[derive(Debug)]
pub enum TypeOutcome {
    Typed,
    /// Only the first characters arrived.
    Partial { typed_chars: usize, reason: String },
    Failed(String),
}

/// How many characters of a piece of `len` characters arrived.
pub open spec fn arrived(outcome: TypeOutcome, len: nat) -> nat {
    match outcome {
        TypeOutcome::Typed => len,
        TypeOutcome::Partial { typed_chars, .. } => if typed_chars < len {
            typed_chars as nat
        } else {
            len
        },
        TypeOutcome::Failed(_) => 0,
    }
}

/// The reason why not all of it arrived.
pub open spec fn failure_of(outcome: TypeOutcome) -> Option<String> {
    match outcome {
        TypeOutcome::Typed => None,
        TypeOutcome::Partial { reason, .. } => Some(reason),
        TypeOutcome::Failed(reason) => Some(reason),
    }
}

/// Moves what arrived of `pending` over to `typed` and forgets the rest.
pub fn flush_streaming_insert_buffer(
    pending: &mut String,
    typed: &mut String,
    outcome: TypeOutcome,
) -> (r: Option<String>)
    ensures
        final(pending)@ == Seq::<char>::empty(),
        final(typed)@ == old(typed)@ + old(pending)@.take(
            arrived(outcome, old(pending)@.len()) as int,
        ),
        r == failure_of(outcome),
{
    proof {
        assert(pending@.take(pending@.len() as int) =~= pending@);
        assert(typed@ + pending@.take(0) =~= typed@);
    }
    let failure: Option<String> = match outcome {
        TypeOutcome::Typed => {
            typed.append(pending.as_str());
            None
        },
        TypeOutcome::Partial { typed_chars, reason } => {
            append_typed_prefix(typed, pending.as_str(), typed_chars);
            Some(reason)
        },
        TypeOutcome::Failed(reason) => Some(reason),
    };
    *pending = String::new();
    failure
}

/// A text on its way to the cursor.
pub struct StreamingInsert {
    /// Waits to be typed.
    pub pending: String,
    /// Stands at the cursor.
    pub typed: String,
    /// Why nothing more is typed.
    pub failure: Option<String>,
    /// Everything the model has sent.
    pub received: Ghost<Seq<char>>,
}

impl StreamingInsert {
    /// What stands at the cursor is a prefix of what the model has sent; as
    /// long as nothing fails, the rest of it waits.
    pub open spec fn wf(self) -> bool {
        &&& self.typed@.is_prefix_of(self.received@)
        &&& self.failure is None ==> self.received@ == self.typed@ + self.pending@
        &&& self.failure is Some ==> self.pending@.len() == 0
    }

    pub fn new() -> (r: StreamingInsert)
        ensures
            r.wf(),
            r.pending@.len() == 0,
            r.typed@.len() == 0,
            r.failure is None,
            r.received@ == Seq::<char>::empty(),
    {
        StreamingInsert {
            pending: String::new(),
            typed: String::new(),
            failure: None,
            received: Ghost(Seq::empty()),
        }
    }

    /// The model sends `delta`. After a failure it is only taken note of.
    pub fn receive(&mut self, delta: &str)
        requires
            old(self).wf(),
        ensures
            final(self).wf(),
            final(self).received@ == old(self).received@ + delta@,
            final(self).typed@ == old(self).typed@,
            final(self).failure == old(self).failure,
            final(self).pending@ == (if old(self).failure is None {
                old(self).pending@ + delta@
            } else {
                Seq::empty()
            }),
    {
        let ghost before = self.received@;
        self.received = Ghost(self.received@ + delta@);
        if self.failure.is_none() {
            self.pending.append(delta);
            proof {
                assert(self.received@ =~= self.typed@ + self.pending@);
            }
        } else {
            proof {
                assert(self.pending@ =~= Seq::<char>::empty());
            }
        }
        proof {
            assert(self.received@.subrange(0, self.typed@.len() as int) =~= before.subrange(
                0,
                self.typed@.len() as int,
            ));
        }
    }

    /// The deltas that are waiting are taken in before anything is typed, so
    /// that one piece of typing serves them all.
    pub fn receive_all(&mut self, deltas: &Vec<String>)
        requires
            old(self).wf(),
        ensures
            final(self).wf(),
            final(self).received@ == old(self).received@ + concat_texts(deltas@),
            final(self).typed@ == old(self).typed@,
            final(self).failure == old(self).failure,
            final(self).pending@ == (if old(self).failure is None {
                old(self).pending@ + concat_texts(deltas@)
            } else {
                Seq::empty()
            }),
    {
        let ghost start = *self;
        let mut i: usize = 0;
        proof {
            assert(deltas@.take(0) =~= Seq::<String>::empty());
            assert(self.received@ + Seq::<char>::empty() =~= self.received@);
            assert(self.pending@ + Seq::<char>::empty() =~= self.pending@);
            if self.failure is Some {
                assert(self.pending@ =~= Seq::<char>::empty());
            }
        }
        while i < deltas.len()
            invariant
                i <= deltas.len(),
                self.wf(),
                self.received@ == start.received@ + concat_texts(deltas@.take(i as int)),
                self.typed@ == start.typed@,
                self.failure == start.failure,
                self.pending@ == (if start.failure is None {
                    start.pending@ + concat_texts(deltas@.take(i as int))
                } else {
                    Seq::empty()
                }),
            decreases deltas.len() - i,
        {
            proof {
                assert(deltas@.take(i + 1).drop_last() =~= deltas@.take(i as int));
            }
            let ghost p = concat_texts(deltas@.take(i as int));
            let ghost d = deltas@[i as int]@;
            self.receive(deltas[i].as_str());
            proof {
                assert((start.received@ + p) + d =~= start.received@ + (p + d));
                assert((start.pending@ + p) + d =~= start.pending@ + (p + d));
            }
            i = i + 1;
        }
        proof {
            assert(deltas@.take(deltas@.len() as int) =~= deltas@);
        }
    }

    /// What waits was typed, with the outcome given.
    pub fn flush(&mut self, outcome: TypeOutcome)
        requires
            old(self).wf(),
            old(self).failure is None,
        ensures
            final(self).wf(),
            final(self).received@ == old(self).received@,
            final(self).pending@.len() == 0,
            final(self).typed@ == old(self).typed@ + old(self).pending@.take(
                arrived(outcome, old(self).pending@.len()) as int,
            ),
            final(self).failure == failure_of(outcome),
    {
        let ghost before = *self;
        let ghost n = arrived(outcome, self.pending@.len()) as int;
        self.failure = flush_streaming_insert_buffer(&mut self.pending, &mut self.typed, outcome);
        proof {
            let all = before.typed@ + before.pending@;
            assert(self.typed@ =~= all.subrange(0, before.typed@.len() + n));
            if self.failure is None {
                assert(n == before.pending@.len());
                assert(before.pending@.take(n) =~= before.pending@);
                assert(self.typed@ + self.pending@ =~= all);
            }
        }
    }
}

/// Texts one after the other.
pub open spec fn concat_texts(v: Seq<String>) -> Seq<char>
    decreases v.len(),
{
    if v.len() == 0 {
        Seq::empty()
    } else {
        concat_texts(v.drop_last()) + v.last()@
    }
}

/// What is appended is the beginning of the piece, as much of it as was asked for
/// or as there is, and what stood there before stays.
pub proof fn law_prefix_is_appended(typed: &mut String, delta: &str, count: usize, n: usize)
    requires
        call_ensures(append_typed_prefix, (typed, delta, count), n),
    ensures
        n <= count && n <= delta@.len(),
        n == count || n == delta@.len(),
        final(typed)@.len() == old(typed)@.len() + n,
        final(typed)@.take(old(typed)@.len() as int) == old(typed)@,
        final(typed)@.skip(old(typed)@.len() as int) == delta@.take(n as int),
{
    assert(final(typed)@.take(old(typed)@.len() as int) =~= old(typed)@);
    assert(final(typed)@.skip(old(typed)@.len() as int) =~= delta@.take(n as int));
}

/// However a piece of typing went, nothing waits any more, and what stands at the
/// cursor has grown by a beginning of what waited: all of it if it was typed, the
/// characters that arrived if some did, and nothing if it failed. Anything but the
/// whole has a reason.
pub proof fn law_flush_leaves_nothing_waiting(
    pending: &mut String,
    typed: &mut String,
    outcome: TypeOutcome,
    r: Option<String>,
)
    requires
        call_ensures(flush_streaming_insert_buffer, (pending, typed, outcome), r),
    ensures
        final(pending)@.len() == 0,
        outcome is Typed ==> final(typed)@ == old(typed)@ + old(pending)@ && r is None,
        (outcome matches TypeOutcome::Failed(why) ==> final(typed)@ == old(typed)@ && r == Some(why)),
        (outcome matches TypeOutcome::Partial { typed_chars, reason } ==> r == Some(reason) && (
        typed_chars <= old(pending)@.len() ==> final(typed)@ == old(typed)@ + old(pending)@.take(
            typed_chars as int,
        )) && (typed_chars >= old(pending)@.len() ==> final(typed)@ == old(typed)@ + old(pending)@)),
{
    assert(old(pending)@.take(old(pending)@.len() as int) =~= old(pending)@);
    assert(old(typed)@ + old(pending)@.take(0) =~= old(typed)@);
}

/// From the model to the cursor: what was sent piece by piece and typed without a
/// failure stands there whole and in order.
pub proof fn law_what_is_sent_is_typed(
    first: &mut StreamingInsert,
    second: &mut StreamingInsert,
    typed: &mut StreamingInsert,
    a: &str,
    b: &str,
    outcome: TypeOutcome,
)
    requires
        call_ensures(StreamingInsert::new, (), *first),
        call_ensures(StreamingInsert::receive, (first, a), ()),
        *second == *final(first),
        call_ensures(StreamingInsert::receive, (second, b), ()),
        *typed == *final(second),
        call_ensures(StreamingInsert::flush, (typed, outcome), ()),
    ensures
        final(second).pending@ == a@ + b@,
        final(second).typed@.len() == 0,
        outcome is Typed ==> final(typed).typed@ == a@ + b@ && final(typed).failure is None,
        outcome is Failed ==> final(typed).typed@.len() == 0 && final(typed).failure is Some,
        final(typed).typed@.is_prefix_of(a@ + b@),
        final(typed).pending@.len() == 0,
{
    assert(Seq::<char>::empty() + a@ =~= a@);
    assert(final(first).pending@ =~= a@);
    assert(final(second).pending@ =~= a@ + b@);
    let all = a@ + b@;
    assert(all.take(all.len() as int) =~= all);
    let n = arrived(outcome, all.len()) as int;
    assert(final(typed).typed@ =~= all.take(n));
    assert(all.take(n) =~= all.subrange(0, n));
}

/// Pieces that are taken in together wait as they would have waited one by one,
/// and after a failure nothing waits at all.
pub proof fn law_pieces_wait_together(
    together: &mut StreamingInsert,
    front: &mut StreamingInsert,
    back: &mut StreamingInsert,
    a: &Vec<String>,
    b: &str,
    all: &Vec<String>,
)
    requires
        all@.len() == a@.len() + 1,
        all@.drop_last() == a@,
        all@.last()@ == b@,
        *front == *together,
        call_ensures(StreamingInsert::receive_all, (together, all), ()),
        call_ensures(StreamingInsert::receive_all, (front, a), ()),
        *back == *final(front),
        call_ensures(StreamingInsert::receive, (back, b), ()),
    ensures
        final(together).pending@ == final(back).pending@,
        final(together).typed@ == old(together).typed@,
        final(together).failure == old(together).failure,
        old(together).failure is Some ==> final(together).pending@.len() == 0,
        old(together).failure is None && a@.len() == 0 ==> final(together).pending@ == old(together).pending@
            + b@,
{
    let head = concat_texts(a@);
    assert(concat_texts(all@) == head + b@);
    assert(old(together).pending@ + (head + b@) =~= old(together).pending@ + head + b@);
    if a@.len() == 0 {
        assert(head =~= Seq::<char>::empty());
        assert(old(together).pending@ + (head + b@) =~= old(together).pending@ + b@);
    }
}

} // verus!
