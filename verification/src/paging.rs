use vstd::prelude::*;

verus! {

/// The most events that one page holds.
pub const PAGE_SIZE: usize = 64;

/// A page of events handed to JavaScript: `done` when the stream has ended and
/// no event was left to hand out.
pub struct Page<T> {
    pub events: Vec<T>,
    pub done: bool,
}

/// The events read for the page being filled.
pub struct PageBuilder<T> {
    batch: Vec<T>,
}

/// One step of filling a page. Given the pending events and what the stream gave
/// next, the events pending afterwards and, when the page is finished, the page
/// (its events and whether the stream is done) or the stream's error.
pub open spec fn offer_step<T, E>(pending: Seq<T>, next: Result<Option<T>, E>) -> (Seq<T>, Option<Result<(Seq<T>, bool), E>>) {
    match next {
        Err(e) => (Seq::empty(), Some(Err(e))),
        Ok(Some(event)) => if pending.len() + 1 >= PAGE_SIZE {
            (Seq::empty(), Some(Ok((pending.push(event), false))))
        } else {
            (pending.push(event), None)
        },
        Ok(None) => (Seq::empty(), Some(Ok((pending, pending.len() == 0)))),
    }
}

/// The view of what [`PageBuilder::offer`] hands back.
pub open spec fn outcome_view<T, E>(r: Option<Result<Page<T>, E>>) -> Option<Result<(Seq<T>, bool), E>> {
    match r {
        None => None,
        Some(Err(e)) => Some(Err(e)),
        Some(Ok(p)) => Some(Ok((p.events@, p.done))),
    }
}

impl<T> PageBuilder<T> {
    /// The events read for the page so far.
    pub closed spec fn pending(&self) -> Seq<T> {
        self.batch@
    }

    #[verifier::type_invariant]
    spec fn below_page_size(&self) -> bool {
        self.batch@.len() < PAGE_SIZE
    }

    /// A builder with no pending events.
    pub fn new() -> (r: Self)
        ensures
            r.pending() == Seq::<T>::empty(),
    {
        PageBuilder { batch: Vec::with_capacity(PAGE_SIZE) }
    }

    /// Takes what the stream gave next. Hands back the page when it is finished:
    /// when it holds `PAGE_SIZE` events, or when the stream has ended; hands back
    /// the stream's error when there is one. A finished page leaves nothing pending.
    pub fn offer<E>(&mut self, next: Result<Option<T>, E>) -> (r: Option<Result<Page<T>, E>>)
        ensures
            old(self).pending().len() < PAGE_SIZE,
            (final(self).pending(), outcome_view(r)) == offer_step(old(self).pending(), next),
            match next {
                Err(e) => r == Some(Err::<Page<T>, E>(e)) && final(self).pending() == Seq::<T>::empty(),
                Ok(_) => !(r matches Some(Err(_))),
            },
            final(self).pending().len() < PAGE_SIZE,
    {
        proof {
            use_type_invariant(&*self);
        }
        match next {
            Err(e) => {
                let mut taken: Vec<T> = Vec::new();
                std::mem::swap(&mut taken, &mut self.batch);
                Some(Err(e))
            },
            Ok(Some(event)) => {
                if self.batch.len() + 1 >= PAGE_SIZE {
                    let mut taken: Vec<T> = Vec::with_capacity(PAGE_SIZE);
                    std::mem::swap(&mut taken, &mut self.batch);
                    taken.push(event);
                    Some(Ok(Page { events: taken, done: false }))
                } else {
                    let mut taken: Vec<T> = Vec::new();
                    std::mem::swap(&mut taken, &mut self.batch);
                    taken.push(event);
                    self.batch = taken;
                    None
                }
            },
            Ok(None) => {
                let mut taken: Vec<T> = Vec::with_capacity(PAGE_SIZE);
                std::mem::swap(&mut taken, &mut self.batch);
                let done = taken.len() == 0;
                Some(Ok(Page { events: taken, done }))
            },
        }
    }
}

/// A stream that gives the given events.
pub open spec fn somes<T>(events: Seq<T>) -> Seq<Option<T>> {
    events.map_values(|e: T| Some(e))
}

/// The first page finished when a builder with the given pending events is fed,
/// one after the other, what a stream gives (`None` marking its end).
pub open spec fn first_page<T>(pending: Seq<T>, nexts: Seq<Option<T>>) -> Option<(Seq<T>, bool)>
    decreases nexts.len(),
{
    if nexts.len() == 0 {
        None
    } else {
        let (after, out) = offer_step::<T, ()>(pending, Ok(nexts[0]));
        match out {
            Some(Ok(page)) => Some(page),
            _ => first_page(after, nexts.drop_first()),
        }
    }
}

proof fn lemma_full_page<T>(pending: Seq<T>, events: Seq<T>, rest: Seq<Option<T>>)
    requires
        pending.len() < PAGE_SIZE,
        pending.len() + events.len() >= PAGE_SIZE,
    ensures
        first_page(pending, somes(events) + rest) == Some(
            ((pending + events).take(PAGE_SIZE as int), false),
        ),
    decreases events.len(),
{
    let nexts = somes(events) + rest;
    assert(nexts[0] == Some(events[0]));
    let grown = pending.push(events[0]);
    if pending.len() + 1 >= PAGE_SIZE {
        assert(grown =~= (pending + events).take(PAGE_SIZE as int));
    } else {
        assert(nexts.drop_first() =~= somes(events.drop_first()) + rest);
        lemma_full_page(grown, events.drop_first(), rest);
        assert(grown + events.drop_first() =~= pending + events);
    }
}

proof fn lemma_last_page<T>(pending: Seq<T>, events: Seq<T>, rest: Seq<Option<T>>)
    requires
        pending.len() + events.len() < PAGE_SIZE,
    ensures
        first_page(pending, somes(events).push(None) + rest) == Some(
            (pending + events, pending.len() + events.len() == 0),
        ),
    decreases events.len(),
{
    let nexts = somes(events).push(None) + rest;
    if events.len() == 0 {
        assert(nexts[0] == None::<T>);
        assert(pending + events =~= pending);
    } else {
        assert(nexts[0] == Some(events[0]));
        let grown = pending.push(events[0]);
        assert(nexts.drop_first() =~= somes(events.drop_first()).push(None) + rest);
        lemma_last_page(grown, events.drop_first(), rest);
        assert(grown + events.drop_first() =~= pending + events);
    }
}

/// Each call hands JavaScript the next events of the stream, in order, and no
/// more than `PAGE_SIZE` of them: with at least `PAGE_SIZE` events to come, the
/// page is the first `PAGE_SIZE` of them and the stream is not done; with fewer
/// events before the stream's end, the page is all of them, and the stream is
/// done exactly when there are none.
pub proof fn page_is_next_events<T>(events: Seq<T>, rest: Seq<Option<T>>)
    ensures
        events.len() >= PAGE_SIZE ==> first_page(Seq::empty(), somes(events) + rest) == Some(
            (events.take(PAGE_SIZE as int), false),
        ),
        events.len() < PAGE_SIZE ==> first_page(Seq::empty(), somes(events).push(None) + rest)
            == Some((events, events.len() == 0)),
{
    if events.len() >= PAGE_SIZE {
        lemma_full_page(Seq::empty(), events, rest);
        assert(Seq::<T>::empty() + events =~= events);
    } else {
        lemma_last_page(Seq::empty(), events, rest);
        assert(Seq::<T>::empty() + events =~= events);
    }
}

/// The pages handed out, call after call, while a builder with the given pending
/// events is fed what a stream gives, up to and including the first done page.
pub open spec fn pages_until_done<T>(pending: Seq<T>, nexts: Seq<Option<T>>) -> Seq<(Seq<T>, bool)>
    decreases nexts.len(),
{
    if nexts.len() == 0 {
        Seq::empty()
    } else {
        let (after, out) = offer_step::<T, ()>(pending, Ok(nexts[0]));
        match out {
            Some(Ok(page)) => if page.1 {
                seq![page]
            } else {
                seq![page] + pages_until_done(after, nexts.drop_first())
            },
            _ => pages_until_done(after, nexts.drop_first()),
        }
    }
}

/// The events of a run of pages, one page after the other.
pub open spec fn events_of_pages<T>(pages: Seq<(Seq<T>, bool)>) -> Seq<T>
    decreases pages.len(),
{
    if pages.len() == 0 {
        Seq::empty()
    } else {
        pages[0].0 + events_of_pages(pages.drop_first())
    }
}

/// A run of pages as JavaScript sees one: it ends with a single done page that holds
/// no events, and every page before it holds between one and `PAGE_SIZE` events.
pub open spec fn well_paged<T>(pages: Seq<(Seq<T>, bool)>) -> bool {
    &&& pages.len() > 0
    &&& pages.last() == (Seq::<T>::empty(), true)
    &&& forall|i: int|
        0 <= i < pages.len() - 1 ==> !(#[trigger] pages[i]).1 && 0 < pages[i].0.len()
            <= PAGE_SIZE
}

proof fn lemma_pages_until_done<T>(pending: Seq<T>, events: Seq<T>)
    requires
        pending.len() < PAGE_SIZE,
    ensures
        well_paged(pages_until_done(pending, somes(events) + seq![None, None])),
        events_of_pages(pages_until_done(pending, somes(events) + seq![None, None])) == pending
            + events,
    decreases events.len(),
{
    let nexts = somes(events) + seq![None::<T>, None::<T>];
    let pages = pages_until_done(pending, nexts);
    if events.len() == 0 {
        assert(nexts =~= seq![None::<T>, None::<T>]);
        assert(nexts[0] == None::<T>);
        assert(nexts.drop_first() =~= seq![None::<T>]);
        let last = seq![None::<T>];
        assert(last.drop_first() =~= Seq::<Option<T>>::empty());
        if pending.len() == 0 {
            assert(pending =~= Seq::<T>::empty());
            assert(pages == seq![(pending, true)]);
            assert(pages =~= seq![(Seq::<T>::empty(), true)]);
            assert(events_of_pages(pages.drop_first()) =~= Seq::<T>::empty());
            assert(pending + events =~= Seq::<T>::empty());
        } else {
            let rest = pages_until_done(Seq::<T>::empty(), nexts.drop_first());
            assert(rest =~= seq![(Seq::<T>::empty(), true)]);
            assert(pages =~= seq![(pending, false)] + rest);
            assert(pages.drop_first() =~= rest);
            assert(rest.drop_first() =~= Seq::<(Seq<T>, bool)>::empty());
            assert(events_of_pages(rest.drop_first()) == Seq::<T>::empty());
            assert(events_of_pages(rest) =~= Seq::<T>::empty());
            assert(pending + events =~= pending);
        }
    } else {
        assert(nexts[0] == Some(events[0]));
        assert(nexts.drop_first() =~= somes(events.drop_first()) + seq![None::<T>, None::<T>]);
        let grown = pending.push(events[0]);
        assert(grown + events.drop_first() =~= pending + events);
        if pending.len() + 1 >= PAGE_SIZE {
            lemma_pages_until_done(Seq::<T>::empty(), events.drop_first());
            let rest = pages_until_done(Seq::<T>::empty(), nexts.drop_first());
            assert(pages =~= seq![(grown, false)] + rest);
            assert(pages.drop_first() =~= rest);
            assert(Seq::<T>::empty() + events.drop_first() =~= events.drop_first());
            assert forall|i: int| 0 <= i < pages.len() - 1 implies !(#[trigger] pages[i]).1
                && 0 < pages[i].0.len() <= PAGE_SIZE by {
                if i > 0 {
                    assert(pages[i] == rest[i - 1]);
                }
            }
        } else {
            lemma_pages_until_done(grown, events.drop_first());
        }
    }
}

/// Reading a stream page after page hands JavaScript every event of the stream
/// exactly once and in order: the pages, up to the first done one, hold the
/// stream's events one after the other; the run ends with one done page that holds
/// nothing, and every page before it holds between one and `PAGE_SIZE` events.
/// (A stream that has ended keeps reporting its end.)
pub proof fn stream_read_in_pages<T>(events: Seq<T>)
    ensures
        well_paged(pages_until_done(Seq::empty(), somes(events) + seq![None, None])),
        events_of_pages(pages_until_done(Seq::empty(), somes(events) + seq![None, None]))
            == events,
{
    lemma_pages_until_done(Seq::empty(), events);
    assert(Seq::<T>::empty() + events =~= events);
}

/// An error from the stream finishes the page with that very error, whatever was
/// pending, and leaves nothing pending: events read before it are not handed out.
pub proof fn stream_error_ends_the_page<T, E>(pending: Seq<T>, e: E)
    ensures
        offer_step(pending, Err::<Option<T>, E>(e)) == (Seq::<T>::empty(), Some(Err::<(Seq<T>, bool), E>(e))),
{
}

/// An event is kept pending until the page holds `PAGE_SIZE` events, and then the
/// page (every pending event and the new one, in order, not done) is handed out;
/// the stream's end hands out what is pending, done exactly when nothing is.
pub proof fn events_fill_pages<T, E>(pending: Seq<T>, event: T)
    requires
        pending.len() < PAGE_SIZE,
    ensures
        pending.len() + 1 < PAGE_SIZE ==> offer_step(pending, Ok::<Option<T>, E>(Some(event)))
            == (pending.push(event), None::<Result<(Seq<T>, bool), E>>),
        pending.len() + 1 == PAGE_SIZE ==> offer_step(pending, Ok::<Option<T>, E>(Some(event)))
            == (Seq::<T>::empty(), Some(Ok::<(Seq<T>, bool), E>((pending.push(event), false)))),
        offer_step(pending, Ok::<Option<T>, E>(None)) == (
            Seq::<T>::empty(),
            Some(Ok::<(Seq<T>, bool), E>((pending, pending.len() == 0))),
        ),
{
}

} // verus!
