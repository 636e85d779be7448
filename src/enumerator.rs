use vstd::prelude::*;
use std::collections::VecDeque;
use crate::error::{Error, extraction_kind};
use crate::imgur::{
    Accessor, ImageRecord, PageData, Shape, StrategyModel, all_linked, deque_view, endpoint_of,
    extract_spec, links_of, page_location_of,
};

verus! {

/// What the caller must do next to advance the enumeration.
pub enum Pull {
    /// Fetch this item location; the enumerator has already moved past it.
    Item(String),
    /// Fetch the strategy's next page from this location, then hand the
    /// response to `page_fetched`.
    Page(String),
    /// The sequence is exhausted: nothing is left to fetch.
    Exhausted,
}

/// The view of a `Pull`.
pub ghost enum PullModel {
    Item(Seq<char>),
    Page(Seq<char>),
    Exhausted,
}

/// The view of a `Pull`.
pub open spec fn pull_view(p: Pull) -> PullModel {
    match p {
        Pull::Item(s) => PullModel::Item(s@),
        Pull::Page(s) => PullModel::Page(s@),
        Pull::Exhausted => PullModel::Exhausted,
    }
}

/// The state of an enumerator: its pending locations in order, its strategy,
/// and whether the sequence has ended.
pub ghost struct EnumModel {
    pub queue: Seq<Seq<char>>,
    pub strategy: StrategyModel,
    pub finished: bool,
}

/// One pull: the front of the queue when there is one; otherwise the page
/// location of the strategy, unless the sequence has ended or the strategy is
/// complete, in which case the sequence is (from then on) exhausted.
pub open spec fn pull_spec(m: EnumModel) -> (EnumModel, PullModel) {
    if m.queue.len() > 0 {
        (EnumModel { queue: m.queue.drop_first(), ..m }, PullModel::Item(m.queue[0]))
    } else if m.finished {
        (m, PullModel::Exhausted)
    } else {
        match page_location_of(m.strategy) {
            Some(loc) => (m, PullModel::Page(loc)),
            None => (EnumModel { finished: true, ..m }, PullModel::Exhausted),
        }
    }
}

/// Whether the enumerator waits for a page: its queue is empty and its
/// sequence has not ended.
pub open spec fn awaits_page(m: EnumModel) -> bool {
    m.queue.len() == 0 && !m.finished
}

/// How handing a fetched page to the enumerator relates the state before
/// (`m`), the response, the error returned and the state after (`n`). A page
/// that nobody awaits is ignored. A failed fetch or decode ends the sequence
/// with that error; a page of locations becomes the queue, and an empty one
/// ends the sequence.
pub open spec fn page_fetched_spec(
    m: EnumModel,
    fetched: Result<Option<PageData>, Error>,
    r: Option<Error>,
    n: EnumModel,
) -> bool {
    if !awaits_page(m) {
        r is None && n == m
    } else if m.strategy.complete {
        r is None && n == (EnumModel { finished: true, ..m })
    } else {
        match fetched {
            Err(e) => r == Some(e) && n == (EnumModel { finished: true, ..m }),
            Ok(d) => match extract_spec(m.strategy.shape, d) {
                Ok(links) => r is None && n == (EnumModel {
                    queue: links,
                    strategy: StrategyModel { complete: true, ..m.strategy },
                    finished: links.len() == 0,
                }),
                Err(k) => r is Some && extraction_kind(r->Some_0) == Some(k) && n == (EnumModel {
                    finished: true,
                    ..m
                }),
            },
        }
    }
}

/// The outcomes of `k` consecutive pulls from `m`, with no page handed in.
pub open spec fn drain(m: EnumModel, k: nat) -> Seq<PullModel>
    decreases k,
{
    if k == 0 {
        Seq::empty()
    } else {
        seq![pull_spec(m).1] + drain(pull_spec(m).0, (k - 1) as nat)
    }
}

/// The item outcomes for a sequence of locations.
pub open spec fn items_of(q: Seq<Seq<char>>) -> Seq<PullModel> {
    q.map_values(|l: Seq<char>| PullModel::Item(l))
}

/// Turns a strategy's pages into a flat, lazy sequence of item locations.
/// The transport `C` is carried for the caller, which performs each fetch.
pub struct TaskProvider<C> {
    client: C,
    accessor: Accessor,
    current: VecDeque<String>,
    finished: bool,
}

impl<C> TaskProvider<C> {
    /// The state of this enumerator.
    pub closed spec fn view(&self) -> EnumModel {
        EnumModel {
            queue: deque_view(self.current),
            strategy: self.accessor.view(),
            finished: self.finished,
        }
    }

    /// The transport carried by this enumerator.
    pub closed spec fn transport(&self) -> C {
        self.client
    }

    /// An enumerator over the items of `accessor`, with nothing fetched yet.
    pub fn new(accessor: Accessor, client: C) -> (r: Self)
        ensures
            r.view() == (EnumModel {
                queue: Seq::empty(),
                strategy: accessor.view(),
                finished: false,
            }),
            r.transport() == client,
    {
        let current: VecDeque<String> = VecDeque::new();
        let r = TaskProvider { client, accessor, current, finished: false };
        assert(deque_view(r.current) =~= Seq::<Seq<char>>::empty());
        r
    }

    /// The transport carried by this enumerator.
    pub fn client(&self) -> (r: &C)
        ensures
            *r == self.transport(),
    {
        &self.client
    }

    /// The next step of the enumeration. A pending location is handed out
    /// first, without asking the strategy for anything; only an empty queue
    /// leads to a page request.
    pub fn pull(&mut self) -> (r: Pull)
        ensures
            (final(self).view(), pull_view(r)) == pull_spec(old(self).view()),
            final(self).transport() == old(self).transport(),
    {
        match self.current.pop_front() {
            Some(url) => {
                proof {
                    assert(deque_view(self.current) =~= deque_view(old(self).current).drop_first());
                }
                Pull::Item(url)
            },
            None => {
                if self.finished {
                    return Pull::Exhausted;
                }
                match self.accessor.page_location() {
                    Some(loc) => Pull::Page(loc),
                    None => {
                        self.finished = true;
                        Pull::Exhausted
                    },
                }
            },
        }
    }

    /// Hands the response fetched for a `Pull::Page` to the enumerator. Returns
    /// the failure that ends the sequence, if the fetch or its decoding failed.
    pub fn page_fetched(&mut self, fetched: Result<Option<PageData>, Error>) -> (r: Option<Error>)
        ensures
            page_fetched_spec(old(self).view(), fetched, r, final(self).view()),
            final(self).transport() == old(self).transport(),
    {
        assert(deque_view(self.current).len() == self.current@.len());
        if self.current.len() > 0 || self.finished {
            return None;
        }
        match self.accessor.next_page(fetched) {
            Err(e) => {
                self.finished = true;
                Some(e)
            },
            Ok(page) => {
                assert(deque_view(page).len() == page@.len());
                assert(deque_view(old(self).current).len() == 0);
                assert(deque_view(old(self).current) =~= Seq::<Seq<char>>::empty());
                if page.len() == 0 {
                    self.finished = true;
                }
                self.current = page;
                None
            },
        }
    }
}

/// While the queue holds locations, a pull hands out the front one and leaves
/// the strategy alone: pages are requested only when the queue is empty.
pub proof fn lemma_pull_never_fetches_with_pending_items(m: EnumModel)
    requires
        m.queue.len() > 0,
    ensures
        pull_spec(m).1 == PullModel::Item(m.queue[0]),
        pull_spec(m).0.strategy == m.strategy,
        pull_spec(m).0.queue == m.queue.drop_first(),
        !(pull_spec(m).1 is Page),
{
}

/// Once the strategy is complete or the sequence has ended, the pulls hand out
/// the queued locations in order and then report exhaustion.
pub proof fn lemma_drain_queue(m: EnumModel)
    requires
        m.strategy.complete || m.finished,
    ensures
        drain(m, m.queue.len() + 1) == items_of(m.queue).push(PullModel::Exhausted),
    decreases m.queue.len(),
{
    if m.queue.len() == 0 {
        assert(drain(pull_spec(m).0, 0) == Seq::<PullModel>::empty());
        assert(items_of(m.queue) =~= Seq::<PullModel>::empty());
        assert(drain(m, 1) =~= seq![PullModel::Exhausted]);
    } else {
        let n = pull_spec(m).0;
        lemma_drain_queue(n);
        assert(n.queue.len() + 1 == m.queue.len());
        assert(items_of(m.queue) =~= seq![PullModel::Item(m.queue[0])] + items_of(n.queue));
        assert(drain(m, m.queue.len() + 1) =~= seq![PullModel::Item(m.queue[0])] + drain(
            n,
            n.queue.len() + 1,
        ));
        assert(drain(m, m.queue.len() + 1) =~= items_of(m.queue).push(PullModel::Exhausted));
    }
}

/// For an album whose page decodes to `images`, all with links: the first pull
/// asks for the album's page, and once that page is handed in, the next pulls
/// yield exactly one item per image, in the payload's order, and then report
/// exhaustion.
pub proof fn lemma_album_yields_payload_in_order(
    m: EnumModel,
    images: Vec<ImageRecord>,
    r: Option<Error>,
    n: EnumModel,
)
    requires
        m.queue.len() == 0,
        !m.finished,
        m.strategy.shape == Shape::Album,
        !m.strategy.complete,
        all_linked(images@),
        page_fetched_spec(m, Ok(Some(PageData::Images(images))), r, n),
    ensures
        pull_spec(m) == (m, PullModel::Page(endpoint_of(Shape::Album, m.strategy.id))),
        r is None,
        n.queue == links_of(images@),
        drain(n, images@.len() + 1) == items_of(links_of(images@)).push(PullModel::Exhausted),
{
    lemma_drain_queue(n);
}

} // verus!
