use vstd::prelude::*;

use crate::errors::{ParserError, PollerError, ProviderError, PublisherError};
use crate::publisher::{prepared, PublishRecord, Publisher};
use crate::stratz::{Guild, Match, Response};

verus! {

/// How many of the guild's latest matches one run asks for.
pub const TAKE: i64 = 5;

/// The tracked guild.
pub const GUILD_ID: i64 = 117311;

/// What the caller has to do next for a run.
#[derive(Debug)]
pub enum Step {
    /// Send the current record (see [`Pipeline::record`]) to destination `destination`,
    /// then report the outcome with [`Pipeline::on_published`].
    Publish { destination: usize },
    /// Store `match_id` as the new watermark, then report with [`Pipeline::on_saved`].
    SaveWatermark { match_id: i64 },
    /// The run is over and delivered `delivered` records.
    Done { delivered: usize },
    /// The run stopped with an error.
    Failed(PollerError),
}

enum Phase {
    AwaitingWatermark,
    Publishing,
    Saving,
    Done,
    Failed,
}

/// One run: from the provider's answer to the new watermark.
///
/// Records arrive newest first and are handled oldest first. A record whose id is at
/// most the watermark is skipped; any other is prepared and sent to every destination
/// in turn. The first failure ends the run, and the watermark moves only when every
/// selected record reached every destination.
pub struct Pipeline {
    guild_id: i64,
    guild_name: String,
    guild_logo: String,
    /// Records not looked at yet, newest first: the next one is last.
    remaining: Vec<Option<Match>>,
    destinations: usize,
    phase: Phase,
    watermark: i64,
    latest: i64,
    record: Option<PublishRecord>,
    record_id: i64,
    destination: usize,
    delivered: usize,
    received: Ghost<Seq<Option<Match>>>,
    current: Ghost<Match>,
    sent: Ghost<Seq<i64>>,
}

/// The ids that a run delivers, oldest first, when every destination accepts every
/// record: records at or below the watermark `w` are skipped, and the run stops at the
/// first record that is missing, has no id, or cannot be prepared.
pub open spec fn dispatched(ms: Seq<Option<Match>>, w: int) -> Seq<i64>
    decreases ms.len(),
{
    if ms.len() == 0 {
        seq![]
    } else {
        match ms.last() {
            Some(m) => match m.id {
                Some(id) => if id <= w {
                    dispatched(ms.drop_last(), w)
                } else if prepared(m) {
                    seq![id] + dispatched(ms.drop_last(), w)
                } else {
                    seq![]
                },
                None => seq![],
            },
            None => seq![],
        }
    }
}

/// Every record is present with an id, and every one above the watermark can be prepared.
pub open spec fn completes(ms: Seq<Option<Match>>, w: int) -> bool
    decreases ms.len(),
{
    ms.len() == 0 || match ms.last() {
        Some(m) => match m.id {
            Some(id) => (id <= w || prepared(m)) && completes(ms.drop_last(), w),
            None => false,
        },
        None => false,
    }
}

/// The largest of `w` and the ids in `ids`.
pub open spec fn highest(ids: Seq<i64>, w: int) -> int
    decreases ids.len(),
{
    if ids.len() == 0 {
        w
    } else {
        let h = highest(ids.drop_last(), w);
        if ids.last() > h {
            ids.last() as int
        } else {
            h
        }
    }
}

/// The id of a record that a run with watermark `w` selects.
pub open spec fn new_id(m: Option<Match>, w: int) -> Option<i64> {
    match m {
        Some(x) => match x.id {
            Some(id) => if id > w {
                Some(id)
            } else {
                None
            },
            None => None,
        },
        None => None,
    }
}

/// The answer names the guild with its id, name, logo and match list.
pub open spec fn guild_complete(resp: Response) -> bool {
    resp.data matches Some(d) && (d.guild matches Some(g) && g.id is Some && g.name is Some
        && g.logo is Some && g.matches is Some)
}

pub open spec fn answered_guild(resp: Response) -> Guild {
    resp.data->0.guild->0
}

proof fn lemma_highest_at_least(ids: Seq<i64>, w: int)
    ensures
        highest(ids, w) >= w,
        highest(ids, w) > w ==> ids.len() > 0,
        forall|k: int| 0 <= k < ids.len() ==> ids[k] <= highest(ids, w),
    decreases ids.len(),
{
    if ids.len() > 0 {
        lemma_highest_at_least(ids.drop_last(), w);
        assert forall|k: int| 0 <= k < ids.len() implies ids[k] <= highest(ids, w) by {
            if k < ids.len() - 1 {
                assert(ids.drop_last()[k] == ids[k]);
            }
        }
    }
}

proof fn lemma_highest_push(ids: Seq<i64>, w: int, id: i64)
    ensures
        highest(ids.push(id), w) == if id > highest(ids, w) {
            id as int
        } else {
            highest(ids, w)
        },
{
    assert(ids.push(id).drop_last() == ids);
}

proof fn lemma_dispatched_step(ms: Seq<Option<Match>>, w: int)
    requires
        ms.len() > 0,
    ensures
        dispatched(ms, w) == match ms.last() {
            Some(m) => match m.id {
                Some(id) => if id <= w {
                    dispatched(ms.drop_last(), w)
                } else if prepared(m) {
                    seq![id] + dispatched(ms.drop_last(), w)
                } else {
                    seq![]
                },
                None => seq![],
            },
            None => seq![],
        },
        completes(ms, w) == match ms.last() {
            Some(m) => match m.id {
                Some(id) => (id <= w || prepared(m)) && completes(ms.drop_last(), w),
                None => false,
            },
            None => false,
        },
{
}


/// Picks the id of a record above watermark `w`.
pub open spec fn selector(w: int) -> spec_fn(Option<Match>) -> Option<i64> {
    |m: Option<Match>| new_id(m, w)
}

proof fn lemma_filter_map_prepend<A, B>(x: A, s: Seq<A>, f: spec_fn(A) -> Option<B>)
    ensures
        (seq![x] + s).filter_map(f) == (match f(x) {
            Some(y) => seq![y],
            None => Seq::<B>::empty(),
        }) + s.filter_map(f),
    decreases s.len(),
{
    let head = match f(x) {
        Some(y) => seq![y],
        None => Seq::<B>::empty(),
    };
    if s.len() == 0 {
        Seq::<A>::lemma_filter_map_singleton(x, f);
        assert(seq![x] + s == seq![x]);
        assert(head + s.filter_map(f) == head);
    } else {
        let xs = seq![x] + s;
        assert(xs.drop_last() == seq![x] + s.drop_last());
        assert(xs.last() == s.last());
        lemma_filter_map_prepend(x, s.drop_last(), f);
        match f(s.last()) {
            Some(y) => {
                assert(xs.filter_map(f) == (seq![x] + s.drop_last()).filter_map(f) + seq![y]);
                assert(s.filter_map(f) == s.drop_last().filter_map(f) + seq![y]);
                assert(head + s.drop_last().filter_map(f) + seq![y] == head + (
                s.drop_last().filter_map(f) + seq![y]));
            },
            None => {
                assert(xs.filter_map(f) == (seq![x] + s.drop_last()).filter_map(f));
                assert(s.filter_map(f) == s.drop_last().filter_map(f));
            },
        }
    }
}

/// Records are delivered oldest first: a run that gets through its whole list delivers
/// exactly the ids above the watermark, in the reverse of the order they were received in.
pub proof fn lemma_oldest_first(ms: Seq<Option<Match>>, w: int)
    requires
        completes(ms, w),
    ensures
        dispatched(ms, w) == ms.reverse().filter_map(selector(w)),
    decreases ms.len(),
{
    if ms.len() == 0 {
        assert(ms.reverse() == Seq::<Option<Match>>::empty());
    } else {
        let rest = ms.drop_last();
        assert(ms.reverse() =~= seq![ms.last()] + rest.reverse());
        lemma_filter_map_prepend(ms.last(), rest.reverse(), selector(w));
        lemma_oldest_first(rest, w);
        let head = match selector(w)(ms.last()) {
            Some(y) => seq![y],
            None => Seq::<i64>::empty(),
        };
        assert(head + rest.reverse().filter_map(selector(w)) == ms.reverse().filter_map(selector(w)));
        match selector(w)(ms.last()) {
            Some(y) => {
                assert(dispatched(ms, w) == seq![y] + dispatched(rest, w));
            },
            None => {
                assert(head + dispatched(rest, w) == dispatched(rest, w));
            },
        }
    }
}

/// Selection boundary: every delivered id is above the watermark and belongs to one of
/// the received records.
pub proof fn lemma_selection_boundary(ms: Seq<Option<Match>>, w: int)
    ensures
        forall|k: int|
            0 <= k < dispatched(ms, w).len() ==> dispatched(ms, w)[k] > w && exists|j: int|
                0 <= j < ms.len() && #[trigger] new_id(ms[j], w) == Some(dispatched(ms, w)[k]),
    decreases ms.len(),
{
    if ms.len() > 0 {
        let rest = ms.drop_last();
        lemma_selection_boundary(rest, w);
        let d = dispatched(ms, w);
        assert forall|k: int| 0 <= k < d.len() implies d[k] > w && exists|j: int|
            0 <= j < ms.len() && #[trigger] new_id(ms[j], w) == Some(d[k]) by {
            let dr = dispatched(rest, w);
            if d == dr {
                let j = choose|j: int| 0 <= j < rest.len() && #[trigger] new_id(rest[j], w) == Some(dr[k]);
                assert(ms[j] == rest[j]);
            } else {
                assert(d == seq![ms.last()->0.id->0] + dr);
                if k == 0 {
                    assert(new_id(ms[ms.len() - 1], w) == Some(d[k]));
                } else {
                    assert(d[k] == dr[k - 1]);
                    let j = choose|j: int| 0 <= j < rest.len() && #[trigger] new_id(rest[j], w) == Some(dr[k - 1]);
                    assert(ms[j] == rest[j]);
                }
            }
        }
    }
}

/// The watermark never goes back: what a run stores is the highest of the old watermark and
/// the ids it delivered, and it is above the old one only when something was delivered.
pub proof fn lemma_watermark_monotonic(ms: Seq<Option<Match>>, w: int)
    ensures
        highest(dispatched(ms, w), w) >= w,
        highest(dispatched(ms, w), w) > w ==> dispatched(ms, w).len() > 0,
        forall|k: int| 0 <= k < dispatched(ms, w).len() ==> dispatched(ms, w)[k] <= highest(dispatched(ms, w), w),
{
    lemma_highest_at_least(dispatched(ms, w), w);
}

proof fn lemma_all_skipped(ms: Seq<Option<Match>>, w: int, top: int)
    requires
        completes(ms, w),
        top >= w,
        forall|k: int| 0 <= k < dispatched(ms, w).len() ==> dispatched(ms, w)[k] <= top,
    ensures
        dispatched(ms, top) == Seq::<i64>::empty(),
        completes(ms, top),
    decreases ms.len(),
{
    if ms.len() > 0 {
        let rest = ms.drop_last();
        let id = ms.last()->0.id->0;
        lemma_dispatched_step(ms, w);
        lemma_dispatched_step(ms, top);
        if id <= w {
            assert(dispatched(ms, w) == dispatched(rest, w));
        } else {
            assert(dispatched(ms, w) == seq![id] + dispatched(rest, w));
            assert(dispatched(ms, w)[0] == id);
            assert forall|k: int| 0 <= k < dispatched(rest, w).len() implies dispatched(rest, w)[k] <= top by {
                assert(dispatched(ms, w)[k + 1] == dispatched(rest, w)[k]);
            }
        }
        lemma_all_skipped(rest, w, top);
    }
}

/// Idempotence: after a run that got through its whole list, a second run over the same
/// records from the watermark the first one left delivers nothing.
pub proof fn lemma_rerun_delivers_nothing(ms: Seq<Option<Match>>, w: int)
    requires
        completes(ms, w),
    ensures
        dispatched(ms, highest(dispatched(ms, w), w)) == Seq::<i64>::empty(),
        completes(ms, highest(dispatched(ms, w), w)),
{
    lemma_highest_at_least(dispatched(ms, w), w);
    lemma_all_skipped(ms, w, highest(dispatched(ms, w), w));
}

impl Pipeline {
    pub closed spec fn received(&self) -> Seq<Option<Match>> {
        self.received@
    }

    pub closed spec fn remaining(&self) -> Seq<Option<Match>> {
        self.remaining@
    }

    /// The ids of the records that reached every destination, in order.
    pub closed spec fn sent(&self) -> Seq<i64> {
        self.sent@
    }

    /// The watermark the run started from.
    pub closed spec fn watermark(&self) -> i64 {
        self.watermark
    }

    pub closed spec fn destinations(&self) -> usize {
        self.destinations
    }

    /// The destination the current record goes to next.
    pub closed spec fn destination(&self) -> usize {
        self.destination
    }

    /// The id of the record being sent.
    pub closed spec fn in_flight(&self) -> i64 {
        self.record_id
    }

    /// The match the record being sent was prepared from.
    pub closed spec fn current(&self) -> Match {
        self.current@
    }

    pub closed spec fn guild_id(&self) -> i64 {
        self.guild_id
    }

    pub closed spec fn guild_name(&self) -> Seq<char> {
        self.guild_name@
    }

    pub closed spec fn guild_logo(&self) -> Seq<char> {
        self.guild_logo@
    }

    pub closed spec fn is_awaiting_watermark(&self) -> bool {
        self.phase is AwaitingWatermark
    }

    pub closed spec fn is_publishing(&self) -> bool {
        self.phase is Publishing
    }

    pub closed spec fn is_saving(&self) -> bool {
        self.phase is Saving
    }

    /// The run delivered every selected record and has nothing left to do.
    pub closed spec fn is_done(&self) -> bool {
        self.phase is Done
    }

    /// The run stopped with an error and does nothing more.
    pub closed spec fn is_failed(&self) -> bool {
        self.phase is Failed
    }

    /// What holds between records: the delivered ids and what the rest of the list
    /// delivers make up what the whole list delivers.
    closed spec fn between_records(&self) -> bool {
        let w = self.watermark as int;
        &&& self.sent@ + dispatched(self.remaining@, w) == dispatched(self.received@, w)
        &&& self.remaining@ == self.received@.take(self.remaining@.len() as int)
        &&& completes(self.received@, w) == completes(self.remaining@, w)
        &&& self.sent@.len() + self.remaining@.len() <= self.received@.len()
        &&& self.received@.len() <= usize::MAX
        &&& self.latest == highest(self.sent@, w)
        &&& self.delivered == self.sent@.len()
    }

    /// The run's bookkeeping is consistent with its phase.
    pub closed spec fn wf(&self) -> bool {
        let w = self.watermark as int;
        match self.phase {
            Phase::AwaitingWatermark => {
                &&& self.remaining@ == self.received@
                &&& self.received@.len() <= usize::MAX
                &&& self.sent@ == Seq::<i64>::empty()
                &&& self.delivered == 0
            },
            Phase::Publishing => {
                &&& self.sent@ + seq![self.record_id] + dispatched(self.remaining@, w) == dispatched(
                    self.received@,
                    w,
                )
                &&& completes(self.received@, w) == completes(self.remaining@, w)
                &&& self.remaining@ == self.received@.take(self.remaining@.len() as int)
                &&& self.received@[self.remaining@.len() as int] == Some(self.current@)
                &&& self.sent@.len() + 1 + self.remaining@.len() <= self.received@.len()
                &&& self.received@.len() <= usize::MAX
                &&& self.latest == highest(self.sent@, w)
                &&& self.delivered == self.sent@.len()
                &&& self.record_id > self.watermark
                &&& self.destination < self.destinations
                &&& self.current@.id == Some(self.record_id)
                &&& prepared(self.current@)
                &&& (self.record matches Some(r) && r.describes(
                    self.guild_id,
                    self.guild_name@,
                    self.guild_logo@,
                    self.current@,
                ))
            },
            Phase::Saving => {
                &&& self.sent@ == dispatched(self.received@, w)
                &&& completes(self.received@, w)
                &&& self.latest == highest(self.sent@, w)
                &&& self.latest > self.watermark
                &&& self.delivered == self.sent@.len()
            },
            Phase::Done => {
                &&& self.sent@ == dispatched(self.received@, w)
                &&& completes(self.received@, w)
                &&& self.delivered == self.sent@.len()
            },
            Phase::Failed => true,
        }
    }

    /// The run is sending the record `current()`: it is the oldest record not handled yet,
    /// its id is above the watermark, and it comes right after the records already
    /// delivered in the order the whole list is delivered in.
    pub open spec fn sending(&self) -> bool {
        let w = self.watermark() as int;
        &&& self.is_publishing()
        &&& 0 < self.destinations()
        &&& self.destination() < self.destinations()
        &&& self.in_flight() > self.watermark()
        &&& self.sent() + seq![self.in_flight()] + dispatched(self.remaining(), w) == dispatched(
            self.received(),
            w,
        )
        &&& self.remaining().len() < self.received().len()
        &&& self.remaining() == self.received().take(self.remaining().len() as int)
        &&& self.received()[self.remaining().len() as int] == Some(self.current())
        &&& self.current().id == Some(self.in_flight())
        &&& prepared(self.current())
    }

    /// What the run does when it looks for the next record, from a state between records.
    pub open spec fn next_step(&self, step: Step) -> bool {
        let w = self.watermark() as int;
        match step {
            Step::Publish { destination } => {
                &&& destination == 0
                &&& self.destination() == 0
                &&& self.sending()
            },
            Step::SaveWatermark { match_id } => {
                &&& self.is_saving()
                &&& self.sent() == dispatched(self.received(), w)
                &&& completes(self.received(), w)
                &&& match_id == highest(self.sent(), w)
                &&& match_id > self.watermark()
            },
            Step::Done { delivered } => {
                &&& self.is_done()
                &&& self.sent() == dispatched(self.received(), w)
                &&& completes(self.received(), w)
                &&& highest(self.sent(), w) == w
                &&& delivered == self.sent().len()
            },
            Step::Failed(e) => {
                &&& self.is_failed()
                &&& e is Parser
                &&& self.sent() == dispatched(self.received(), w)
                &&& !completes(self.received(), w)
            },
        }
    }

    /// A fresh run over the matches of guild `g`, waiting for the watermark.
    pub open spec fn started_from(&self, g: Guild, destinations: usize) -> bool {
        &&& self.wf()
        &&& self.is_awaiting_watermark()
        &&& self.received() == g.matches->0@
        &&& self.remaining() == self.received()
        &&& self.sent() == Seq::<i64>::empty()
        &&& self.guild_id() == g.id->0
        &&& self.guild_name() == g.name->0@
        &&& self.guild_logo() == g.logo->0@
        &&& self.destinations() == destinations
    }

    /// Idempotence: two runs that got through the same records from the same watermark
    /// delivered the same records in the same order, whether or not the first one's
    /// watermark was kept.
    pub proof fn lemma_runs_repeat(a: Pipeline, b: Pipeline)
        requires
            a.wf(),
            b.wf(),
            a.is_saving() || a.is_done(),
            b.is_saving() || b.is_done(),
            a.received() == b.received(),
            a.watermark() == b.watermark(),
        ensures
            a.sent() == b.sent(),
            a.sent() == dispatched(a.received(), a.watermark() as int),
    {
    }

    /// Starts a run from the provider's answer, for `destinations` destinations. A failed
    /// call or an answer with errors is a provider error; an answer without the guild's id,
    /// name, logo or match list is a `Guild` parse error.
    pub fn start(response: Result<Response, ProviderError>, destinations: usize) -> (r: Result<
        Pipeline,
        PollerError,
    >)
        ensures
            response matches Err(e) ==> r == Err::<Pipeline, PollerError>(PollerError::Provider(e)),
            response matches Ok(resp) && resp.errors is Some ==> r == Err::<Pipeline, PollerError>(
                PollerError::Provider(ProviderError::Stratz),
            ),
            response matches Ok(resp) && resp.errors is None && !guild_complete(resp) ==> r == Err::<
                Pipeline,
                PollerError,
            >(PollerError::Parser(ParserError::Guild)),
            response matches Ok(resp) ==> (resp.errors is None && guild_complete(resp) ==> (r matches Ok(
                p,
            ) && p.started_from(answered_guild(resp), destinations))),
    {
        let response = match response {
            Ok(resp) => resp,
            Err(e) => {
                return Err(PollerError::Provider(e));
            },
        };
        if response.errors.is_some() {
            return Err(PollerError::Provider(ProviderError::Stratz));
        }
        let data = match response.data {
            Some(d) => d,
            None => {
                return Err(PollerError::Parser(ParserError::Guild));
            },
        };
        let guild = match data.guild {
            Some(g) => g,
            None => {
                return Err(PollerError::Parser(ParserError::Guild));
            },
        };
        let Guild { id, name, logo, matches } = guild;
        let guild_id = match id {
            Some(i) => i,
            None => {
                return Err(PollerError::Parser(ParserError::Guild));
            },
        };
        let guild_name = match name {
            Some(n) => n,
            None => {
                return Err(PollerError::Parser(ParserError::Guild));
            },
        };
        let guild_logo = match logo {
            Some(l) => l,
            None => {
                return Err(PollerError::Parser(ParserError::Guild));
            },
        };
        let matches = match matches {
            Some(m) => m,
            None => {
                return Err(PollerError::Parser(ParserError::Guild));
            },
        };
        let ghost received = matches@;
        let total: usize = matches.len();
        assert(received.len() == total);
        Ok(
            Pipeline {
                guild_id,
                guild_name,
                guild_logo,
                remaining: matches,
                destinations,
                phase: Phase::AwaitingWatermark,
                watermark: 0,
                latest: 0,
                record: None,
                record_id: 0,
                destination: 0,
                delivered: 0,
                received: Ghost(received),
                current: Ghost(
                    Match {
                        id: None,
                        players: None,
                        duration_seconds: None,
                        end_date_time: None,
                        lobby_type: None,
                        game_mode: None,
                    },
                ),
                sent: Ghost(Seq::empty()),
            },
        )
    }

    /// Takes the stored watermark (none stored reads as 0) and moves to the first record.
    pub fn on_watermark(&mut self, stored: Result<Option<i64>, ProviderError>) -> (step: Step)
        requires
            old(self).wf(),
            old(self).is_awaiting_watermark(),
        ensures
            final(self).wf(),
            final(self).received() == old(self).received(),
            final(self).destinations() == old(self).destinations(),
            final(self).guild_id() == old(self).guild_id(),
            final(self).guild_name() == old(self).guild_name(),
            final(self).guild_logo() == old(self).guild_logo(),
            stored matches Err(e) ==> final(self).is_failed() && step == Step::Failed(
                PollerError::Provider(e),
            ),
            final(self).destinations() > 0 ==> final(self).sent() == old(self).sent(),
            stored matches Ok(v) ==> final(self).watermark() == (match v {
                Some(w) => w,
                None => 0,
            }) && final(self).next_step(step),
    {
        match stored {
            Err(e) => {
                self.phase = Phase::Failed;
                Step::Failed(PollerError::Provider(e))
            },
            Ok(v) => {
                self.watermark = match v {
                    Some(w) => w,
                    None => 0,
                };
                self.latest = self.watermark;
                assert(dispatched(self.remaining@, self.watermark as int) == dispatched(
                    self.received@,
                    self.watermark as int,
                ));
                assert(self.remaining@ == self.received@.take(self.remaining@.len() as int));
                assert(Seq::<i64>::empty() + dispatched(self.remaining@, self.watermark as int)
                    == dispatched(self.remaining@, self.watermark as int));
                self.advance()
            },
        }
    }

    /// Looks at the remaining records, oldest first, until one is to be sent, the list
    /// ends, or a record cannot be used.
    fn advance(&mut self) -> (step: Step)
        requires
            old(self).between_records(),
        ensures
            final(self).wf(),
            final(self).next_step(step),
            final(self).received() == old(self).received(),
            final(self).watermark() == old(self).watermark(),
            final(self).destinations() == old(self).destinations(),
            final(self).guild_id() == old(self).guild_id(),
            final(self).guild_name() == old(self).guild_name(),
            final(self).guild_logo() == old(self).guild_logo(),
            old(self).sent().is_prefix_of(final(self).sent()),
            old(self).destinations() > 0 ==> final(self).sent() == old(self).sent(),
    {
        let ghost w = self.watermark as int;
        let ghost sent0 = self.sent@;
        loop
            invariant
                self.between_records(),
                self.watermark as int == w,
                self.watermark == old(self).watermark,
                self.received@ == old(self).received@,
                self.destinations == old(self).destinations,
                self.guild_id == old(self).guild_id,
                self.guild_name@ == old(self).guild_name@,
                self.guild_logo@ == old(self).guild_logo@,
                sent0 == old(self).sent@,
                sent0.is_prefix_of(self.sent@),
                self.destinations > 0 ==> self.sent@ == sent0,
            decreases self.remaining@.len(),
        {
            let ghost before = self.remaining@;
            let next = self.remaining.pop();
            match next {
                None => {
                    assert(before.len() == 0);
                    assert(self.sent@ + Seq::<i64>::empty() == self.sent@);
                    proof {
                        lemma_highest_at_least(self.sent@, w);
                    }
                    if self.latest > self.watermark {
                        self.phase = Phase::Saving;
                        return Step::SaveWatermark { match_id: self.latest };
                    } else {
                        self.phase = Phase::Done;
                        return Step::Done { delivered: self.delivered };
                    }
                },
                Some(entry) => {
                    assert(before.drop_last() == self.remaining@);
                    assert(self.remaining@ == self.received@.take(self.remaining@.len() as int));
                    assert(before[before.len() - 1] == self.received@[self.remaining@.len() as int]);
                    proof {
                        lemma_dispatched_step(before, w);
                    }
                    match entry {
                        None => {
                            assert(self.sent@ + Seq::<i64>::empty() == self.sent@);
                            self.phase = Phase::Failed;
                            return Step::Failed(PollerError::Parser(ParserError::Guild));
                        },
                        Some(m) => {
                            let id = match m.id {
                                Some(i) => i,
                                None => {
                                    assert(self.sent@ + Seq::<i64>::empty() == self.sent@);
                                    self.phase = Phase::Failed;
                                    return Step::Failed(PollerError::Parser(ParserError::Match));
                                },
                            };
                            if id <= self.watermark {
                                continue ;
                            }
                            let ghost gm = m;
                            match Publisher::prepare(
                                self.guild_id,
                                self.guild_name.as_str(),
                                self.guild_logo.as_str(),
                                m,
                            ) {
                                Err(e) => {
                                    assert(self.sent@ + Seq::<i64>::empty() == self.sent@);
                                    self.phase = Phase::Failed;
                                    return Step::Failed(PollerError::Parser(e));
                                },
                                Ok(rec) => {
                                    assert(self.sent@ + (seq![id] + dispatched(
                                        self.remaining@,
                                        w,
                                    )) == self.sent@ + seq![id] + dispatched(self.remaining@, w));
                                    if self.destinations == 0 {
                                        proof {
                                            lemma_highest_push(self.sent@, w, id);
                                        }
                                        assert(self.sent@.push(id) + dispatched(self.remaining@, w)
                                            =~= self.sent@ + seq![id] + dispatched(self.remaining@, w));
                                        self.sent = Ghost(self.sent@.push(id));
                                        if id > self.latest {
                                            self.latest = id;
                                        }
                                        self.delivered = self.delivered + 1;
                                        continue ;
                                    }
                                    self.record = Some(rec);
                                    self.record_id = id;
                                    self.destination = 0;
                                    self.current = Ghost(gm);
                                    self.phase = Phase::Publishing;
                                    return Step::Publish { destination: 0 };
                                },
                            }
                        },
                    }
                },
            }
        }
    }

    /// The record being sent.
    pub fn record(&self) -> (r: &PublishRecord)
        requires
            self.wf(),
            self.is_publishing(),
        ensures
            r.describes(self.guild_id(), self.guild_name(), self.guild_logo(), self.current()),
            self.sending(),
    {
        self.record.as_ref().unwrap()
    }

    /// Takes the outcome of sending the current record to the current destination. A
    /// failure ends the run on the spot: nothing more is sent and the watermark stays.
    pub fn on_published(&mut self, result: Result<(), PublisherError>) -> (step: Step)
        requires
            old(self).wf(),
            old(self).is_publishing(),
        ensures
            final(self).wf(),
            final(self).received() == old(self).received(),
            final(self).watermark() == old(self).watermark(),
            final(self).destinations() == old(self).destinations(),
            final(self).guild_id() == old(self).guild_id(),
            final(self).guild_name() == old(self).guild_name(),
            final(self).guild_logo() == old(self).guild_logo(),
            old(self).sending(),
            result matches Err(e) ==> {
                &&& step == Step::Failed(PollerError::Publisher(e))
                &&& final(self).is_failed()
                &&& final(self).sent() == old(self).sent()
                &&& final(self).remaining() == old(self).remaining()
            },
            result is Ok && old(self).destination() + 1 < old(self).destinations() ==> {
                &&& step == (Step::Publish { destination: (old(self).destination() + 1) as usize })
                &&& final(self).sending()
                &&& final(self).destination() == old(self).destination() + 1
                &&& final(self).in_flight() == old(self).in_flight()
                &&& final(self).current() == old(self).current()
                &&& final(self).sent() == old(self).sent()
                &&& final(self).remaining() == old(self).remaining()
            },
            result is Ok && old(self).destination() + 1 >= old(self).destinations() ==> {
                &&& final(self).sent() == old(self).sent().push(old(self).in_flight())
                &&& final(self).next_step(step)
            },
    {
        match result {
            Err(e) => {
                self.phase = Phase::Failed;
                Step::Failed(PollerError::Publisher(e))
            },
            Ok(()) => {
                if self.destination + 1 < self.destinations {
                    self.destination = self.destination + 1;
                    Step::Publish { destination: self.destination }
                } else {
                    let ghost w = self.watermark as int;
                    proof {
                        lemma_highest_push(self.sent@, w, self.record_id);
                        assert(self.sent@.push(self.record_id) == self.sent@ + seq![self.record_id]);
                    }
                    self.sent = Ghost(self.sent@.push(self.record_id));
                    if self.record_id > self.latest {
                        self.latest = self.record_id;
                    }
                    self.delivered = self.delivered + 1;
                    self.record = None;
                    self.advance()
                }
            },
        }
    }

    /// Takes the outcome of storing the new watermark.
    pub fn on_saved(&mut self, result: Result<(), ProviderError>) -> (step: Step)
        requires
            old(self).wf(),
            old(self).is_saving(),
        ensures
            final(self).wf(),
            final(self).sent() == old(self).sent(),
            result is Ok ==> final(self).is_done() && step == (Step::Done {
                delivered: old(self).sent().len() as usize,
            }),
            result matches Err(e) ==> final(self).is_failed() && step == Step::Failed(
                PollerError::Provider(e),
            ),
    {
        match result {
            Ok(()) => {
                self.phase = Phase::Done;
                Step::Done { delivered: self.delivered }
            },
            Err(e) => {
                self.phase = Phase::Failed;
                Step::Failed(PollerError::Provider(e))
            },
        }
    }
}

} // verus!

verus! {

/// The text a finished run reports: `Success`, or `Failure: ` and the error.
pub fn run_message(outcome: &Result<usize, PollerError>) -> (r: String)
    ensures
        outcome is Ok ==> r@ == "Success"@,
        outcome matches Err(e) ==> r@ == "Failure: "@ + e.text(),
{
    match outcome {
        Ok(_) => String::from_str("Success"),
        Err(e) => {
            let mut message = String::from_str("Failure: ");
            message.append(e.to_text().as_str());
            message
        },
    }
}

} // verus!
