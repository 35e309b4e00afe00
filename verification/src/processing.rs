//! The steps of the pipeline: what one frame, and one sweep, do to the
//! correlation table and to the observations.

use crate::dns::{DnsAnswer, DnsBody, DnsBodyView, DnsQuery, QuestionView};
use crate::metrics::{Metrics, Observation};
use crate::packet::{decoded, Error, Packet, PacketView};
use crate::tracking::{RequestTracker, Table};
use vstd::prelude::*;

verus! {

/// What a query leaves behind: one observation for the query and one for
/// each of its questions, in their order.
pub open spec fn query_observations(questions: Seq<QuestionView>) -> Seq<Observation> {
    seq![Observation::Query] + questions.map_values(
        |q: QuestionView|
            Observation::Question { query_type: q.query_type, query_class: q.query_class },
    )
}

/// What a matched answer leaves behind: the time since its query, or the
/// note that the answer is older than its query.
pub open spec fn answer_observation(query_timestamp: u64, answer_timestamp: u64) -> Observation {
    if query_timestamp <= answer_timestamp {
        Observation::QueryLatency { nanos: (answer_timestamp - query_timestamp) as u64 }
    } else {
        Observation::ClockRegression
    }
}

/// A captured frame: its bytes, from the Ethernet header on, and the time of
/// its capture in nanoseconds since the Unix epoch.
#[derive(Debug)]
pub struct Frame {
    pub timestamp: u64,
    pub data: Vec<u8>,
}

/// What a [`Frame`] holds.
pub struct FrameView {
    pub timestamp: u64,
    pub data: Seq<u8>,
}

impl View for Frame {
    type V = FrameView;

    open spec fn view(&self) -> FrameView {
        FrameView { timestamp: self.timestamp, data: self.data@ }
    }
}

/// What each frame of a sequence holds.
pub open spec fn frame_views(frames: Seq<Frame>) -> Seq<FrameView> {
    frames.map_values(|frame: Frame| frame@)
}

/// The state of a pipeline: its correlation table and the observations that
/// no exporter has taken yet.
pub struct Pipeline {
    pub table: Table,
    pub observations: Seq<Observation>,
}

impl Pipeline {
    /// The state after a decoded packet. A query is observed and recorded as
    /// outstanding. An answer takes the query that it matches out of the
    /// table and is observed; an answer that matches none changes nothing.
    pub open spec fn process_packet(self, packet: PacketView) -> Pipeline {
        match packet.body() {
            DnsBodyView::Query(query) => Pipeline {
                table: self.table.add_query(packet.id(), query),
                observations: self.observations + query_observations(query.questions),
            },
            DnsBodyView::Answer(answer) => match self.table.matched(packet.id()) {
                Some(query) => Pipeline {
                    table: self.table.match_answer(packet.id()),
                    observations: self.observations.push(
                        answer_observation(query.timestamp, answer.timestamp),
                    ),
                },
                None => self,
            },
        }
    }

    /// The state after a frame captured at `timestamp`. A frame that does
    /// not decode changes nothing.
    pub open spec fn process_frame(self, frame: Seq<u8>, timestamp: u64) -> Pipeline {
        match decoded(frame, timestamp) {
            Ok(packet) => self.process_packet(packet),
            Err(_) => self,
        }
    }

    /// The state after a sequence of frames, the first of them first.
    pub open spec fn process_frames(self, frames: Seq<FrameView>) -> Pipeline
        decreases frames.len(),
    {
        if frames.len() == 0 {
            self
        } else {
            self.process_frames(frames.drop_last()).process_frame(
                frames.last().data,
                frames.last().timestamp,
            )
        }
    }

    /// Whether the table has a sequence left for the frame, where the frame
    /// holds a query. No other frame needs one.
    pub open spec fn has_room_for(self, frame: FrameView) -> bool {
        match decoded(frame.data, frame.timestamp) {
            Ok(packet) => packet.message.query ==> self.table.next_sequence < u64::MAX,
            Err(_) => true,
        }
    }

    /// Whether the table has a sequence left for each query among the frames,
    /// at the time that the query comes.
    pub open spec fn has_room(self, frames: Seq<FrameView>) -> bool
        decreases frames.len(),
    {
        frames.len() == 0 || (self.has_room(frames.drop_last()) && self.process_frames(
            frames.drop_last(),
        ).has_room_for(frames.last()))
    }

    /// The state after a sweep at `now`: the due queries are gone, and their
    /// number is observed.
    pub open spec fn expire_requests(self, now: u64) -> Pipeline {
        Pipeline {
            table: self.table.expire(now),
            observations: self.observations.push(
                Observation::QueryTimeouts { count: self.table.due(now).len() as u64 },
            ),
        }
    }
}

/// An answer with no outstanding query leaves no trace: the table and the
/// observations stay as they are.
pub proof fn lemma_orphan_answer(pipeline: Pipeline, answer: PacketView)
    requires
        answer.body() is Answer,
        pipeline.table.matched(answer.id()) is None,
    ensures
        pipeline.process_packet(answer) == pipeline,
{
}

/// A query followed by its answer: the query and its questions are observed,
/// then the time between the two, or the clock regression where the answer
/// is older than the query. Either way the query is outstanding no
/// more.
pub proof fn lemma_query_then_answer(pipeline: Pipeline, query: PacketView, answer: PacketView)
    requires
        query.message.query,
        !answer.message.query,
        query.id() == answer.id(),
    ensures
        pipeline.process_packet(query).process_packet(answer).observations
            == pipeline.observations + query_observations(query.message.questions).push(
            answer_observation(query.timestamp, answer.timestamp),
        ),
        pipeline.process_packet(query).process_packet(answer).table.matched(query.id()) is None,
        pipeline.process_packet(query).process_packet(answer).table.queries
            == pipeline.table.queries.remove(query.id()),
{
    let after_query = pipeline.process_packet(query);
    let after_answer = after_query.process_packet(answer);
    assert(after_query.table.matched(query.id()) is Some);
    assert(after_answer.observations =~= pipeline.observations + query_observations(
        query.message.questions,
    ).push(answer_observation(query.timestamp, answer.timestamp)));
    assert(after_answer.table.queries =~= pipeline.table.queries.remove(query.id()));
}

/// An answer never counts as a query: it leaves at most one observation, the
/// time since its query or a clock regression. The query that it matches
/// leaves both indexes, whichever of the two is observed.
pub proof fn lemma_answer_consumes(pipeline: Pipeline, answer: PacketView)
    requires
        pipeline.table.wf(),
        !answer.message.query,
        pipeline.table.matched(answer.id()) is Some,
    ensures
        pipeline.process_packet(answer).observations == pipeline.observations.push(
            answer_observation(
                pipeline.table.queries[answer.id()].query.timestamp,
                answer.timestamp,
            ),
        ),
        !pipeline.process_packet(answer).table.queries.contains_key(answer.id()),
        !pipeline.process_packet(answer).table.deadlines.contains_key(
            pipeline.table.queries[answer.id()].sequence,
        ),
        pipeline.process_packet(answer).table.wf(),
{
    pipeline.table.lemma_match_answer_wf(answer.id());
}

/// A pipeline that has room for a sequence of frames has room for each of
/// its beginnings.
pub proof fn lemma_room_in_prefix(pipeline: Pipeline, frames: Seq<FrameView>, n: int)
    requires
        pipeline.has_room(frames),
        0 <= n <= frames.len(),
    ensures
        pipeline.has_room(frames.take(n)),
    decreases frames.len(),
{
    if n == frames.len() {
        assert(frames.take(n) =~= frames);
    } else {
        lemma_room_in_prefix(pipeline, frames.drop_last(), n);
        assert(frames.drop_last().take(n) =~= frames.take(n));
    }
}

/// A pipeline has room for a sequence of frames when its table has as many
/// sequences left as there are frames. Each frame takes at most one.
pub proof fn lemma_room_for_all(pipeline: Pipeline, frames: Seq<FrameView>)
    requires
        pipeline.table.next_sequence + frames.len() <= u64::MAX,
    ensures
        pipeline.has_room(frames),
        pipeline.table.next_sequence <= pipeline.process_frames(frames).table.next_sequence
            <= pipeline.table.next_sequence + frames.len(),
    decreases frames.len(),
{
    if frames.len() > 0 {
        lemma_room_for_all(pipeline, frames.drop_last());
    }
}

/// Frames that do not decode leave no trace, however many they are.
pub proof fn lemma_rejected_frames(pipeline: Pipeline, frames: Seq<FrameView>)
    requires
        forall|i: int|
            0 <= i < frames.len() ==> decoded(
                #[trigger] frames[i].data,
                frames[i].timestamp,
            ) is Err,
    ensures
        pipeline.process_frames(frames) == pipeline,
    decreases frames.len(),
{
    if frames.len() > 0 {
        lemma_rejected_frames(pipeline, frames.drop_last());
        assert(decoded(frames[frames.len() - 1].data, frames[frames.len() - 1].timestamp) is Err);
    }
}

/// A frame that does not decode leaves no trace.
pub proof fn lemma_rejected_frame(pipeline: Pipeline, frame: Seq<u8>, timestamp: u64)
    requires
        decoded(frame, timestamp) is Err,
    ensures
        pipeline.process_frame(frame, timestamp) == pipeline,
{
}

/// Feeds decoded frames to a correlation table and notes what it sees.
pub struct PacketProcessor {
    tracker: RequestTracker,
    metrics: Metrics,
}

impl View for PacketProcessor {
    type V = Pipeline;

    closed spec fn view(&self) -> Pipeline {
        Pipeline { table: self.tracker@, observations: self.metrics@ }
    }
}

impl PacketProcessor {
    /// The processor's table is well-formed.
    pub open spec fn wf(&self) -> bool {
        self@.table.wf()
    }

    pub fn new(tracker: RequestTracker, metrics: Metrics) -> (processor: Self)
        requires
            tracker.wf(),
        ensures
            processor.wf(),
            processor@ == (Pipeline { table: tracker@, observations: metrics@ }),
    {
        PacketProcessor { tracker, metrics }
    }

    /// The correlation table, to look into.
    pub fn tracker(&self) -> (tracker: &RequestTracker)
        ensures
            tracker@ == self@.table,
    {
        &self.tracker
    }

    /// Decodes a frame captured at `timestamp` and processes the packet. A
    /// frame that does not decode is dropped, and the reason is returned.
    pub fn process_frame(&mut self, data: &[u8], timestamp: u64) -> (dropped: Option<Error>)
        requires
            old(self).wf(),
            old(self)@.has_room_for(FrameView { timestamp, data: data@ }),
        ensures
            final(self).wf(),
            final(self)@ == old(self)@.process_frame(data@, timestamp),
            dropped == decoded(data@, timestamp).err(),
    {
        match Packet::new(data, timestamp) {
            Ok(packet) => {
                self.process_packet(packet);
                None
            },
            Err(e) => Some(e),
        }
    }

    /// Processes the frames of a capture, in their order. A frame that does
    /// not decode is dropped and stops nothing.
    pub fn run(&mut self, frames: &Vec<Frame>) -> (r: Result<(), ()>)
        requires
            old(self).wf(),
            old(self)@.has_room(frame_views(frames@)),
        ensures
            r is Ok,
            final(self).wf(),
            final(self)@ == old(self)@.process_frames(frame_views(frames@)),
    {
        let ghost views = frame_views(frames@);
        let mut i: usize = 0;
        while i < frames.len()
            invariant
                i <= frames.len(),
                views == frame_views(frames@),
                old(self)@.has_room(views),
                self.wf(),
                self@ == old(self)@.process_frames(views.take(i as int)),
            decreases frames.len() - i,
        {
            let frame = &frames[i];
            proof {
                lemma_room_in_prefix(old(self)@, views, i + 1);
                assert(views.take(i + 1).drop_last() =~= views.take(i as int));
                assert(views.take(i + 1).last() == frame@);
            }
            self.process_frame(frame.data.as_slice(), frame.timestamp);
            i = i + 1;
        }
        proof {
            assert(views.take(frames.len() as int) =~= views);
        }
        Ok(())
    }

    /// Processes a decoded packet.
    pub fn process_packet(&mut self, packet: Packet)
        requires
            old(self).wf(),
            packet@.message.query ==> old(self)@.table.next_sequence < u64::MAX,
        ensures
            final(self).wf(),
            final(self)@ == old(self)@.process_packet(packet@),
    {
        let id = packet.id();
        let body = packet.body();
        match body {
            DnsBody::Query(query) => {
                self.emit_query_metrics(&query);
                self.tracker.add_query(id, query);
            },
            DnsBody::Answer(answer) => {
                let outstanding = self.tracker.match_answer(&id);
                if let Some(query) = outstanding {
                    self.emit_answer_metrics(query.timestamp, answer);
                }
            },
        }
    }

    /// Sweeps the table at `now` and notes how many queries timed out.
    pub fn expire_requests(&mut self, now: u64) -> (removed: u64)
        requires
            old(self).wf(),
        ensures
            final(self).wf(),
            final(self)@ == old(self)@.expire_requests(now),
            removed == old(self)@.table.due(now).len(),
    {
        let removed = self.tracker.expire_requests(now);
        self.metrics.record_query_timeouts(removed);
        removed
    }

    /// Hands out the observations made since the last call, oldest first.
    pub fn take_observations(&mut self) -> (taken: Vec<Observation>)
        ensures
            taken@ == old(self)@.observations,
            final(self)@ == (Pipeline {
                table: old(self)@.table,
                observations: Seq::<Observation>::empty(),
            }),
    {
        self.metrics.take()
    }

    /// Notes a query and each of its questions, in their order.
    pub fn emit_query_metrics(&mut self, query: &DnsQuery)
        ensures
            final(self)@ == (Pipeline {
                table: old(self)@.table,
                observations: old(self)@.observations + query_observations(query@.questions),
            }),
    {
        self.metrics.record_query();
        let mut i: usize = 0;
        while i < query.questions.len()
            invariant
                i <= query.questions.len(),
                self.tracker == old(self).tracker,
                self.metrics@ == old(self).metrics@ + query_observations(
                    query@.questions,
                ).take(i + 1),
            decreases query.questions.len() - i,
        {
            let question = &query.questions[i];
            self.metrics.record_question(&question.query_type, &question.query_class);
            proof {
                let all = query_observations(query@.questions);
                assert(all.take(i + 2) =~= all.take(i + 1).push(all[i + 1]));
            }
            i = i + 1;
        }
        proof {
            let all = query_observations(query@.questions);
            assert(all.take(all.len() as int) =~= all);
        }
    }

    /// Notes the answer to a query that was captured at `query_timestamp`:
    /// the time between the two, or the clock regression where the answer
    /// is the older one.
    pub fn emit_answer_metrics(&mut self, query_timestamp: u64, answer: DnsAnswer)
        ensures
            final(self)@ == (Pipeline {
                table: old(self)@.table,
                observations: old(self)@.observations.push(
                    answer_observation(query_timestamp, answer.timestamp),
                ),
            }),
    {
        if query_timestamp <= answer.timestamp {
            self.metrics.observe_query_latency(answer.timestamp - query_timestamp);
        } else {
            self.metrics.record_clock_regression();
        }
    }
}

} // verus!
