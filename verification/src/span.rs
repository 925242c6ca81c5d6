//! Spans, and the journal of what each span was told.
//!
//! A span of the tracer cannot be read back, so every span keeps a journal:
//! the calls that were made on the tracer for it, in order. A span that is
//! still open has a journal that begins with its start and holds no end; to
//! end a span consumes it, so that a finished span has exactly one start and
//! exactly one end.

use vstd::prelude::*;
use opentelemetry::global::BoxedSpan;
use crate::attribute::{
    Attribute,
    AttributeValue,
    AttributeValueView,
    AttributeView,
    SpanStatus,
    SpanStatusView,
};
use crate::otel::{
    global_tracer,
    span_add_event,
    span_end,
    span_record_error,
    span_set_attribute,
    span_set_status,
    tracer_start,
};
use crate::telemetry::{
    exported_through,
    pipeline_view,
    ExportPipeline,
    ExportPipelineView,
    Telemetry,
};

verus! {

/// One call made on the tracer for a span.
#[derive(Debug, Clone, PartialEq, Eq)]
pub enum SpanCall {
    /// The span was started under `name`, by the tracer named `tracer`.
    Start { tracer: String, name: String },
    /// An attribute was set.
    SetAttribute { attribute: Attribute },
    /// An event was recorded.
    AddEvent { name: String },
    /// The status was set.
    SetStatus { status: SpanStatus },
    /// A failure was recorded as an exception.
    RecordError { message: String },
    /// The span was ended.
    End,
}

/// Mathematical model of a [`SpanCall`].
pub enum SpanCallView {
    Start { tracer: Seq<char>, name: Seq<char> },
    SetAttribute { attribute: AttributeView },
    AddEvent { name: Seq<char> },
    SetStatus { status: SpanStatusView },
    RecordError { message: Seq<char> },
    End,
}

impl View for SpanCall {
    type V = SpanCallView;

    open spec fn view(&self) -> SpanCallView {
        match self {
            SpanCall::Start { tracer, name } => SpanCallView::Start { tracer: tracer@, name: name@ },
            SpanCall::SetAttribute { attribute } => SpanCallView::SetAttribute {
                attribute: attribute@,
            },
            SpanCall::AddEvent { name } => SpanCallView::AddEvent { name: name@ },
            SpanCall::SetStatus { status } => SpanCallView::SetStatus { status: status@ },
            SpanCall::RecordError { message } => SpanCallView::RecordError { message: message@ },
            SpanCall::End => SpanCallView::End,
        }
    }
}

/// The model of a list of calls.
pub open spec fn journal_view(calls: Seq<SpanCall>) -> Seq<SpanCallView> {
    calls.map_values(|call: SpanCall| call@)
}

/// The journal of a span that was started and not ended: its first call is
/// the start, and no later call is a start or an end.
pub open spec fn is_open_journal(journal: Seq<SpanCallView>) -> bool {
    &&& journal.len() >= 1
    &&& journal[0] is Start
    &&& forall|i: int|
        1 <= i < journal.len() ==> !(#[trigger] journal[i] is Start) && !(journal[i] is End)
}

/// The journal of a finished span: that of an open span, and then the end.
pub open spec fn is_closed_journal(journal: Seq<SpanCallView>) -> bool {
    &&& journal.len() >= 2
    &&& is_open_journal(journal.drop_last())
    &&& journal.last() is End
}

/// The status that a journal leaves a span with: the one that was set last,
/// or `Unset` where none was set.
pub open spec fn journal_status(journal: Seq<SpanCallView>) -> SpanStatusView
    decreases journal.len(),
{
    if journal.len() == 0 {
        SpanStatusView::Unset
    } else {
        match journal.last() {
            SpanCallView::SetStatus { status } => status,
            _ => journal_status(journal.drop_last()),
        }
    }
}

/// The value that a journal leaves under `key`: the one that was set last, or
/// `None` where the key was never set.
pub open spec fn journal_attribute(journal: Seq<SpanCallView>, key: Seq<char>) -> Option<
    AttributeValueView,
>
    decreases journal.len(),
{
    if journal.len() == 0 {
        None
    } else {
        match journal.last() {
            SpanCallView::SetAttribute { attribute } if attribute.key == key => Some(
                attribute.value,
            ),
            _ => journal_attribute(journal.drop_last(), key),
        }
    }
}

/// A finished span has exactly one start, its first call, and exactly one end,
/// its last call.
pub proof fn lemma_closed_journal_starts_and_ends_once(journal: Seq<SpanCallView>)
    requires
        is_closed_journal(journal),
    ensures
        forall|i: int|
            0 <= i < journal.len() ==> (#[trigger] journal[i] is Start <==> i == 0),
        forall|i: int|
            0 <= i < journal.len() ==> (#[trigger] journal[i] is End <==> i == journal.len() - 1),
{
    let open = journal.drop_last();
    assert forall|i: int| 0 <= i < journal.len() implies (#[trigger] journal[i] is Start <==> i
        == 0) && (journal[i] is End <==> i == journal.len() - 1) by {
        if i < journal.len() - 1 {
            assert(journal[i] == open[i]);
        }
    }
}

/// To end an open span gives a finished one.
pub proof fn lemma_end_closes_journal(journal: Seq<SpanCallView>)
    requires
        is_open_journal(journal),
    ensures
        is_closed_journal(journal.push(SpanCallView::End)),
{
    assert(journal.push(SpanCallView::End).drop_last() =~= journal);
}

/// A call that is neither a start nor an end leaves an open span open.
pub proof fn lemma_call_keeps_journal_open(journal: Seq<SpanCallView>, call: SpanCallView)
    requires
        is_open_journal(journal),
        !(call is Start),
        !(call is End),
    ensures
        is_open_journal(journal.push(call)),
{
}

/// A span that was started and not yet ended.
pub struct TracedSpan {
    inner: BoxedSpan,
    calls: Vec<SpanCall>,
    pipeline: Option<ExportPipeline>,
}

impl TracedSpan {
    #[verifier::type_invariant]
    spec fn well_formed(self) -> bool {
        is_open_journal(journal_view(self.calls@))
    }

    /// The calls made for this span so far.
    pub closed spec fn journal(&self) -> Seq<SpanCallView> {
        journal_view(self.calls@)
    }

    /// The pipeline that the handle held when the span was started, if any.
    pub closed spec fn pipeline(&self) -> Option<ExportPipelineView> {
        pipeline_view(self.pipeline)
    }

    /// Starts a span under `name` with the tracer that the process has for
    /// `tracer`. Without an installed pipeline that is a tracer that drops
    /// its spans: the span is started all the same.
    pub fn start(telemetry: &Telemetry, tracer: &str, name: &str) -> (span: TracedSpan)
        ensures
            span.journal() == seq![SpanCallView::Start { tracer: tracer@, name: name@ }],
            span.pipeline() == exported_through(telemetry@),
            is_open_journal(span.journal()),
    {
        let handle = global_tracer(tracer);
        let inner = tracer_start(&handle, name);
        let calls = vec![SpanCall::Start { tracer: tracer.to_string(), name: name.to_string() }];
        assert(journal_view(calls@) =~= seq![
            SpanCallView::Start { tracer: tracer@, name: name@ },
        ]);
        TracedSpan { inner, calls, pipeline: telemetry.active_pipeline() }
    }

    /// Sets an attribute of the span.
    pub fn set_attribute(self, attribute: Attribute) -> (span: TracedSpan)
        ensures
            span.journal() == self.journal().push(
                SpanCallView::SetAttribute { attribute: attribute@ },
            ),
            span.pipeline() == self.pipeline(),
            is_open_journal(span.journal()),
    {
        proof {
            use_type_invariant(&self);
        }
        let TracedSpan { mut inner, calls, pipeline } = self;
        span_set_attribute(&mut inner, &attribute);
        TracedSpan { inner, calls, pipeline }.record(SpanCall::SetAttribute { attribute })
    }

    /// Records an event in the span.
    pub fn add_event(self, name: &str) -> (span: TracedSpan)
        ensures
            span.journal() == self.journal().push(SpanCallView::AddEvent { name: name@ }),
            span.pipeline() == self.pipeline(),
            is_open_journal(span.journal()),
    {
        proof {
            use_type_invariant(&self);
        }
        let TracedSpan { mut inner, calls, pipeline } = self;
        span_add_event(&mut inner, name);
        TracedSpan { inner, calls, pipeline }.record(SpanCall::AddEvent { name: name.to_string() })
    }

    /// Sets the status of the span.
    pub fn set_status(self, status: SpanStatus) -> (span: TracedSpan)
        ensures
            span.journal() == self.journal().push(SpanCallView::SetStatus { status: status@ }),
            span.pipeline() == self.pipeline(),
            is_open_journal(span.journal()),
    {
        proof {
            use_type_invariant(&self);
        }
        let TracedSpan { mut inner, calls, pipeline } = self;
        span_set_status(&mut inner, &status);
        TracedSpan { inner, calls, pipeline }.record(SpanCall::SetStatus { status })
    }

    /// Records a failure in the span, as an exception with the text
    /// `message`. This does not set the status.
    pub fn record_error(self, message: &str) -> (span: TracedSpan)
        ensures
            span.journal() == self.journal().push(
                SpanCallView::RecordError { message: message@ },
            ),
            span.pipeline() == self.pipeline(),
            is_open_journal(span.journal()),
    {
        proof {
            use_type_invariant(&self);
        }
        let TracedSpan { mut inner, calls, pipeline } = self;
        span_record_error(&mut inner, message);
        TracedSpan { inner, calls, pipeline }.record(
            SpanCall::RecordError { message: message.to_string() },
        )
    }

    /// Ends the span. The span is consumed: it cannot be ended again, nor
    /// told anything more.
    pub fn end(self) -> (finished: FinishedSpan)
        ensures
            finished.journal() == self.journal().push(SpanCallView::End),
            finished.pipeline() == self.pipeline(),
            is_closed_journal(finished.journal()),
    {
        proof {
            use_type_invariant(&self);
            lemma_end_closes_journal(self.journal());
        }
        let TracedSpan { inner, mut calls, pipeline } = self;
        span_end(inner);
        calls.push(SpanCall::End);
        assert(journal_view(calls@) =~= self.journal().push(SpanCallView::End));
        FinishedSpan { calls, pipeline }
    }

    /// Appends a call that is neither a start nor an end to the journal.
    fn record(self, call: SpanCall) -> (span: TracedSpan)
        requires
            !(call is Start),
            !(call is End),
        ensures
            span.journal() == self.journal().push(call@),
            span.pipeline() == self.pipeline(),
            is_open_journal(span.journal()),
    {
        proof {
            use_type_invariant(&self);
            lemma_call_keeps_journal_open(self.journal(), call@);
        }
        let TracedSpan { inner, mut calls, pipeline } = self;
        calls.push(call);
        assert(journal_view(calls@) =~= self.journal().push(call@));
        TracedSpan { inner, calls, pipeline }
    }
}

/// A span that was ended.
#[derive(Debug)]
pub struct FinishedSpan {
    calls: Vec<SpanCall>,
    pipeline: Option<ExportPipeline>,
}

impl FinishedSpan {
    #[verifier::type_invariant]
    spec fn well_formed(self) -> bool {
        is_closed_journal(journal_view(self.calls@))
    }

    /// The calls made for this span, from its start to its end.
    pub closed spec fn journal(&self) -> Seq<SpanCallView> {
        journal_view(self.calls@)
    }

    /// The pipeline that the handle held when the span was started, if any.
    pub closed spec fn pipeline(&self) -> Option<ExportPipelineView> {
        pipeline_view(self.pipeline)
    }

    /// The calls made for this span, from its start to its end.
    pub fn calls(&self) -> (calls: &Vec<SpanCall>)
        ensures
            journal_view(calls@) == self.journal(),
            is_closed_journal(self.journal()),
    {
        proof {
            use_type_invariant(self);
        }
        &self.calls
    }

    /// The pipeline through which the span is exported: the one that the
    /// handle held when the span was started. `None` where it held none, and
    /// the span is dropped.
    pub fn exported_through(&self) -> (pipeline: &Option<ExportPipeline>)
        ensures
            pipeline_view(*pipeline) == self.pipeline(),
    {
        &self.pipeline
    }

    /// The status that the span was left with.
    pub fn status(&self) -> (status: SpanStatus)
        ensures
            status@ == journal_status(self.journal()),
    {
        let ghost journal = self.journal();
        let mut i: usize = self.calls.len();
        assert(journal.take(i as int) =~= journal);
        while i > 0
            invariant
                i <= self.calls.len(),
                journal == journal_view(self.calls@),
                journal_status(journal) == journal_status(journal.take(i as int)),
            decreases i,
        {
            assert(journal.take(i as int).drop_last() =~= journal.take(i as int - 1));
            assert(journal.take(i as int).last() == self.calls[i as int - 1]@);
            match &self.calls[i - 1] {
                SpanCall::SetStatus { status } => {
                    return status.duplicate();
                },
                _ => {},
            }
            i = i - 1;
        }
        SpanStatus::Unset
    }

    /// The value that the span was left with under `key`, if any.
    pub fn attribute(&self, key: &str) -> (value: Option<AttributeValue>)
        ensures
            match value {
                Some(v) => journal_attribute(self.journal(), key@) == Some(v@),
                None => journal_attribute(self.journal(), key@) is None,
            },
    {
        let ghost journal = self.journal();
        let wanted = key.to_string();
        let mut i: usize = self.calls.len();
        assert(journal.take(i as int) =~= journal);
        while i > 0
            invariant
                i <= self.calls.len(),
                wanted@ == key@,
                journal == journal_view(self.calls@),
                journal_attribute(journal, key@) == journal_attribute(
                    journal.take(i as int),
                    key@,
                ),
            decreases i,
        {
            assert(journal.take(i as int).drop_last() =~= journal.take(i as int - 1));
            assert(journal.take(i as int).last() == self.calls[i as int - 1]@);
            match &self.calls[i - 1] {
                SpanCall::SetAttribute { attribute } => {
                    if attribute.key == wanted {
                        return Some(attribute.value.duplicate());
                    }
                },
                _ => {},
            }
            i = i - 1;
        }
        None
    }
}

} // verus!
