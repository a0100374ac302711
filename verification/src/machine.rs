//! The page/revision extraction state machine.
//!
//! The machine consumes one lexical event per step. Its transition relation
//! is stated once, as the specification function [`spec_step`]; the
//! executable [`Machine::step`] returns exactly what [`spec_step`] says, for
//! every event and every byte position. [`spec_run`] folds the transition
//! over a whole event sequence and collects everything the machine yields.

use vstd::prelude::*;

use crate::error::Error;
use crate::error::ErrorModel;
use crate::events::find_title_attr;
use crate::events::first_title_attr;
use crate::events::format_name;
use crate::events::mediawiki_name;
use crate::events::model_name;
use crate::events::name_is;
use crate::events::ns_name;
use crate::events::page_name;
use crate::events::recognized_namespace;
use crate::events::redirect_name;
use crate::events::revision_name;
use crate::events::spec_match_namespace;
use crate::events::text_name;
use crate::events::title_name;
use crate::events::EventModel;
use crate::events::XmlEvent;
use crate::namespace::FromNamespaceId;
use crate::namespace::NamespaceId;
use crate::numtext::spec_parse_i32;
use crate::numtext::parse_i32_text;
use crate::page::opt_string_view;
use crate::page::Page;
use crate::page::PageModel;

verus! {

/// Which enclosing element an unrecognized subtree is being skipped under.
#[derive(Clone, Copy, Debug)]
pub enum SkipContext {
    /// Directly under the root element.
    Root,
    /// Under a `page` element.
    Page,
    /// Under a `revision` element.
    Revision,
}

/// Which scalar field a just-opened element is being read into.
#[derive(Clone, Copy, Debug)]
pub enum FieldTarget {
    /// The `ns` element of a page.
    PageNs,
    /// The `title` element of a page.
    PageTitle,
    /// The `format` element of a revision.
    RevisionFormat,
    /// The `model` element of a revision.
    RevisionModel,
    /// The `text` element of a revision.
    RevisionText,
}

/// The control state of the machine.
pub enum Phase {
    /// Scanning for the root element; nothing recognized yet.
    BeforeRoot,
    /// Inside the root element, between pages.
    InRoot,
    /// Inside a `page` element.
    InPage,
    /// Inside the single `revision` element of a page.
    InRevision,
    /// Discarding an unrecognized subtree: the number of open descendant
    /// elements, and where to return once the subtree closes.
    Skip {
        /// Where to return once the subtree closes.
        ctx: SkipContext,
        /// How many descendant elements are open.
        depth: u64,
    },
    /// A recognized scalar element was just opened; its text is expected.
    FieldStart {
        /// The field being read.
        target: FieldTarget,
    },
    /// The text of a scalar element was read; its end tag is expected.
    FieldText {
        /// The field being read.
        target: FieldTarget,
        /// The text read so far.
        value: String,
    },
    /// Exhausted: the document ended or an error was yielded.
    Done,
}

/// The mathematical shape of the control state.
#[verifier::ext_equal]
pub enum PhaseModel {
    /// Scanning for the root element.
    BeforeRoot,
    /// Inside the root element.
    InRoot,
    /// Inside a `page` element.
    InPage,
    /// Inside a `revision` element.
    InRevision,
    /// Discarding an unrecognized subtree.
    Skip {
        /// Where to return once the subtree closes.
        ctx: SkipContext,
        /// How many descendant elements are open.
        depth: u64,
    },
    /// A recognized scalar element was just opened.
    FieldStart {
        /// The field being read.
        target: FieldTarget,
    },
    /// The text of a scalar element was read.
    FieldText {
        /// The field being read.
        target: FieldTarget,
        /// The text read so far.
        value: Seq<char>,
    },
    /// Exhausted.
    Done,
}

impl View for Phase {
    type V = PhaseModel;

    open spec fn view(&self) -> PhaseModel {
        match self {
            Phase::BeforeRoot => PhaseModel::BeforeRoot,
            Phase::InRoot => PhaseModel::InRoot,
            Phase::InPage => PhaseModel::InPage,
            Phase::InRevision => PhaseModel::InRevision,
            Phase::Skip { ctx, depth } => PhaseModel::Skip { ctx: *ctx, depth: *depth },
            Phase::FieldStart { target } => PhaseModel::FieldStart { target: *target },
            Phase::FieldText { target, value } => PhaseModel::FieldText {
                target: *target,
                value: value@,
            },
            Phase::Done => PhaseModel::Done,
        }
    }
}

/// The fields collected for the page being read.
pub struct Fields<N> {
    /// The converted namespace, once the `ns` element was read.
    pub namespace: Option<N>,
    /// The title, once the `title` element was read.
    pub title: Option<String>,
    /// The redirect target, once a `redirect` element was seen.
    pub redirect_title: Option<String>,
    /// The format, once the revision's `format` element was read.
    pub format: Option<String>,
    /// The model, once the revision's `model` element was read.
    pub model: Option<String>,
    /// The text, once the revision's `text` element was read.
    pub text: Option<String>,
}

/// The mathematical shape of the collected fields.
#[verifier::ext_equal]
pub struct FieldsModel<N> {
    /// The converted namespace, if read.
    pub namespace: Option<N>,
    /// The title, if read.
    pub title: Option<Seq<char>>,
    /// The redirect target, if seen.
    pub redirect_title: Option<Seq<char>>,
    /// The format, if read.
    pub format: Option<Seq<char>>,
    /// The model, if read.
    pub model: Option<Seq<char>>,
    /// The text, if read.
    pub text: Option<Seq<char>>,
}

impl<N> View for Fields<N> {
    type V = FieldsModel<N>;

    open spec fn view(&self) -> FieldsModel<N> {
        FieldsModel {
            namespace: self.namespace,
            title: opt_string_view(&self.title),
            redirect_title: opt_string_view(&self.redirect_title),
            format: opt_string_view(&self.format),
            model: opt_string_view(&self.model),
            text: opt_string_view(&self.text),
        }
    }
}

/// No field collected yet.
pub open spec fn spec_fields_empty<N>() -> FieldsModel<N> {
    FieldsModel {
        namespace: None,
        title: None,
        redirect_title: None,
        format: None,
        model: None,
        text: None,
    }
}

/// The extraction state machine over lexical events.
pub struct Machine<N> {
    /// The control state.
    pub phase: Phase,
    /// The fields collected for the page being read.
    pub fields: Fields<N>,
}

/// The mathematical shape of the machine.
#[verifier::ext_equal]
pub struct MachineModel<N> {
    /// The control state.
    pub phase: PhaseModel,
    /// The fields collected for the page being read.
    pub fields: FieldsModel<N>,
}

impl<N> View for Machine<N> {
    type V = MachineModel<N>;

    open spec fn view(&self) -> MachineModel<N> {
        MachineModel { phase: self.phase@, fields: self.fields@ }
    }
}

/// The state of a machine that has consumed nothing.
pub open spec fn spec_init<N>() -> MachineModel<N> {
    MachineModel { phase: PhaseModel::BeforeRoot, fields: spec_fields_empty() }
}

/// What one step of the machine yields.
pub enum StepOutcome<N> {
    /// Nothing yet: another event is needed.
    Pending,
    /// A completed page record.
    Emit(Page<N>),
    /// The document is complete; nothing further will be yielded.
    Finished,
    /// A terminal error; nothing further will be yielded.
    Fail(Error),
}

/// The mathematical shape of a step's yield.
#[verifier::ext_equal]
pub enum StepOutcomeModel<N> {
    /// Nothing yet.
    Pending,
    /// A completed page record.
    Emit(PageModel<N>),
    /// The document is complete.
    Finished,
    /// A terminal error.
    Fail(ErrorModel),
}

impl<N> View for StepOutcome<N> {
    type V = StepOutcomeModel<N>;

    open spec fn view(&self) -> StepOutcomeModel<N> {
        match self {
            StepOutcome::Pending => StepOutcomeModel::Pending,
            StepOutcome::Emit(p) => StepOutcomeModel::Emit(p@),
            StepOutcome::Finished => StepOutcomeModel::Finished,
            StepOutcome::Fail(e) => StepOutcomeModel::Fail(e@),
        }
    }
}

/// The machine halted with an error: the phase becomes exhausted, the
/// fields stay as they were.
pub open spec fn spec_fail<N>(m: MachineModel<N>, e: ErrorModel) -> (MachineModel<N>,
    StepOutcomeModel<N>) {
    (MachineModel { phase: PhaseModel::Done, ..m }, StepOutcomeModel::Fail(e))
}

/// The phase an unrecognized subtree returns to once it closes.
pub open spec fn spec_skip_return(ctx: SkipContext) -> PhaseModel {
    match ctx {
        SkipContext::Root => PhaseModel::InRoot,
        SkipContext::Page => PhaseModel::InPage,
        SkipContext::Revision => PhaseModel::InRevision,
    }
}

/// One step while scanning for the root element: the first start tag must
/// be `mediawiki` in the export namespace; everything before it is ignored.
pub open spec fn spec_step_before_root<N>(m: MachineModel<N>, ev: EventModel, pos: usize) -> (
    MachineModel<N>,
    StepOutcomeModel<N>,
) {
    match ev {
        EventModel::Start { namespace, name, attrs } => if spec_match_namespace(namespace)
            && name == mediawiki_name() {
            (MachineModel { phase: PhaseModel::InRoot, ..m }, StepOutcomeModel::Pending)
        } else {
            spec_fail(m, ErrorModel::Format(pos))
        },
        EventModel::Eof => spec_fail(m, ErrorModel::Format(pos)),
        _ => (m, StepOutcomeModel::Pending),
    }
}

/// One step between pages: the root's end tag completes the document, a
/// `page` start tag opens a page, any other start tag opens an unrecognized
/// subtree.
pub open spec fn spec_step_in_root<N>(m: MachineModel<N>, ev: EventModel, pos: usize) -> (
    MachineModel<N>,
    StepOutcomeModel<N>,
) {
    match ev {
        EventModel::End => (
            MachineModel { phase: PhaseModel::Done, ..m },
            StepOutcomeModel::Finished,
        ),
        EventModel::Start { namespace, name, attrs } => if spec_match_namespace(namespace)
            && name == page_name() {
            (
                MachineModel { phase: PhaseModel::InPage, fields: spec_fields_empty() },
                StepOutcomeModel::Pending,
            )
        } else {
            (
                MachineModel {
                    phase: PhaseModel::Skip { ctx: SkipContext::Root, depth: 0 },
                    ..m
                },
                StepOutcomeModel::Pending,
            )
        },
        EventModel::Eof => spec_fail(m, ErrorModel::Format(pos)),
        _ => (m, StepOutcomeModel::Pending),
    }
}

/// One step while discarding an unrecognized subtree: a running depth
/// counter, decremented on end tags and incremented on start tags.
pub open spec fn spec_step_skip<N>(
    m: MachineModel<N>,
    ctx: SkipContext,
    depth: u64,
    ev: EventModel,
    pos: usize,
) -> (MachineModel<N>, StepOutcomeModel<N>) {
    match ev {
        EventModel::End => if depth == 0 {
            (MachineModel { phase: spec_skip_return(ctx), ..m }, StepOutcomeModel::Pending)
        } else {
            (
                MachineModel {
                    phase: PhaseModel::Skip { ctx, depth: (depth - 1) as u64 },
                    ..m
                },
                StepOutcomeModel::Pending,
            )
        },
        EventModel::Start { namespace, name, attrs } => if depth == u64::MAX {
            spec_fail(m, ErrorModel::Format(pos))
        } else {
            (
                MachineModel {
                    phase: PhaseModel::Skip { ctx, depth: (depth + 1) as u64 },
                    ..m
                },
                StepOutcomeModel::Pending,
            )
        },
        EventModel::Eof => spec_fail(m, ErrorModel::Format(pos)),
        _ => (m, StepOutcomeModel::Pending),
    }
}

/// Whether every required field of a page was collected.
pub open spec fn spec_page_complete<N>(fields: FieldsModel<N>) -> bool {
    fields.namespace is Some && fields.text is Some && fields.title is Some
}

/// The record a completed page yields.
pub open spec fn spec_page_of<N>(fields: FieldsModel<N>) -> PageModel<N>
    recommends
        spec_page_complete(fields),
{
    PageModel {
        format: fields.format,
        model: fields.model,
        namespace: fields.namespace->0,
        text: fields.text->0,
        title: fields.title->0,
        redirect_title: fields.redirect_title,
    }
}

/// One step inside a `page` element.
pub open spec fn spec_step_in_page<N: FromNamespaceId>(
    m: MachineModel<N>,
    ev: EventModel,
    pos: usize,
) -> (MachineModel<N>, StepOutcomeModel<N>) {
    match ev {
        EventModel::End => if spec_page_complete(m.fields) {
            (
                MachineModel { phase: PhaseModel::InRoot, fields: spec_fields_empty() },
                StepOutcomeModel::Emit(spec_page_of(m.fields)),
            )
        } else {
            spec_fail(m, ErrorModel::Format(pos))
        },
        EventModel::Start { namespace, name, attrs } => if !spec_match_namespace(namespace) {
            (
                MachineModel {
                    phase: PhaseModel::Skip { ctx: SkipContext::Page, depth: 0 },
                    ..m
                },
                StepOutcomeModel::Pending,
            )
        } else if name == ns_name() {
            if m.fields.namespace is Some {
                spec_fail(m, ErrorModel::Format(pos))
            } else {
                (
                    MachineModel {
                        phase: PhaseModel::FieldStart { target: FieldTarget::PageNs },
                        ..m
                    },
                    StepOutcomeModel::Pending,
                )
            }
        } else if name == redirect_name() {
            match first_title_attr(attrs) {
                None => spec_fail(m, ErrorModel::Format(pos)),
                Some(v) => (
                    MachineModel {
                        phase: PhaseModel::Skip { ctx: SkipContext::Page, depth: 0 },
                        fields: FieldsModel { redirect_title: Some(v), ..m.fields },
                    },
                    StepOutcomeModel::Pending,
                ),
            }
        } else if name == revision_name() {
            if m.fields.text is Some {
                spec_fail(m, ErrorModel::NotSupported(pos))
            } else {
                (
                    MachineModel { phase: PhaseModel::InRevision, ..m },
                    StepOutcomeModel::Pending,
                )
            }
        } else if name == title_name() {
            if m.fields.title is Some {
                spec_fail(m, ErrorModel::Format(pos))
            } else {
                (
                    MachineModel {
                        phase: PhaseModel::FieldStart { target: FieldTarget::PageTitle },
                        ..m
                    },
                    StepOutcomeModel::Pending,
                )
            }
        } else {
            (
                MachineModel {
                    phase: PhaseModel::Skip { ctx: SkipContext::Page, depth: 0 },
                    ..m
                },
                StepOutcomeModel::Pending,
            )
        },
        EventModel::Eof => spec_fail(m, ErrorModel::Format(pos)),
        _ => (m, StepOutcomeModel::Pending),
    }
}

/// One step inside a `revision` element.
pub open spec fn spec_step_in_revision<N>(m: MachineModel<N>, ev: EventModel, pos: usize) -> (
    MachineModel<N>,
    StepOutcomeModel<N>,
) {
    match ev {
        EventModel::End => if m.fields.text is Some {
            (MachineModel { phase: PhaseModel::InPage, ..m }, StepOutcomeModel::Pending)
        } else {
            spec_fail(m, ErrorModel::Format(pos))
        },
        EventModel::Start { namespace, name, attrs } => if !spec_match_namespace(namespace) {
            (
                MachineModel {
                    phase: PhaseModel::Skip { ctx: SkipContext::Revision, depth: 0 },
                    ..m
                },
                StepOutcomeModel::Pending,
            )
        } else if name == format_name() {
            if m.fields.format is Some {
                spec_fail(m, ErrorModel::Format(pos))
            } else {
                (
                    MachineModel {
                        phase: PhaseModel::FieldStart { target: FieldTarget::RevisionFormat },
                        ..m
                    },
                    StepOutcomeModel::Pending,
                )
            }
        } else if name == model_name() {
            if m.fields.model is Some {
                spec_fail(m, ErrorModel::Format(pos))
            } else {
                (
                    MachineModel {
                        phase: PhaseModel::FieldStart { target: FieldTarget::RevisionModel },
                        ..m
                    },
                    StepOutcomeModel::Pending,
                )
            }
        } else if name == text_name() {
            if m.fields.text is Some {
                spec_fail(m, ErrorModel::Format(pos))
            } else {
                (
                    MachineModel {
                        phase: PhaseModel::FieldStart { target: FieldTarget::RevisionText },
                        ..m
                    },
                    StepOutcomeModel::Pending,
                )
            }
        } else {
            (
                MachineModel {
                    phase: PhaseModel::Skip { ctx: SkipContext::Revision, depth: 0 },
                    ..m
                },
                StepOutcomeModel::Pending,
            )
        },
        EventModel::Eof => spec_fail(m, ErrorModel::Format(pos)),
        _ => (m, StepOutcomeModel::Pending),
    }
}

/// Stores the completed text of a scalar element and returns to its
/// enclosing phase. The namespace field parses the text as a 32-bit integer
/// and converts it; a parse failure is a format error, a conversion failure
/// is a namespace error carrying the offending identifier.
pub open spec fn spec_finish_field<N: FromNamespaceId>(
    m: MachineModel<N>,
    target: FieldTarget,
    value: Seq<char>,
    pos: usize,
) -> (MachineModel<N>, StepOutcomeModel<N>) {
    match target {
        FieldTarget::PageNs => (match spec_parse_i32(value) {
            None => spec_fail(m, ErrorModel::Format(pos)),
            Some(v) => (match N::spec_from_namespace_id(NamespaceId(v)) {
                None => spec_fail(
                    m,
                    ErrorModel::Namespace { id: NamespaceId(v), position: pos },
                ),
                Some(n) => (
                    MachineModel {
                        phase: PhaseModel::InPage,
                        fields: FieldsModel { namespace: Some(n), ..m.fields },
                    },
                    StepOutcomeModel::Pending,
                ),
            }),
        }),
        FieldTarget::PageTitle => (
            MachineModel {
                phase: PhaseModel::InPage,
                fields: FieldsModel { title: Some(value), ..m.fields },
            },
            StepOutcomeModel::Pending,
        ),
        FieldTarget::RevisionFormat => (
            MachineModel {
                phase: PhaseModel::InRevision,
                fields: FieldsModel { format: Some(value), ..m.fields },
            },
            StepOutcomeModel::Pending,
        ),
        FieldTarget::RevisionModel => (
            MachineModel {
                phase: PhaseModel::InRevision,
                fields: FieldsModel { model: Some(value), ..m.fields },
            },
            StepOutcomeModel::Pending,
        ),
        FieldTarget::RevisionText => (
            MachineModel {
                phase: PhaseModel::InRevision,
                fields: FieldsModel { text: Some(value), ..m.fields },
            },
            StepOutcomeModel::Pending,
        ),
    }
}

/// One step right after a recognized scalar element was opened: its text,
/// or an immediate end tag for an empty value; anything else is a format
/// error.
pub open spec fn spec_step_field_start<N: FromNamespaceId>(
    m: MachineModel<N>,
    target: FieldTarget,
    ev: EventModel,
    pos: usize,
) -> (MachineModel<N>, StepOutcomeModel<N>) {
    match ev {
        EventModel::Text(s) => (
            MachineModel { phase: PhaseModel::FieldText { target, value: s }, ..m },
            StepOutcomeModel::Pending,
        ),
        EventModel::End => spec_finish_field(m, target, Seq::empty(), pos),
        _ => spec_fail(m, ErrorModel::Format(pos)),
    }
}

/// The transition relation of the machine: what one lexical event at one
/// byte position does to the state, and what the step yields.
pub open spec fn spec_step<N: FromNamespaceId>(m: MachineModel<N>, ev: EventModel, pos: usize) -> (
    MachineModel<N>,
    StepOutcomeModel<N>,
) {
    match m.phase {
        PhaseModel::BeforeRoot => spec_step_before_root(m, ev, pos),
        PhaseModel::InRoot => spec_step_in_root(m, ev, pos),
        PhaseModel::InPage => spec_step_in_page(m, ev, pos),
        PhaseModel::InRevision => spec_step_in_revision(m, ev, pos),
        PhaseModel::Skip { ctx, depth } => spec_step_skip(m, ctx, depth, ev, pos),
        PhaseModel::FieldStart { target } => spec_step_field_start(m, target, ev, pos),
        PhaseModel::FieldText { target, value } => (match ev {
            EventModel::End => spec_finish_field(m, target, value, pos),
            _ => spec_fail(m, ErrorModel::Format(pos)),
        }),
        PhaseModel::Done => (m, StepOutcomeModel::Pending),
    }
}

/// The machine folded over a whole sequence of events with their byte
/// positions: the final state, and everything yielded along the way, in
/// order, with the pending steps left out.
pub open spec fn spec_run<N: FromNamespaceId>(
    m: MachineModel<N>,
    evs: Seq<(EventModel, usize)>,
) -> (MachineModel<N>, Seq<StepOutcomeModel<N>>)
    decreases evs.len(),
{
    if evs.len() == 0 {
        (m, Seq::empty())
    } else {
        let first = spec_step(m, evs[0].0, evs[0].1);
        let rest = spec_run(first.0, evs.drop_first());
        (
            rest.0,
            (if first.1 is Pending {
                rest.1
            } else {
                seq![first.1] + rest.1
            }),
        )
    }
}

/// What running one more event yields: the run over the shorter sequence,
/// followed by one step from its final state.
pub proof fn lemma_spec_run_snoc<N: FromNamespaceId>(
    m: MachineModel<N>,
    evs: Seq<(EventModel, usize)>,
    e: (EventModel, usize),
)
    ensures
        ({
            let mid = spec_run(m, evs);
            let last = spec_step(mid.0, e.0, e.1);
            spec_run(m, evs.push(e)) == (
                last.0,
                (if last.1 is Pending {
                    mid.1
                } else {
                    mid.1.push(last.1)
                }),
            )
        }),
    decreases evs.len(),
{
    reveal_with_fuel(spec_run, 3);
    let mid = spec_run(m, evs);
    let last = spec_step(mid.0, e.0, e.1);
    let goal = (
        last.0,
        (if last.1 is Pending {
            mid.1
        } else {
            mid.1.push(last.1)
        }),
    );
    if evs.len() == 0 {
        assert(evs.push(e)[0] == e);
        assert(evs.push(e).drop_first() =~= Seq::<(EventModel, usize)>::empty());
        assert(spec_run(m, evs.push(e)).0 == goal.0);
        if last.1 is Pending {
            assert(spec_run(m, evs.push(e)).1 =~= goal.1);
        } else {
            assert(spec_run(m, evs.push(e)).1 == seq![last.1] + Seq::<StepOutcomeModel<N>>::empty());
            assert(spec_run(m, evs.push(e)).1 =~= goal.1);
        }
    } else {
        let first = spec_step(m, evs[0].0, evs[0].1);
        assert(evs.push(e)[0] == evs[0]);
        assert(evs.push(e).drop_first() =~= evs.drop_first().push(e));
        lemma_spec_run_snoc(first.0, evs.drop_first(), e);
        let midr = spec_run(first.0, evs.drop_first());
        let lastr = spec_step(midr.0, e.0, e.1);
        assert(mid.0 == midr.0);
        assert(lastr == last);
        assert(spec_run(m, evs.push(e)).0 == goal.0);
        assert(spec_run(m, evs.push(e)).1 =~= goal.1);
    }
    assert(spec_run(m, evs.push(e)).0 == goal.0);
    assert(spec_run(m, evs.push(e)).1 == goal.1);
}

/// An exhausted machine stays exhausted and yields nothing, whatever events
/// are offered to it.
pub proof fn lemma_spec_run_done<N: FromNamespaceId>(
    m: MachineModel<N>,
    evs: Seq<(EventModel, usize)>,
)
    requires
        m.phase is Done,
    ensures
        spec_run(m, evs).0 == m,
        spec_run(m, evs).1 == Seq::<StepOutcomeModel<N>>::empty(),
    decreases evs.len(),
{
    if evs.len() > 0 {
        lemma_spec_run_done(m, evs.drop_first());
    }
}

impl<N: FromNamespaceId> Machine<N> {
    /// A machine that has consumed nothing.
    pub fn new() -> (r: Self)
        ensures
            r@ == spec_init::<N>(),
    {
        Machine {
            phase: Phase::BeforeRoot,
            fields: Fields {
                namespace: None,
                title: None,
                redirect_title: None,
                format: None,
                model: None,
                text: None,
            },
        }
    }

    /// Marks the machine exhausted, as after a reader failure: no further
    /// events are fed and nothing further is yielded.
    pub fn halt(&mut self)
        ensures
            final(self)@ == (MachineModel { phase: PhaseModel::Done, ..old(self)@ }),
    {
        self.phase = Phase::Done;
    }

    /// Whether the machine is exhausted and must not be fed further events.
    pub fn is_done(&self) -> (r: bool)
        ensures
            r == (self@.phase is Done),
    {
        match self.phase {
            Phase::Done => true,
            _ => false,
        }
    }

    /// Stores the completed text of a scalar element, exactly as
    /// [`spec_finish_field`] says.
    fn finish_field(&mut self, target: FieldTarget, value: String, pos: usize) -> (r: StepOutcome<
        N,
    >)
        ensures
            spec_finish_field(old(self)@, target, value@, pos) == (final(self)@, r@),
    {
        match target {
            FieldTarget::PageNs => match parse_i32_text(value.as_str()) {
                None => {
                    self.phase = Phase::Done;
                    StepOutcome::Fail(Error::Format(pos))
                },
                Some(v) => match N::from_namespace_id(NamespaceId(v)) {
                    None => {
                        self.phase = Phase::Done;
                        StepOutcome::Fail(
                            Error::Namespace { id: NamespaceId(v), position: pos },
                        )
                    },
                    Some(n) => {
                        self.fields.namespace = Some(n);
                        self.phase = Phase::InPage;
                        StepOutcome::Pending
                    },
                },
            },
            FieldTarget::PageTitle => {
                self.fields.title = Some(value);
                self.phase = Phase::InPage;
                StepOutcome::Pending
            },
            FieldTarget::RevisionFormat => {
                self.fields.format = Some(value);
                self.phase = Phase::InRevision;
                StepOutcome::Pending
            },
            FieldTarget::RevisionModel => {
                self.fields.model = Some(value);
                self.phase = Phase::InRevision;
                StepOutcome::Pending
            },
            FieldTarget::RevisionText => {
                self.fields.text = Some(value);
                self.phase = Phase::InRevision;
                StepOutcome::Pending
            },
        }
    }

    /// Feeds one lexical event, read at one byte position, to the machine.
    /// The new state and the yield are exactly what [`spec_step`] says of
    /// them.
    pub fn step(&mut self, ev: XmlEvent, pos: usize) -> (r: StepOutcome<N>)
        ensures
            spec_step(old(self)@, ev@, pos) == (final(self)@, r@),
    {
        let mut ph = Phase::Done;
        core::mem::swap(&mut ph, &mut self.phase);
        match ph {
            Phase::BeforeRoot => match ev {
                XmlEvent::Start { namespace, name, attrs } => {
                    if recognized_namespace(&namespace) && name_is(
                        name.as_slice(),
                        "mediawiki",
                    ) {
                        self.phase = Phase::InRoot;
                        StepOutcome::Pending
                    } else {
                        StepOutcome::Fail(Error::Format(pos))
                    }
                },
                XmlEvent::Eof => StepOutcome::Fail(Error::Format(pos)),
                _ => {
                    self.phase = Phase::BeforeRoot;
                    StepOutcome::Pending
                },
            },
            Phase::InRoot => match ev {
                XmlEvent::End => StepOutcome::Finished,
                XmlEvent::Start { namespace, name, attrs } => {
                    if recognized_namespace(&namespace) && name_is(name.as_slice(), "page") {
                        self.fields = Fields {
                            namespace: None,
                            title: None,
                            redirect_title: None,
                            format: None,
                            model: None,
                            text: None,
                        };
                        self.phase = Phase::InPage;
                    } else {
                        self.phase = Phase::Skip { ctx: SkipContext::Root, depth: 0 };
                    }
                    StepOutcome::Pending
                },
                XmlEvent::Eof => StepOutcome::Fail(Error::Format(pos)),
                _ => {
                    self.phase = Phase::InRoot;
                    StepOutcome::Pending
                },
            },
            Phase::InPage => match ev {
                XmlEvent::End => {
                    if self.fields.namespace.is_some() && self.fields.text.is_some()
                        && self.fields.title.is_some() {
                        let namespace = self.fields.namespace.take().unwrap();
                        let text = self.fields.text.take().unwrap();
                        let title = self.fields.title.take().unwrap();
                        let format = self.fields.format.take();
                        let model = self.fields.model.take();
                        let redirect_title = self.fields.redirect_title.take();
                        self.phase = Phase::InRoot;
                        StepOutcome::Emit(
                            Page { format, model, namespace, text, title, redirect_title },
                        )
                    } else {
                        StepOutcome::Fail(Error::Format(pos))
                    }
                },
                XmlEvent::Start { namespace, name, attrs } => {
                    if !recognized_namespace(&namespace) {
                        self.phase = Phase::Skip { ctx: SkipContext::Page, depth: 0 };
                        StepOutcome::Pending
                    } else if name_is(name.as_slice(), "ns") {
                        if self.fields.namespace.is_some() {
                            StepOutcome::Fail(Error::Format(pos))
                        } else {
                            self.phase = Phase::FieldStart { target: FieldTarget::PageNs };
                            StepOutcome::Pending
                        }
                    } else if name_is(name.as_slice(), "redirect") {
                        match find_title_attr(&attrs) {
                            None => StepOutcome::Fail(Error::Format(pos)),
                            Some(v) => {
                                self.fields.redirect_title = Some(v);
                                self.phase = Phase::Skip {
                                    ctx: SkipContext::Page,
                                    depth: 0,
                                };
                                StepOutcome::Pending
                            },
                        }
                    } else if name_is(name.as_slice(), "revision") {
                        if self.fields.text.is_some() {
                            StepOutcome::Fail(Error::NotSupported(pos))
                        } else {
                            self.phase = Phase::InRevision;
                            StepOutcome::Pending
                        }
                    } else if name_is(name.as_slice(), "title") {
                        if self.fields.title.is_some() {
                            StepOutcome::Fail(Error::Format(pos))
                        } else {
                            self.phase = Phase::FieldStart { target: FieldTarget::PageTitle };
                            StepOutcome::Pending
                        }
                    } else {
                        self.phase = Phase::Skip { ctx: SkipContext::Page, depth: 0 };
                        StepOutcome::Pending
                    }
                },
                XmlEvent::Eof => StepOutcome::Fail(Error::Format(pos)),
                _ => {
                    self.phase = Phase::InPage;
                    StepOutcome::Pending
                },
            },
            Phase::InRevision => match ev {
                XmlEvent::End => {
                    if self.fields.text.is_some() {
                        self.phase = Phase::InPage;
                        StepOutcome::Pending
                    } else {
                        StepOutcome::Fail(Error::Format(pos))
                    }
                },
                XmlEvent::Start { namespace, name, attrs } => {
                    if !recognized_namespace(&namespace) {
                        self.phase = Phase::Skip { ctx: SkipContext::Revision, depth: 0 };
                        StepOutcome::Pending
                    } else if name_is(name.as_slice(), "format") {
                        if self.fields.format.is_some() {
                            StepOutcome::Fail(Error::Format(pos))
                        } else {
                            self.phase = Phase::FieldStart {
                                target: FieldTarget::RevisionFormat,
                            };
                            StepOutcome::Pending
                        }
                    } else if name_is(name.as_slice(), "model") {
                        if self.fields.model.is_some() {
                            StepOutcome::Fail(Error::Format(pos))
                        } else {
                            self.phase = Phase::FieldStart {
                                target: FieldTarget::RevisionModel,
                            };
                            StepOutcome::Pending
                        }
                    } else if name_is(name.as_slice(), "text") {
                        if self.fields.text.is_some() {
                            StepOutcome::Fail(Error::Format(pos))
                        } else {
                            self.phase = Phase::FieldStart {
                                target: FieldTarget::RevisionText,
                            };
                            StepOutcome::Pending
                        }
                    } else {
                        self.phase = Phase::Skip { ctx: SkipContext::Revision, depth: 0 };
                        StepOutcome::Pending
                    }
                },
                XmlEvent::Eof => StepOutcome::Fail(Error::Format(pos)),
                _ => {
                    self.phase = Phase::InRevision;
                    StepOutcome::Pending
                },
            },
            Phase::Skip { ctx, depth } => match ev {
                XmlEvent::End => {
                    if depth == 0 {
                        self.phase = (match ctx {
                            SkipContext::Root => Phase::InRoot,
                            SkipContext::Page => Phase::InPage,
                            SkipContext::Revision => Phase::InRevision,
                        });
                    } else {
                        self.phase = Phase::Skip { ctx, depth: depth - 1 };
                    }
                    StepOutcome::Pending
                },
                XmlEvent::Start { namespace, name, attrs } => {
                    if depth == u64::MAX {
                        StepOutcome::Fail(Error::Format(pos))
                    } else {
                        self.phase = Phase::Skip { ctx, depth: depth + 1 };
                        StepOutcome::Pending
                    }
                },
                XmlEvent::Eof => StepOutcome::Fail(Error::Format(pos)),
                _ => {
                    self.phase = Phase::Skip { ctx, depth };
                    StepOutcome::Pending
                },
            },
            Phase::FieldStart { target } => match ev {
                XmlEvent::Text(s) => {
                    self.phase = Phase::FieldText { target, value: s };
                    StepOutcome::Pending
                },
                XmlEvent::End => self.finish_field(target, String::new(), pos),
                _ => StepOutcome::Fail(Error::Format(pos)),
            },
            Phase::FieldText { target, value } => match ev {
                XmlEvent::End => self.finish_field(target, value, pos),
                _ => StepOutcome::Fail(Error::Format(pos)),
            },
            Phase::Done => StepOutcome::Pending,
        }
    }
}

} // verus!
