//! The laws of the extraction machine.
//!
//! These proofs relate whole runs of the machine to the documents that
//! produced the events. The central theorem: over the events of a
//! well-formed export document, the machine emits exactly one record per
//! page, in document order, with every field equal to what the page holds,
//! and then reports completion.

use vstd::prelude::*;

use crate::error::ErrorModel;
use crate::events::export_namespace;
use crate::events::first_title_attr;
use crate::events::format_name;
use crate::events::mediawiki_name;
use crate::events::model_name;
use crate::events::ns_name;
use crate::events::page_name;
use crate::events::redirect_name;
use crate::events::revision_name;
use crate::events::text_name;
use crate::events::title_name;
use crate::events::EventModel;
use crate::machine::spec_fields_empty;
use crate::machine::spec_init;
use crate::machine::spec_page_complete;
use crate::machine::spec_page_of;
use crate::machine::spec_run;
use crate::machine::spec_skip_return;
use crate::machine::SkipContext;
use crate::machine::spec_step;
use crate::machine::FieldsModel;
use crate::machine::FieldTarget;
use crate::machine::MachineModel;
use crate::machine::PhaseModel;
use crate::machine::StepOutcomeModel;
use crate::namespace::FromNamespaceId;
use crate::namespace::NamespaceId;
use crate::numtext::spec_parse_i32;
use crate::page::PageModel;

verus! {

/// The lengths of the recognized element names, and that the two names of
/// equal length differ. Everything else about telling the names apart
/// follows from the lengths alone.
pub proof fn lemma_name_facts()
    ensures
        ns_name().len() == 2,
        title_name().len() == 5,
        redirect_name().len() == 8,
        revision_name().len() == 8,
        format_name().len() == 6,
        model_name().len() == 5,
        text_name().len() == 4,
        revision_name() != redirect_name(),
{
    reveal_strlit("ns");
    reveal_strlit("title");
    reveal_strlit("redirect");
    reveal_strlit("revision");
    reveal_strlit("format");
    reveal_strlit("model");
    reveal_strlit("text");
    assert(is_ascii_lit("ns"));
    assert(is_ascii_lit("title"));
    assert(is_ascii_lit("redirect"));
    assert(is_ascii_lit("revision"));
    assert(is_ascii_lit("format"));
    assert(is_ascii_lit("model"));
    assert(is_ascii_lit("text"));
    vstd::string::is_ascii_spec_bytes("ns");
    vstd::string::is_ascii_spec_bytes("title");
    vstd::string::is_ascii_spec_bytes("redirect");
    vstd::string::is_ascii_spec_bytes("revision");
    vstd::string::is_ascii_spec_bytes("format");
    vstd::string::is_ascii_spec_bytes("model");
    vstd::string::is_ascii_spec_bytes("text");
    assert(revision_name()[2] == 'v' as u8);
    assert(redirect_name()[2] == 'd' as u8);
}

/// Whether a string slice holds ASCII characters only.
pub open spec fn is_ascii_lit(s: &str) -> bool {
    vstd::string::is_ascii(s)
}

/// One page of a canonical export document: the text of its `ns` element,
/// its title, its optional redirect target, and the optional format and
/// model with the mandatory text of its single revision.
pub struct PageDoc {
    /// The text content of the `ns` element.
    pub ns_text: Seq<char>,
    /// The text content of the `title` element.
    pub title: Seq<char>,
    /// The `title` attribute of the `redirect` element, if that element is
    /// present.
    pub redirect: Option<Seq<char>>,
    /// The text content of the revision's `format` element, if present.
    pub format: Option<Seq<char>>,
    /// The text content of the revision's `model` element, if present.
    pub model: Option<Seq<char>>,
    /// The text content of the revision's `text` element.
    pub text: Seq<char>,
}

/// Whether a page is well formed for the namespace type `N`: its `ns` text
/// parses as a 32-bit integer and that integer converts.
pub open spec fn page_doc_ok<N: FromNamespaceId>(p: PageDoc) -> bool {
    &&& spec_parse_i32(p.ns_text) is Some
    &&& N::spec_from_namespace_id(NamespaceId(spec_parse_i32(p.ns_text)->0)) is Some
}

/// The record a well-formed page yields.
pub open spec fn page_record<N: FromNamespaceId>(p: PageDoc) -> PageModel<N>
    recommends
        page_doc_ok::<N>(p),
{
    PageModel {
        format: p.format,
        model: p.model,
        namespace: N::spec_from_namespace_id(NamespaceId(spec_parse_i32(p.ns_text)->0))->0,
        text: p.text,
        title: p.title,
        redirect_title: p.redirect,
    }
}

/// A start tag in the export namespace.
pub open spec fn start_ev(name: Seq<u8>, attrs: Seq<(Seq<u8>, Seq<char>)>) -> EventModel {
    EventModel::Start { namespace: Some(export_namespace()), name, attrs }
}

/// The events of one scalar element: start tag, text, end tag.
pub open spec fn scalar_events(name: Seq<u8>, v: Seq<char>) -> Seq<EventModel> {
    seq![start_ev(name, seq![]), EventModel::Text(v), EventModel::End]
}

/// The events of an optional scalar element: nothing where it is absent.
pub open spec fn opt_scalar_events(name: Seq<u8>, ov: Option<Seq<char>>) -> Seq<EventModel> {
    match ov {
        Some(v) => scalar_events(name, v),
        None => seq![],
    }
}

/// The events of an optional `redirect` element: an empty element carrying
/// its target in the `title` attribute.
pub open spec fn redirect_events(ov: Option<Seq<char>>) -> Seq<EventModel> {
    match ov {
        Some(v) => seq![
            start_ev(redirect_name(), seq![(title_name(), v)]),
            EventModel::End,
        ],
        None => seq![],
    }
}

/// The events of a page's single `revision` element.
pub open spec fn revision_events(p: PageDoc) -> Seq<EventModel> {
    seq![start_ev(revision_name(), seq![])] + opt_scalar_events(format_name(), p.format)
        + opt_scalar_events(model_name(), p.model) + scalar_events(text_name(), p.text)
        + seq![EventModel::End]
}

/// The events of one `page` element.
pub open spec fn page_events(p: PageDoc) -> Seq<EventModel> {
    seq![start_ev(page_name(), seq![])] + scalar_events(ns_name(), p.ns_text) + scalar_events(
        title_name(),
        p.title,
    ) + redirect_events(p.redirect) + revision_events(p) + seq![EventModel::End]
}

/// The events of a sequence of pages, in document order.
pub open spec fn pages_events(pages: Seq<PageDoc>) -> Seq<EventModel>
    decreases pages.len(),
{
    if pages.len() == 0 {
        seq![]
    } else {
        page_events(pages[0]) + pages_events(pages.drop_first())
    }
}

/// The events of a whole canonical export document.
pub open spec fn doc_events(pages: Seq<PageDoc>) -> Seq<EventModel> {
    seq![start_ev(mediawiki_name(), seq![])] + pages_events(pages) + seq![EventModel::End]
}

/// The event components of a sequence of events with their positions.
pub open spec fn events_only(evs: Seq<(EventModel, usize)>) -> Seq<EventModel> {
    evs.map_values(|e: (EventModel, usize)| e.0)
}

/// The records of a sequence of pages, as the machine yields them.
pub open spec fn emitted_records<N: FromNamespaceId>(pages: Seq<PageDoc>) -> Seq<
    StepOutcomeModel<N>,
> {
    pages.map_values(|p: PageDoc| StepOutcomeModel::Emit(page_record::<N>(p)))
}

/// Running over a concatenation: the run over the first part, continued
/// from its final state over the second, with the yields concatenated.
pub proof fn lemma_run_concat<N: FromNamespaceId>(
    m: MachineModel<N>,
    a: Seq<(EventModel, usize)>,
    b: Seq<(EventModel, usize)>,
)
    ensures
        ({
            let r1 = spec_run(m, a);
            let r2 = spec_run(r1.0, b);
            spec_run(m, a + b) == (r2.0, r1.1 + r2.1)
        }),
    decreases a.len(),
{
    reveal_with_fuel(spec_run, 2);
    let r1 = spec_run(m, a);
    let r2 = spec_run(r1.0, b);
    if a.len() == 0 {
        assert(a + b =~= b);
        assert(r1.1 + r2.1 =~= r2.1);
    } else {
        let first = spec_step(m, a[0].0, a[0].1);
        assert((a + b)[0] == a[0]);
        assert((a + b).drop_first() =~= a.drop_first() + b);
        lemma_run_concat(first.0, a.drop_first(), b);
        let r1r = spec_run(first.0, a.drop_first());
        let r2r = spec_run(r1r.0, b);
        if first.1 is Pending {
            assert(spec_run(m, a + b).1 == r1r.1 + r2r.1);
            assert(r1.1 == r1r.1);
        } else {
            assert(seq![first.1] + (r1r.1 + r2r.1) =~= (seq![first.1] + r1r.1) + r2r.1);
        }
    }
}

/// Running over a single event is one step.
pub proof fn lemma_run_one<N: FromNamespaceId>(m: MachineModel<N>, evs: Seq<(EventModel, usize)>)
    requires
        evs.len() == 1,
    ensures
        ({
            let s = spec_step(m, evs[0].0, evs[0].1);
            spec_run(m, evs) == (
                s.0,
                (if s.1 is Pending {
                    Seq::<StepOutcomeModel<N>>::empty()
                } else {
                    seq![s.1]
                }),
            )
        }),
{
    reveal_with_fuel(spec_run, 2);
    assert(evs.drop_first() =~= Seq::<(EventModel, usize)>::empty());
    let s = spec_step(m, evs[0].0, evs[0].1);
    if !(s.1 is Pending) {
        assert(seq![s.1] + Seq::<StepOutcomeModel<N>>::empty() =~= seq![s.1]);
    }
}


/// Reading the `ns` element of a page: the machine parses and converts its
/// text and stores the namespace.
pub proof fn lemma_run_ns<N: FromNamespaceId>(
    m: MachineModel<N>,
    evs: Seq<(EventModel, usize)>,
    v: Seq<char>,
)
    requires
        m.phase is InPage,
        m.fields.namespace is None,
        spec_parse_i32(v) is Some,
        N::spec_from_namespace_id(NamespaceId(spec_parse_i32(v)->0)) is Some,
        evs.len() == 3,
        evs[0].0 == start_ev(ns_name(), seq![]),
        evs[1].0 == EventModel::Text(v),
        evs[2].0 == EventModel::End,
    ensures
        spec_run(m, evs) == (
            MachineModel {
                phase: PhaseModel::InPage,
                fields: FieldsModel {
                    namespace: Some(
                        N::spec_from_namespace_id(NamespaceId(spec_parse_i32(v)->0))->0,
                    ),
                    ..m.fields
                },
            },
            Seq::<StepOutcomeModel<N>>::empty(),
        ),
{
    reveal_with_fuel(spec_run, 5);
    lemma_name_facts();
    assert(evs.drop_first()[0] == evs[1]);
    assert(evs.drop_first().drop_first()[0] == evs[2]);
    assert(evs.drop_first().drop_first().drop_first() =~= Seq::<(EventModel, usize)>::empty());
}

/// Reading the `title` element of a page: the machine stores its text.
pub proof fn lemma_run_title<N: FromNamespaceId>(
    m: MachineModel<N>,
    evs: Seq<(EventModel, usize)>,
    v: Seq<char>,
)
    requires
        m.phase is InPage,
        m.fields.title is None,
        evs.len() == 3,
        evs[0].0 == start_ev(title_name(), seq![]),
        evs[1].0 == EventModel::Text(v),
        evs[2].0 == EventModel::End,
    ensures
        spec_run(m, evs) == (
            MachineModel {
                phase: PhaseModel::InPage,
                fields: FieldsModel { title: Some(v), ..m.fields },
            },
            Seq::<StepOutcomeModel<N>>::empty(),
        ),
{
    reveal_with_fuel(spec_run, 5);
    lemma_name_facts();
    assert(evs.drop_first()[0] == evs[1]);
    assert(evs.drop_first().drop_first()[0] == evs[2]);
    assert(evs.drop_first().drop_first().drop_first() =~= Seq::<(EventModel, usize)>::empty());
}

/// Reading the `redirect` element of a page: the machine stores the value
/// of its `title` attribute and skips the element's empty subtree.
pub proof fn lemma_run_redirect<N: FromNamespaceId>(
    m: MachineModel<N>,
    evs: Seq<(EventModel, usize)>,
    v: Seq<char>,
)
    requires
        m.phase is InPage,
        evs.len() == 2,
        evs[0].0 == start_ev(redirect_name(), seq![(title_name(), v)]),
        evs[1].0 == EventModel::End,
    ensures
        spec_run(m, evs) == (
            MachineModel {
                phase: PhaseModel::InPage,
                fields: FieldsModel { redirect_title: Some(v), ..m.fields },
            },
            Seq::<StepOutcomeModel<N>>::empty(),
        ),
{
    reveal_with_fuel(spec_run, 4);
    lemma_name_facts();
    assert(first_title_attr(seq![(title_name(), v)]) == Some(v));
    assert(evs.drop_first()[0] == evs[1]);
    assert(evs.drop_first().drop_first() =~= Seq::<(EventModel, usize)>::empty());
}

/// Reading one scalar element of a revision: the machine stores its text
/// into the field its name selects.
pub proof fn lemma_run_rev_scalar<N: FromNamespaceId>(
    m: MachineModel<N>,
    evs: Seq<(EventModel, usize)>,
    name: Seq<u8>,
    v: Seq<char>,
)
    requires
        m.phase is InRevision,
        name == format_name() || name == model_name() || name == text_name(),
        name == format_name() ==> m.fields.format is None,
        name == model_name() ==> m.fields.model is None,
        name == text_name() ==> m.fields.text is None,
        evs.len() == 3,
        evs[0].0 == start_ev(name, seq![]),
        evs[1].0 == EventModel::Text(v),
        evs[2].0 == EventModel::End,
    ensures
        name == format_name() ==> spec_run(m, evs) == (
            MachineModel {
                phase: PhaseModel::InRevision,
                fields: FieldsModel { format: Some(v), ..m.fields },
            },
            Seq::<StepOutcomeModel<N>>::empty(),
        ),
        name == model_name() ==> spec_run(m, evs) == (
            MachineModel {
                phase: PhaseModel::InRevision,
                fields: FieldsModel { model: Some(v), ..m.fields },
            },
            Seq::<StepOutcomeModel<N>>::empty(),
        ),
        name == text_name() ==> spec_run(m, evs) == (
            MachineModel {
                phase: PhaseModel::InRevision,
                fields: FieldsModel { text: Some(v), ..m.fields },
            },
            Seq::<StepOutcomeModel<N>>::empty(),
        ),
{
    reveal_with_fuel(spec_run, 5);
    lemma_name_facts();
    assert(evs.drop_first()[0] == evs[1]);
    assert(evs.drop_first().drop_first()[0] == evs[2]);
    assert(evs.drop_first().drop_first().drop_first() =~= Seq::<(EventModel, usize)>::empty());
}


/// Reading an optional scalar element of a revision: nothing where it is
/// absent, its text where it is present.
pub proof fn lemma_run_opt_rev_scalar<N: FromNamespaceId>(
    m: MachineModel<N>,
    evs: Seq<(EventModel, usize)>,
    name: Seq<u8>,
    ov: Option<Seq<char>>,
)
    requires
        m.phase is InRevision,
        name == format_name() || name == model_name(),
        name == format_name() ==> m.fields.format is None,
        name == model_name() ==> m.fields.model is None,
        events_only(evs) == opt_scalar_events(name, ov),
    ensures
        name == format_name() ==> spec_run(m, evs) == (
            MachineModel {
                phase: PhaseModel::InRevision,
                fields: FieldsModel { format: ov, ..m.fields },
            },
            Seq::<StepOutcomeModel<N>>::empty(),
        ),
        name == model_name() ==> spec_run(m, evs) == (
            MachineModel {
                phase: PhaseModel::InRevision,
                fields: FieldsModel { model: ov, ..m.fields },
            },
            Seq::<StepOutcomeModel<N>>::empty(),
        ),
{
    lemma_name_facts();
    assert(events_only(evs).len() == evs.len());
    match ov {
        None => {
            assert(evs.len() == 0);
            assert(spec_run(m, evs) == (m, Seq::<StepOutcomeModel<N>>::empty()));
            if name == format_name() {
                assert(MachineModel {
                    phase: PhaseModel::InRevision,
                    fields: FieldsModel { format: ov, ..m.fields },
                } =~= m);
            } else {
                assert(MachineModel {
                    phase: PhaseModel::InRevision,
                    fields: FieldsModel { model: ov, ..m.fields },
                } =~= m);
            }
        },
        Some(v) => {
            assert(evs.len() == 3);
            assert(events_only(evs)[0] == evs[0].0);
            assert(events_only(evs)[1] == evs[1].0);
            assert(events_only(evs)[2] == evs[2].0);
            assert(evs[0].0 == events_only(evs)[0]);
            assert(evs[1].0 == events_only(evs)[1]);
            assert(evs[2].0 == events_only(evs)[2]);
            lemma_run_rev_scalar(m, evs, name, v);
        },
    }
}

/// Reading the whole `revision` element of a page: the machine stores the
/// optional format and model and the mandatory text, and returns to the
/// page.
pub proof fn lemma_run_revision<N: FromNamespaceId>(
    m: MachineModel<N>,
    evs: Seq<(EventModel, usize)>,
    p: PageDoc,
)
    requires
        m.phase is InPage,
        m.fields.format is None,
        m.fields.model is None,
        m.fields.text is None,
        events_only(evs) == revision_events(p),
    ensures
        spec_run(m, evs) == (
            MachineModel {
                phase: PhaseModel::InPage,
                fields: FieldsModel {
                    format: p.format,
                    model: p.model,
                    text: Some(p.text),
                    ..m.fields
                },
            },
            Seq::<StepOutcomeModel<N>>::empty(),
        ),
{
    lemma_name_facts();
    let eo = events_only(evs);
    let fe = opt_scalar_events(format_name(), p.format);
    let me_ = opt_scalar_events(model_name(), p.model);
    let te = scalar_events(text_name(), p.text);
    let fl = fe.len() as int;
    let ml = me_.len() as int;
    assert(eo.len() == evs.len());
    assert(eo.len() == 1 + fl + ml + 3 + 1);
    let a0 = evs.take(1);
    let r0 = evs.skip(1);
    assert(evs =~= a0 + r0);
    lemma_run_concat(m, a0, r0);
    assert(a0[0] == evs[0]);
    assert(evs[0].0 == eo[0]);
    lemma_run_one(m, a0);
    let m1 = MachineModel { phase: PhaseModel::InRevision, ..m };
    assert(spec_run(m, a0) == (m1, Seq::<StepOutcomeModel<N>>::empty()));
    let a1 = r0.take(fl);
    let r1 = r0.skip(fl);
    assert(r0 =~= a1 + r1);
    lemma_run_concat(m1, a1, r1);
    assert(a1.len() == fl);
    assert(events_only(a1).len() == a1.len());
    assert forall|i: int| 0 <= i < fl implies events_only(a1)[i] == fe[i] by {
        assert(events_only(a1)[i] == a1[i].0);
        assert(a1[i] == evs[i + 1]);
        assert(eo[i + 1] == fe[i]);
    }
    assert(events_only(a1) =~= fe);
    lemma_run_opt_rev_scalar(m1, a1, format_name(), p.format);
    let m2 = MachineModel {
        phase: PhaseModel::InRevision,
        fields: FieldsModel { format: p.format, ..m.fields },
    };
    assert(spec_run(m1, a1) == (m2, Seq::<StepOutcomeModel<N>>::empty()));
    let a2 = r1.take(ml);
    let r2 = r1.skip(ml);
    assert(r1 =~= a2 + r2);
    lemma_run_concat(m2, a2, r2);
    assert(a2.len() == ml);
    assert(events_only(a2).len() == a2.len());
    assert forall|i: int| 0 <= i < ml implies events_only(a2)[i] == me_[i] by {
        assert(events_only(a2)[i] == a2[i].0);
        assert(a2[i] == evs[i + 1 + fl]);
        assert(eo[i + 1 + fl] == me_[i]);
    }
    assert(events_only(a2) =~= me_);
    lemma_run_opt_rev_scalar(m2, a2, model_name(), p.model);
    let m3 = MachineModel {
        phase: PhaseModel::InRevision,
        fields: FieldsModel { format: p.format, model: p.model, ..m.fields },
    };
    assert(spec_run(m2, a2) == (m3, Seq::<StepOutcomeModel<N>>::empty()));
    let a3 = r2.take(3);
    let r3 = r2.skip(3);
    assert(r2 =~= a3 + r3);
    lemma_run_concat(m3, a3, r3);
    assert(a3.len() == 3);
    assert(events_only(a3).len() == a3.len());
    assert forall|i: int| 0 <= i < 3 implies events_only(a3)[i] == te[i] by {
        assert(events_only(a3)[i] == a3[i].0);
        assert(a3[i] == evs[i + 1 + fl + ml]);
        assert(eo[i + 1 + fl + ml] == te[i]);
    }
    assert(events_only(a3) =~= te);
    assert(a3[0].0 == events_only(a3)[0]);
    assert(a3[1].0 == events_only(a3)[1]);
    assert(a3[2].0 == events_only(a3)[2]);
    lemma_run_rev_scalar(m3, a3, text_name(), p.text);
    let m4 = MachineModel {
        phase: PhaseModel::InRevision,
        fields: FieldsModel {
            format: p.format,
            model: p.model,
            text: Some(p.text),
            ..m.fields
        },
    };
    assert(spec_run(m3, a3) == (m4, Seq::<StepOutcomeModel<N>>::empty()));
    assert(r3.len() == 1);
    assert(r3[0] == evs[1 + fl + ml + 3]);
    assert(events_only(evs)[1 + fl + ml + 3] == evs[1 + fl + ml + 3].0);
    assert(eo[1 + fl + ml + 3] == EventModel::End);
    assert(r3[0].0 == EventModel::End);
    lemma_run_one(m4, r3);
    assert(spec_run(m4, r3) == (
        MachineModel { phase: PhaseModel::InPage, ..m4 },
        Seq::<StepOutcomeModel<N>>::empty(),
    ));
    assert(spec_run(m, evs).1 =~= Seq::<StepOutcomeModel<N>>::empty());
}


/// Reading one whole `page` element from between pages: the machine emits
/// exactly the page's record and returns to the root with nothing
/// collected.
pub proof fn lemma_run_page<N: FromNamespaceId>(
    m: MachineModel<N>,
    evs: Seq<(EventModel, usize)>,
    p: PageDoc,
)
    requires
        m.phase is InRoot,
        page_doc_ok::<N>(p),
        events_only(evs) == page_events(p),
    ensures
        spec_run(m, evs) == (
            MachineModel { phase: PhaseModel::InRoot, fields: spec_fields_empty::<N>() },
            seq![StepOutcomeModel::<N>::Emit(page_record::<N>(p))],
        ),
{
    lemma_name_facts();
    let eo = events_only(evs);
    let nse = scalar_events(ns_name(), p.ns_text);
    let tie = scalar_events(title_name(), p.title);
    let rde = redirect_events(p.redirect);
    let rve = revision_events(p);
    let rl = rde.len() as int;
    let vl = rve.len() as int;
    assert(eo.len() == evs.len());
    assert(eo.len() == 1 + 3 + 3 + rl + vl + 1);
    let a0 = evs.take(1);
    let r0 = evs.skip(1);
    assert(evs =~= a0 + r0);
    lemma_run_concat(m, a0, r0);
    assert(a0[0] == evs[0]);
    assert(events_only(evs)[0] == evs[0].0);
    assert(eo[0] == start_ev(page_name(), seq![]));
    lemma_run_one(m, a0);
    let m1 = MachineModel { phase: PhaseModel::InPage, fields: spec_fields_empty::<N>() };
    assert(spec_run(m, a0) == (m1, Seq::<StepOutcomeModel<N>>::empty()));
    let a1 = r0.take(3);
    let r1 = r0.skip(3);
    assert(r0 =~= a1 + r1);
    lemma_run_concat(m1, a1, r1);
    assert(a1.len() == 3);
    assert forall|i: int| 0 <= i < 3 implies a1[i].0 == nse[i] by {
        assert(a1[i] == evs[i + 1]);
        assert(events_only(evs)[i + 1] == evs[i + 1].0);
        assert(eo[i + 1] == nse[i]);
    }
    lemma_run_ns(m1, a1, p.ns_text);
    let m2 = MachineModel {
        phase: PhaseModel::InPage,
        fields: FieldsModel {
            namespace: Some(
                N::spec_from_namespace_id(NamespaceId(spec_parse_i32(p.ns_text)->0))->0,
            ),
            ..spec_fields_empty::<N>()
        },
    };
    assert(spec_run(m1, a1) == (m2, Seq::<StepOutcomeModel<N>>::empty()));
    let a2 = r1.take(3);
    let r2 = r1.skip(3);
    assert(r1 =~= a2 + r2);
    lemma_run_concat(m2, a2, r2);
    assert(a2.len() == 3);
    assert forall|i: int| 0 <= i < 3 implies a2[i].0 == tie[i] by {
        assert(a2[i] == evs[i + 4]);
        assert(events_only(evs)[i + 4] == evs[i + 4].0);
        assert(eo[i + 4] == tie[i]);
    }
    lemma_run_title(m2, a2, p.title);
    let m3 = MachineModel {
        phase: PhaseModel::InPage,
        fields: FieldsModel { title: Some(p.title), ..m2.fields },
    };
    assert(spec_run(m2, a2) == (m3, Seq::<StepOutcomeModel<N>>::empty()));
    let a3 = r2.take(rl);
    let r3 = r2.skip(rl);
    assert(r2 =~= a3 + r3);
    lemma_run_concat(m3, a3, r3);
    assert(a3.len() == rl);
    assert forall|i: int| 0 <= i < rl implies a3[i].0 == rde[i] by {
        assert(a3[i] == evs[i + 7]);
        assert(events_only(evs)[i + 7] == evs[i + 7].0);
        assert(eo[i + 7] == rde[i]);
    }
    let m4 = MachineModel {
        phase: PhaseModel::InPage,
        fields: FieldsModel { redirect_title: p.redirect, ..m3.fields },
    };
    match p.redirect {
        Some(v) => {
            assert(a3[0].0 == rde[0]);
            assert(a3[1].0 == rde[1]);
            lemma_run_redirect(m3, a3, v);
            assert(spec_run(m3, a3) == (m4, Seq::<StepOutcomeModel<N>>::empty()));
        },
        None => {
            assert(a3.len() == 0);
            assert(m4 =~= m3);
            assert(spec_run(m3, a3) == (m4, Seq::<StepOutcomeModel<N>>::empty()));
        },
    }
    let a4 = r3.take(vl);
    let r4 = r3.skip(vl);
    assert(r3 =~= a4 + r4);
    lemma_run_concat(m4, a4, r4);
    assert(a4.len() == vl);
    assert(events_only(a4).len() == a4.len());
    assert forall|i: int| 0 <= i < vl implies events_only(a4)[i] == rve[i] by {
        assert(events_only(a4)[i] == a4[i].0);
        assert(a4[i] == evs[i + 7 + rl]);
        assert(events_only(evs)[i + 7 + rl] == evs[i + 7 + rl].0);
        assert(eo[i + 7 + rl] == rve[i]);
    }
    assert(events_only(a4) =~= rve);
    lemma_run_revision(m4, a4, p);
    let m5 = MachineModel {
        phase: PhaseModel::InPage,
        fields: FieldsModel {
            format: p.format,
            model: p.model,
            text: Some(p.text),
            ..m4.fields
        },
    };
    assert(spec_run(m4, a4) == (m5, Seq::<StepOutcomeModel<N>>::empty()));
    assert(r4.len() == 1);
    assert(r4[0] == evs[7 + rl + vl]);
    assert(events_only(evs)[7 + rl + vl] == evs[7 + rl + vl].0);
    assert(eo[7 + rl + vl] == EventModel::End);
    assert(r4[0].0 == EventModel::End);
    lemma_run_one(m5, r4);
    assert(spec_page_complete(m5.fields));
    assert(spec_run(m5, r4) == (
        MachineModel { phase: PhaseModel::InRoot, fields: spec_fields_empty::<N>() },
        seq![StepOutcomeModel::<N>::Emit(spec_page_of(m5.fields))],
    ));
    assert(spec_page_of(m5.fields) =~= page_record::<N>(p));
    assert(spec_run(m, evs).1 =~= seq![StepOutcomeModel::<N>::Emit(page_record::<N>(p))]);
}

/// Reading a whole sequence of pages from between pages: the machine emits
/// exactly one record per page, in document order, and stays between
/// pages.
pub proof fn lemma_run_pages<N: FromNamespaceId>(
    m: MachineModel<N>,
    evs: Seq<(EventModel, usize)>,
    pages: Seq<PageDoc>,
)
    requires
        m.phase is InRoot,
        forall|i: int| 0 <= i < pages.len() ==> page_doc_ok::<N>(#[trigger] pages[i]),
        events_only(evs) == pages_events(pages),
    ensures
        spec_run(m, evs).0.phase is InRoot,
        spec_run(m, evs).1 == emitted_records::<N>(pages),
    decreases pages.len(),
{
    let eo = events_only(evs);
    assert(eo.len() == evs.len());
    if pages.len() == 0 {
        assert(evs.len() == 0);
        assert(emitted_records::<N>(pages) =~= Seq::<StepOutcomeModel<N>>::empty());
    } else {
        let pe = page_events(pages[0]);
        let k = pe.len() as int;
        assert(eo.len() == k + pages_events(pages.drop_first()).len());
        let a = evs.take(k);
        let b = evs.skip(k);
        assert(evs =~= a + b);
        lemma_run_concat(m, a, b);
        assert(a.len() == k);
        assert(events_only(a).len() == a.len());
        assert forall|i: int| 0 <= i < k implies events_only(a)[i] == pe[i] by {
            assert(events_only(a)[i] == a[i].0);
            assert(a[i] == evs[i]);
            assert(events_only(evs)[i] == evs[i].0);
            assert(eo[i] == pe[i]);
        }
        assert(events_only(a) =~= pe);
        lemma_run_page(m, a, pages[0]);
        let m1 = MachineModel { phase: PhaseModel::InRoot, fields: spec_fields_empty::<N>() };
        assert(b.len() == evs.len() - k);
        assert(events_only(b).len() == b.len());
        assert forall|i: int| 0 <= i < b.len() implies events_only(b)[i] == pages_events(
            pages.drop_first(),
        )[i] by {
            assert(events_only(b)[i] == b[i].0);
            assert(b[i] == evs[i + k]);
            assert(events_only(evs)[i + k] == evs[i + k].0);
            assert(eo[i + k] == pages_events(pages.drop_first())[i]);
        }
        assert(events_only(b) =~= pages_events(pages.drop_first()));
        assert(forall|i: int| 0 <= i < pages.drop_first().len() ==> page_doc_ok::<N>(
            #[trigger] pages.drop_first()[i],
        ));
        lemma_run_pages(m1, b, pages.drop_first());
        assert(spec_run(m, evs).1 == seq![StepOutcomeModel::<N>::Emit(page_record::<N>(
            pages[0],
        ))] + emitted_records::<N>(pages.drop_first()));
        assert(spec_run(m, evs).1 =~= emitted_records::<N>(pages));
    }
}

/// The central law of the library: over the events of a well-formed
/// canonical export document, the machine started fresh emits exactly one
/// record per page, in document order, each field equal to what its page
/// holds, and then reports completion; afterwards it is exhausted.
pub proof fn theorem_extraction<N: FromNamespaceId>(
    evs: Seq<(EventModel, usize)>,
    pages: Seq<PageDoc>,
)
    requires
        forall|i: int| 0 <= i < pages.len() ==> page_doc_ok::<N>(#[trigger] pages[i]),
        events_only(evs) == doc_events(pages),
    ensures
        spec_run(spec_init::<N>(), evs).0.phase is Done,
        spec_run(spec_init::<N>(), evs).1 == emitted_records::<N>(pages).push(
            StepOutcomeModel::<N>::Finished,
        ),
{
    lemma_name_facts();
    let m = spec_init::<N>();
    let eo = events_only(evs);
    let pse = pages_events(pages);
    let k = pse.len() as int;
    assert(eo.len() == evs.len());
    assert(eo.len() == 1 + k + 1);
    let a0 = evs.take(1);
    let r0 = evs.skip(1);
    assert(evs =~= a0 + r0);
    lemma_run_concat(m, a0, r0);
    assert(a0[0] == evs[0]);
    assert(events_only(evs)[0] == evs[0].0);
    assert(eo[0] == start_ev(mediawiki_name(), seq![]));
    lemma_run_one(m, a0);
    let m1 = MachineModel { phase: PhaseModel::InRoot, fields: spec_fields_empty::<N>() };
    assert(spec_run(m, a0) == (m1, Seq::<StepOutcomeModel<N>>::empty()));
    let a1 = r0.take(k);
    let r1 = r0.skip(k);
    assert(r0 =~= a1 + r1);
    lemma_run_concat(m1, a1, r1);
    assert(a1.len() == k);
    assert(events_only(a1).len() == a1.len());
    assert forall|i: int| 0 <= i < k implies events_only(a1)[i] == pse[i] by {
        assert(events_only(a1)[i] == a1[i].0);
        assert(a1[i] == evs[i + 1]);
        assert(events_only(evs)[i + 1] == evs[i + 1].0);
        assert(eo[i + 1] == pse[i]);
    }
    assert(events_only(a1) =~= pse);
    lemma_run_pages(m1, a1, pages);
    let m2 = spec_run(m1, a1).0;
    assert(r1.len() == 1);
    assert(r1[0] == evs[1 + k]);
    assert(events_only(evs)[1 + k] == evs[1 + k].0);
    assert(eo[1 + k] == EventModel::End);
    assert(r1[0].0 == EventModel::End);
    lemma_run_one(m2, r1);
    assert(spec_run(m2, r1).1 == seq![StepOutcomeModel::<N>::Finished]);
    assert(spec_run(m, evs).1 =~= emitted_records::<N>(pages).push(
        StepOutcomeModel::<N>::Finished,
    ));
}

/// One record per page: over a well-formed document the machine yields
/// exactly as many page records as the document has pages, and one
/// completion mark after them.
pub proof fn lemma_record_count<N: FromNamespaceId>(
    evs: Seq<(EventModel, usize)>,
    pages: Seq<PageDoc>,
)
    requires
        forall|i: int| 0 <= i < pages.len() ==> page_doc_ok::<N>(#[trigger] pages[i]),
        events_only(evs) == doc_events(pages),
    ensures
        spec_run(spec_init::<N>(), evs).1.len() == pages.len() + 1,
        forall|i: int| 0 <= i < pages.len() ==> spec_run(spec_init::<N>(), evs).1[i]
            == StepOutcomeModel::<N>::Emit(page_record::<N>(pages[i])),
{
    theorem_extraction::<N>(evs, pages);
}

/// A page whose revision has no `format` and no `model` element yields a
/// record with those fields absent, never empty text.
pub proof fn lemma_absent_format_model<N: FromNamespaceId>(p: PageDoc)
    requires
        p.format is None,
        p.model is None,
    ensures
        page_record::<N>(p).format is None,
        page_record::<N>(p).model is None,
{
}

/// A page with a `redirect` element yields its `title` attribute as the
/// redirect target; a page without one yields no redirect target.
pub proof fn lemma_redirect_target<N: FromNamespaceId>(p: PageDoc)
    ensures
        page_record::<N>(p).redirect_title == p.redirect,
{
}

/// A second `revision` start tag under one page fails with the dedicated
/// unsupported-feature error at that tag's position, not with a generic
/// format error, and exhausts the machine. With [`lemma_spec_run_done`],
/// extraction does not continue past that page.
///
/// [`lemma_spec_run_done`]: crate::machine::lemma_spec_run_done
pub proof fn lemma_second_revision_not_supported<N: FromNamespaceId>(
    m: MachineModel<N>,
    attrs: Seq<(Seq<u8>, Seq<char>)>,
    pos: usize,
)
    requires
        m.phase is InPage,
        m.fields.text is Some,
    ensures
        spec_step(m, start_ev(revision_name(), attrs), pos) == (
            MachineModel { phase: PhaseModel::Done, ..m },
            StepOutcomeModel::<N>::Fail(ErrorModel::NotSupported(pos)),
        ),
{
    lemma_name_facts();
}

/// An `ns` value that parses as an integer but has no counterpart in the
/// caller's namespace type fails with a namespace error carrying exactly
/// that integer and the position of the element's end tag, and exhausts
/// the machine.
pub proof fn lemma_unconvertible_namespace<N: FromNamespaceId>(
    m: MachineModel<N>,
    v: Seq<char>,
    pos: usize,
)
    requires
        m.phase == (PhaseModel::FieldText { target: FieldTarget::PageNs, value: v }),
        spec_parse_i32(v) is Some,
        N::spec_from_namespace_id(NamespaceId(spec_parse_i32(v)->0)) is None,
    ensures
        spec_step(m, EventModel::End, pos) == (
            MachineModel { phase: PhaseModel::Done, ..m },
            StepOutcomeModel::<N>::Fail(
                ErrorModel::Namespace { id: NamespaceId(spec_parse_i32(v)->0), position: pos },
            ),
        ),
{
}

/// Extraction holds no hidden state: the outcome of a run is a function of
/// the starting state and the consumed events alone, so two runs over
/// equal readings of the same input yield equal outcomes.
pub proof fn lemma_extraction_deterministic<N: FromNamespaceId>(
    m1: MachineModel<N>,
    m2: MachineModel<N>,
    evs1: Seq<(EventModel, usize)>,
    evs2: Seq<(EventModel, usize)>,
)
    requires
        m1 == m2,
        evs1 == evs2,
    ensures
        spec_run(m1, evs1) == spec_run(m2, evs2),
{
}


/// Whether a sequence of events closes exactly `c` open elements: no
/// end-of-input occurs, nesting never overflows, every start tag is
/// matched, and the last event closes the outermost open element.
pub open spec fn closes_exactly(evs: Seq<EventModel>, c: int) -> bool
    decreases evs.len(),
{
    if evs.len() == 0 {
        c == 0
    } else {
        &&& 0 < c <= u64::MAX
        &&& match evs[0] {
            EventModel::Start { namespace, name, attrs } => closes_exactly(
                evs.drop_first(),
                c + 1,
            ),
            EventModel::End => closes_exactly(evs.drop_first(), c - 1),
            EventModel::Text(s) => closes_exactly(evs.drop_first(), c),
            EventModel::Other => closes_exactly(evs.drop_first(), c),
            EventModel::Eof => false,
        }
    }
}

/// The subtree skipper's own contract: while discarding, events that close
/// exactly the open elements bring the machine back to the enclosing
/// phase, with the collected fields untouched and nothing yielded.
pub proof fn lemma_run_skip<N: FromNamespaceId>(
    m: MachineModel<N>,
    ctx: SkipContext,
    depth: u64,
    evs: Seq<(EventModel, usize)>,
)
    requires
        m.phase == (PhaseModel::Skip { ctx, depth }),
        closes_exactly(events_only(evs), depth + 1),
    ensures
        spec_run(m, evs) == (
            MachineModel { phase: spec_skip_return(ctx), ..m },
            Seq::<StepOutcomeModel<N>>::empty(),
        ),
    decreases evs.len(),
{
    reveal_with_fuel(spec_run, 2);
    reveal_with_fuel(closes_exactly, 2);
    let eo = events_only(evs);
    assert(eo.len() == evs.len());
    assert(eo.len() > 0);
    assert(evs[0].0 == eo[0]);
    assert(events_only(evs.drop_first()) =~= eo.drop_first());
    match eo[0] {
        EventModel::Start { namespace, name, attrs } => {
            let m1 = MachineModel {
                phase: PhaseModel::Skip { ctx, depth: (depth + 1) as u64 },
                ..m
            };
            lemma_run_skip(m1, ctx, (depth + 1) as u64, evs.drop_first());
        },
        EventModel::End => {
            if depth == 0 {
                assert(eo.drop_first().len() == 0);
                assert(evs.drop_first() =~= Seq::<(EventModel, usize)>::empty());
            } else {
                let m1 = MachineModel {
                    phase: PhaseModel::Skip { ctx, depth: (depth - 1) as u64 },
                    ..m
                };
                lemma_run_skip(m1, ctx, (depth - 1) as u64, evs.drop_first());
            }
        },
        EventModel::Text(s) => {
            lemma_run_skip(m, ctx, depth, evs.drop_first());
        },
        EventModel::Other => {
            lemma_run_skip(m, ctx, depth, evs.drop_first());
        },
        EventModel::Eof => {
            assert(false);
        },
    }
}

/// Whether a start tag is unrecognized where the machine stands: its
/// namespace is not the export namespace, or its name is none of the names
/// the enclosing element interprets.
pub open spec fn spec_unrecognized_start(ctx: SkipContext, ev: EventModel) -> bool {
    &&& ev is Start
    &&& match ev {
        EventModel::Start { namespace, name, attrs } => !crate::events::spec_match_namespace(
            namespace,
        ) || (match ctx {
            SkipContext::Root => name != page_name(),
            SkipContext::Page => name != ns_name() && name != redirect_name() && name
                != revision_name() && name != title_name(),
            SkipContext::Revision => name != format_name() && name != model_name() && name
                != text_name(),
        }),
        _ => false,
    }
}

/// Unknown elements are never errors: an unrecognized start tag and the
/// events that close its whole subtree, however deeply nested, leave the
/// machine exactly as it stood, with nothing yielded and no field
/// affected.
pub proof fn lemma_unknown_subtree_skipped<N: FromNamespaceId>(
    m: MachineModel<N>,
    ctx: SkipContext,
    evs: Seq<(EventModel, usize)>,
)
    requires
        m.phase == spec_skip_return(ctx),
        evs.len() >= 1,
        spec_unrecognized_start(ctx, evs[0].0),
        closes_exactly(events_only(evs).drop_first(), 1),
    ensures
        spec_run(m, evs) == (m, Seq::<StepOutcomeModel<N>>::empty()),
    decreases evs.len(),
{
    reveal_with_fuel(spec_run, 2);
    assert(events_only(evs)[0] == evs[0].0);
    let m1 = MachineModel { phase: PhaseModel::Skip { ctx, depth: 0 }, ..m };
    assert(spec_step(m, evs[0].0, evs[0].1) == (m1, StepOutcomeModel::<N>::Pending));
    assert(events_only(evs.drop_first()) =~= events_only(evs).drop_first());
    lemma_run_skip(m1, ctx, 0, evs.drop_first());
    assert(MachineModel { phase: spec_skip_return(ctx), ..m1 } =~= m);
}


/// Character data and markup other than tags (comments, processing
/// instructions, declarations, CDATA sections) are ignored wherever the
/// machine awaits elements: one such event changes nothing and yields
/// nothing.
pub proof fn lemma_ignorable_event<N: FromNamespaceId>(
    m: MachineModel<N>,
    ev: EventModel,
    pos: usize,
)
    requires
        m.phase is BeforeRoot || m.phase is InRoot || m.phase is InPage || m.phase
            is InRevision,
        ev is Text || ev is Other,
    ensures
        spec_step(m, ev, pos) == (m, StepOutcomeModel::<N>::Pending),
{
}

} // verus!
