//! The pull-driven parser: one record per request.

use vstd::prelude::*;

use crate::error::Error;
use crate::events::EventModel;
use crate::machine::lemma_spec_run_snoc;
use crate::machine::spec_init;
use crate::machine::spec_run;
use crate::machine::Machine;
use crate::machine::MachineModel;
use crate::machine::PhaseModel;
use crate::machine::StepOutcome;
use crate::machine::StepOutcomeModel;
use crate::namespace::FromNamespaceId;
use crate::namespace::NamespaceId;
use crate::page::Page;
use crate::xml::read_lex_event;
use crate::xml::reader_new;
use crate::xml::reader_position;

verus! {

/// Parser working as a pull-driven source of pages.
///
/// Each call of [`Parser::next`] pulls as many lexical events as it takes to
/// determine the next outcome: a page record, exhaustion, or an error. After
/// exhaustion or an error every further call returns nothing.
#[verifier::reject_recursive_types(R)]
pub struct Parser<R, N> {
    reader: quick_xml::NsReader<R>,
    buffer: Vec<u8>,
    machine: Machine<N>,
}

impl<R, N> View for Parser<R, N> {
    type V = MachineModel<N>;

    closed spec fn view(&self) -> MachineModel<N> {
        self.machine@
    }
}

impl<R: std::io::BufRead, N: FromNamespaceId> Parser<R, N> {
    /// Pulls events until the machine yields: the next page record, nothing
    /// once the document is complete, or the first error.
    ///
    /// Whatever the event source produced, the outcome is explained by the
    /// transition relation: some sequence of events read at their positions
    /// drives the machine from the state before the call to the state after
    /// it and yields exactly the returned outcome. Two cases stand outside
    /// the relation, and both exhaust the parser: a reader failure is
    /// returned as it stands, and a single request that consumes the largest
    /// representable number of events without an outcome gives up with a
    /// format error at the current position.
    pub fn next(&mut self) -> (r: Option<Result<Page<N>, Error>>)
        ensures
            old(self)@.phase is Done ==> final(self)@ == old(self)@ && r is None,
            (match r {
                None => old(self)@.phase is Done || (exists|evs: Seq<(EventModel, usize)>|
                    spec_run(old(self)@, evs) == (
                        final(self)@,
                        seq![StepOutcomeModel::<N>::Finished],
                    )),
                Some(Ok(p)) => exists|evs: Seq<(EventModel, usize)>|
                    spec_run(old(self)@, evs) == (
                        final(self)@,
                        seq![StepOutcomeModel::<N>::Emit(p@)],
                    ),
                Some(Err(e)) => (exists|evs: Seq<(EventModel, usize)>|
                    spec_run(old(self)@, evs) == (
                        final(self)@,
                        seq![StepOutcomeModel::<N>::Fail(e@)],
                    )) || (e@ is XmlReader && (exists|evs: Seq<(EventModel, usize)>|
                    spec_run(old(self)@, evs).1 == Seq::<StepOutcomeModel<N>>::empty()
                        && final(self)@ == (MachineModel {
                        phase: PhaseModel::Done,
                        ..spec_run(old(self)@, evs).0
                    }))) || (e@ is Format && (exists|evs: Seq<(EventModel, usize)>|
                    evs.len() >= u64::MAX && spec_run(old(self)@, evs).1
                        == Seq::<StepOutcomeModel<N>>::empty() && final(self)@ == (
                    MachineModel { phase: PhaseModel::Done, ..spec_run(old(self)@, evs).0 }))),
            }),
            r is None ==> final(self)@.phase is Done,
            (r matches Some(Err(_))) ==> final(self)@.phase is Done,
    {
        if self.machine.is_done() {
            return None;
        }
        let ghost mut evs: Seq<(EventModel, usize)> = Seq::empty();
        let mut budget: u64 = u64::MAX;
        loop
            invariant
                spec_run(old(self)@, evs) == (
                    self@,
                    Seq::<StepOutcomeModel<N>>::empty(),
                ),
                evs.len() + budget == u64::MAX,
                !(old(self)@.phase is Done),
            decreases budget,
        {
            if budget == 0 {
                let pos = reader_position(&self.reader);
                self.machine.halt();
                return Some(Err(Error::Format(pos)));
            }
            budget = budget - 1;
            let ev = match read_lex_event(&mut self.reader, &mut self.buffer) {
                Ok(ev) => ev,
                Err(e) => {
                    self.machine.halt();
                    return Some(Err(e));
                },
            };
            let pos = reader_position(&self.reader);
            let out = self.machine.step(ev, pos);
            proof {
                lemma_spec_run_snoc(old(self)@, evs, (ev@, pos));
                evs = evs.push((ev@, pos));
            }
            match out {
                StepOutcome::Pending => {
                },
                StepOutcome::Emit(p) => {
                    proof {
                        assert(Seq::<StepOutcomeModel<N>>::empty().push(
                            StepOutcomeModel::<N>::Emit(p@),
                        ) =~= seq![StepOutcomeModel::<N>::Emit(p@)]);
                    }
                    return Some(Ok(p));
                },
                StepOutcome::Finished => {
                    proof {
                        assert(Seq::<StepOutcomeModel<N>>::empty().push(
                            StepOutcomeModel::<N>::Finished,
                        ) =~= seq![StepOutcomeModel::<N>::Finished]);
                        assert(self@.phase is Done);
                    }
                    return None;
                },
                StepOutcome::Fail(e) => {
                    proof {
                        assert(Seq::<StepOutcomeModel<N>>::empty().push(
                            StepOutcomeModel::<N>::Fail(e@),
                        ) =~= seq![StepOutcomeModel::<N>::Fail(e@)]);
                        assert(self@.phase is Done);
                    }
                    return Some(Err(e));
                },
            }
        }
    }
}

/// Creates a parser for a stream. Allows you to select a type for the
/// namespace.
///
/// The stream is parsed as an XML dump exported from MediaWiki; the parser
/// starts with nothing consumed and nothing collected.
pub fn parse_with_namespace<R, N: FromNamespaceId>(source: R) -> (r: Parser<R, N>)
    ensures
        r@ == spec_init::<N>(),
{
    Parser { reader: reader_new(source), buffer: Vec::new(), machine: Machine::new() }
}

/// Creates a parser for a stream in which namespaces are represented as
/// [`NamespaceId`]. Equivalent to [`parse_with_namespace`] with the
/// namespace type set to [`NamespaceId`].
pub fn parse<R>(source: R) -> (r: Parser<R, NamespaceId>)
    ensures
        r@ == spec_init::<NamespaceId>(),
{
    parse_with_namespace(source)
}

} // verus!
