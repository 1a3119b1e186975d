//! The redaction circuit: the variables it declares, the constraints it
//! emits, and the order in which it asks a constraint system for them.
//!
//! The circuit does not own a constraint system. It is driven: whoever holds
//! the constraint system asks the [`Synthesis`] for its pending [`Request`],
//! serves it, and hands back the [`Response`].

use crate::error::SynthesisError;
use crate::field::{modulus, FieldElement};
use crate::redaction::{is_constrained, LEN};
use vstd::prelude::*;

verus! {

/// The full assignment of a circuit: the private document, the public mask
/// and the public redacted document, as field elements.
#[derive(Clone, Copy, Debug, PartialEq, Eq)]
pub struct Witness {
    /// The document; private to the prover.
    pub document: [FieldElement; LEN],
    /// The mask; a public input.
    pub redactor: [FieldElement; LEN],
    /// The redacted document; a public input.
    pub redacted: [FieldElement; LEN],
}

/// Whether two numbers stand for the same element of the scalar field.
pub open spec fn congruent(a: nat, b: nat) -> bool {
    a % modulus() == b % modulus()
}

impl Witness {
    /// The redaction relation: at every constrained index, the redacted
    /// element is the product of the document's element and the mask's, in
    /// the field.
    pub open spec fn satisfies_relation(self) -> bool {
        forall|i: int|
            is_constrained(i) ==> congruent(
                self.document@[i]@ * self.redactor@[i]@,
                #[trigger] self.redacted@[i]@,
            )
    }

    /// The elements in the order in which the circuit declares its
    /// variables: the document, then the mask, then the redacted document.
    pub open spec fn assignment(self) -> Seq<FieldElement> {
        self.document@ + self.redactor@ + self.redacted@
    }
}

/// A circuit instance. It either carries no values and only gives the
/// circuit's structure, or it carries a full witness.
#[derive(Clone, Copy, Debug, PartialEq, Eq)]
pub enum RedactionCircuit {
    /// Structure only, for parameter generation.
    Unassigned,
    /// Structure and values, for proving.
    Assigned(Witness),
}

/// A variable of a constraint system, as the constraint system names it.
#[derive(Clone, Copy, Debug, PartialEq, Eq, Structural)]
pub enum Variable {
    /// A public input, by its number among the public inputs.
    Public(usize),
    /// A private variable, by its number among the private variables.
    Private(usize),
}

/// The rank-1 constraint `a * b = c` between three variables.
#[derive(Clone, Copy, Debug, PartialEq, Eq, Structural)]
pub struct Constraint {
    /// The left factor.
    pub a: Variable,
    /// The right factor.
    pub b: Variable,
    /// The product.
    pub c: Variable,
}

/// What a value provider yields when the constraint system invokes it: the
/// value, or the signal that the circuit carries none.
pub type Provided = Result<FieldElement, SynthesisError>;

/// What the circuit asks of the constraint system next.
#[derive(Clone, Copy, Debug, PartialEq, Eq)]
pub enum Request {
    /// Allocate a private variable whose value provider yields this.
    AllocatePrivate(Provided),
    /// Allocate a public variable whose value provider yields this.
    AllocatePublic(Provided),
    /// Enforce this constraint.
    Enforce(Constraint),
    /// Nothing more: synthesis has ended with this result.
    Finished(Result<(), SynthesisError>),
}

/// What the constraint system answers to a request.
#[derive(Clone, Copy, Debug, PartialEq, Eq, Structural)]
pub enum Response {
    /// The variable that was allocated.
    Allocated(Variable),
    /// The constraint was taken.
    Enforced,
    /// The constraint system failed.
    Failed(SynthesisError),
}

impl RedactionCircuit {
    /// What the value provider of element `i` of `vector` yields: the
    /// element where there is a witness, the missing-assignment signal
    /// where there is none.
    pub open spec fn provided(
        self,
        vector: spec_fn(Witness) -> Seq<FieldElement>,
        i: int,
    ) -> Provided {
        match self {
            RedactionCircuit::Unassigned => Err(SynthesisError::AssignmentMissing),
            RedactionCircuit::Assigned(witness) => Ok(vector(witness)[i]),
        }
    }

    /// The `k`-th allocation of the circuit, for `k` below `3 * LEN`: first
    /// one private variable for each element of the document, then one
    /// public variable for each element of the mask, then one for each
    /// element of the redacted document.
    pub open spec fn allocation(self, k: int) -> Request {
        if k < LEN {
            Request::AllocatePrivate(self.provided(|w: Witness| w.document@, k))
        } else if k < 2 * LEN {
            Request::AllocatePublic(self.provided(|w: Witness| w.redactor@, k - LEN))
        } else {
            Request::AllocatePublic(self.provided(|w: Witness| w.redacted@, k - 2 * LEN))
        }
    }

    fn allocate(&self, k: usize) -> (request: Request)
        requires
            k < 3 * LEN,
        ensures
            request == self.allocation(k as int),
    {
        match self {
            RedactionCircuit::Unassigned => {
                if k < LEN {
                    Request::AllocatePrivate(Err(SynthesisError::AssignmentMissing))
                } else {
                    Request::AllocatePublic(Err(SynthesisError::AssignmentMissing))
                }
            },
            RedactionCircuit::Assigned(witness) => {
                if k < LEN {
                    Request::AllocatePrivate(Ok(witness.document[k]))
                } else if k < 2 * LEN {
                    Request::AllocatePublic(Ok(witness.redactor[k - LEN]))
                } else {
                    Request::AllocatePublic(Ok(witness.redacted[k - 2 * LEN]))
                }
            },
        }
    }
}

/// The constraint of index `i` over the variables `allocated`, which are in
/// the order of their allocation: the variable of the document's element
/// `i`, times that of the mask's, is that of the redacted document's.
pub open spec fn constraint_over(allocated: Seq<Variable>, i: int) -> Constraint {
    Constraint { a: allocated[i], b: allocated[LEN + i], c: allocated[2 * LEN + i] }
}

/// How far a synthesis has come.
pub struct Progress {
    /// The circuit that is synthesized.
    pub circuit: RedactionCircuit,
    /// The variables that the constraint system has handed back, in the
    /// order of their allocation.
    pub allocated: Seq<Variable>,
    /// The number of constraints that the constraint system has taken.
    pub enforced: nat,
    /// The first failure of the constraint system, if it has failed.
    pub failure: Option<SynthesisError>,
}

impl Progress {
    /// The start of the synthesis of `circuit`.
    pub open spec fn start(circuit: RedactionCircuit) -> Progress {
        Progress { circuit, allocated: Seq::empty(), enforced: 0, failure: None }
    }

    /// No constraint is emitted before every variable is allocated.
    pub open spec fn well_formed(self) -> bool {
        &&& self.allocated.len() <= 3 * LEN
        &&& self.enforced <= LEN
        &&& self.enforced > 0 ==> self.allocated.len() == 3 * LEN
    }

    /// The constraint of index `i`.
    pub open spec fn constraint(self, i: int) -> Constraint {
        constraint_over(self.allocated, i)
    }

    /// The pending request. After a failure it is the end, with that
    /// failure. Else the allocations come first, then one constraint for
    /// every index from `0` to `LEN - 1`, then the end, with success.
    pub open spec fn request(self) -> Request {
        if let Some(e) = self.failure {
            Request::Finished(Err(e))
        } else if self.allocated.len() < 3 * LEN {
            self.circuit.allocation(self.allocated.len() as int)
        } else if self.enforced < LEN {
            Request::Enforce(self.constraint(self.enforced as int))
        } else {
            Request::Finished(Ok(()))
        }
    }

    /// The progress after `response` has come in. A failure ends the
    /// synthesis. An allocated variable answers an allocation, and an
    /// enforced constraint answers a constraint. A response that does not
    /// answer the pending request, or that comes after the end, changes
    /// nothing.
    pub open spec fn step(self, response: Response) -> Progress {
        match (self.request(), response) {
            (Request::Finished(_), _) => self,
            (_, Response::Failed(e)) => Progress { failure: Some(e), ..self },
            (Request::AllocatePrivate(_), Response::Allocated(v)) => Progress {
                allocated: self.allocated.push(v),
                ..self
            },
            (Request::AllocatePublic(_), Response::Allocated(v)) => Progress {
                allocated: self.allocated.push(v),
                ..self
            },
            (Request::Enforce(_), Response::Enforced) => Progress {
                enforced: self.enforced + 1,
                ..self
            },
            _ => self,
        }
    }

    /// The progress after a sequence of responses, taken in turn.
    pub open spec fn run(self, responses: Seq<Response>) -> Progress
        decreases responses.len(),
    {
        if responses.len() == 0 {
            self
        } else {
            self.run(responses.drop_last()).step(responses.last())
        }
    }
}

/// The synthesis of one circuit instance, as a sequence of requests to a
/// constraint system.
pub struct Synthesis {
    circuit: RedactionCircuit,
    allocated: Vec<Variable>,
    enforced: usize,
    failure: Option<SynthesisError>,
}

impl View for Synthesis {
    type V = Progress;

    closed spec fn view(&self) -> Progress {
        Progress {
            circuit: self.circuit,
            allocated: self.allocated@,
            enforced: self.enforced as nat,
            failure: self.failure,
        }
    }
}

impl Synthesis {
    /// Starts the synthesis of `circuit`.
    pub fn new(circuit: RedactionCircuit) -> (synthesis: Synthesis)
        ensures
            synthesis@ == Progress::start(circuit),
    {
        Synthesis { circuit, allocated: Vec::new(), enforced: 0, failure: None }
    }

    /// The request that the constraint system is to serve next.
    pub fn pending(&self) -> (request: Request)
        ensures
            request == self@.request(),
    {
        if let Some(e) = self.failure {
            return Request::Finished(Err(e));
        }
        let k: usize = self.allocated.len();
        if k < 3 * LEN {
            self.circuit.allocate(k)
        } else if self.enforced < LEN {
            let i: usize = self.enforced;
            Request::Enforce(
                Constraint {
                    a: self.allocated[i],
                    b: self.allocated[LEN + i],
                    c: self.allocated[2 * LEN + i],
                },
            )
        } else {
            Request::Finished(Ok(()))
        }
    }

    /// Takes the constraint system's response to the pending request.
    pub fn resume(&mut self, response: Response)
        ensures
            final(self)@ == old(self)@.step(response),
    {
        if self.failure.is_some() {
            return ;
        }
        let allocating: bool = self.allocated.len() < 3 * LEN;
        match response {
            Response::Failed(e) => {
                if allocating || self.enforced < LEN {
                    self.failure = Some(e);
                }
            },
            Response::Allocated(v) => {
                if allocating {
                    self.allocated.push(v);
                }
            },
            Response::Enforced => {
                if !allocating && self.enforced < LEN {
                    self.enforced = self.enforced + 1;
                }
            },
        }
    }
}

/// Whether two requests ask for the same thing, whatever values the value
/// providers of an allocation yield.
pub open spec fn same_shape(first: Request, second: Request) -> bool {
    match (first, second) {
        (Request::AllocatePrivate(_), Request::AllocatePrivate(_)) => true,
        (Request::AllocatePublic(_), Request::AllocatePublic(_)) => true,
        (Request::Enforce(a), Request::Enforce(b)) => a == b,
        (Request::Finished(a), Request::Finished(b)) => a == b,
        _ => false,
    }
}

/// The responses of a constraint system that serves every request of one
/// synthesis: it hands back `handles` for the allocations, in turn, and then
/// takes every constraint.
pub open spec fn served(handles: Seq<Variable>) -> Seq<Response> {
    Seq::new(
        (4 * LEN) as nat,
        |k: int|
            if k < 3 * LEN {
                Response::Allocated(handles[k])
            } else {
                Response::Enforced
            },
    )
}

/// Whether `constraint` holds when each variable takes the value that
/// `value` gives it.
pub open spec fn holds(constraint: Constraint, value: spec_fn(Variable) -> nat) -> bool {
    congruent(value(constraint.a) * value(constraint.b), value(constraint.c))
}

/// The value that each of the variables `handles` takes under `witness`:
/// the variable that answered the `k`-th allocation takes the `k`-th element
/// of the assignment.
pub open spec fn assigned(handles: Seq<Variable>, witness: Witness) -> spec_fn(Variable) -> nat {
    |v: Variable| witness.assignment()[handles.index_of(v)]@
}

proof fn lemma_run_agrees(first: Progress, second: Progress, responses: Seq<Response>)
    requires
        first.allocated == second.allocated,
        first.enforced == second.enforced,
        first.failure == second.failure,
    ensures
        first.run(responses).allocated == second.run(responses).allocated,
        first.run(responses).enforced == second.run(responses).enforced,
        first.run(responses).failure == second.run(responses).failure,
        same_shape(first.run(responses).request(), second.run(responses).request()),
    decreases responses.len(),
{
    if responses.len() > 0 {
        lemma_run_agrees(first, second, responses.drop_last());
    }
}

/// Synthesis has one shape, with a witness and without: served the same
/// responses, any two circuit instances ask for the same variables and the
/// same constraints, and end alike. Only the values that the value
/// providers yield differ.
pub proof fn shape_is_independent_of_mode(
    first: RedactionCircuit,
    second: RedactionCircuit,
    responses: Seq<Response>,
)
    ensures
        same_shape(
            Progress::start(first).run(responses).request(),
            Progress::start(second).run(responses).request(),
        ),
{
    lemma_run_agrees(Progress::start(first), Progress::start(second), responses);
}

proof fn lemma_served_prefix(circuit: RedactionCircuit, handles: Seq<Variable>, k: int)
    requires
        handles.len() == 3 * LEN,
        0 <= k <= 4 * LEN,
    ensures
        Progress::start(circuit).run(served(handles).take(k)) == (Progress {
            circuit,
            allocated: handles.take(if k < 3 * LEN { k } else { 3 * LEN }),
            enforced: (if k < 3 * LEN { 0 } else { k - 3 * LEN }) as nat,
            failure: None,
        }),
    decreases k,
{
    let responses = served(handles).take(k);
    if k > 0 {
        lemma_served_prefix(circuit, handles, k - 1);
        assert(responses.drop_last() =~= served(handles).take(k - 1));
        let before = Progress::start(circuit).run(responses.drop_last());
        if k <= 3 * LEN {
            assert(before.allocated.push(handles[k - 1]) =~= handles.take(k));
        }
    } else {
        assert(handles.take(0) =~= Seq::<Variable>::empty());
    }
}

/// A synthesis that is served follows the circuit's plan. Its first `LEN`
/// requests allocate the document as private variables, the next `LEN` the
/// mask and the last `LEN` the redacted document as public variables, which
/// is the order in which a verifier supplies the public inputs. Then it
/// enforces one constraint for every index from `0` to `LEN - 1`, over the
/// three variables of that index, and none is left out. Then it ends with
/// success.
pub proof fn served_synthesis_follows_plan(
    circuit: RedactionCircuit,
    handles: Seq<Variable>,
    k: int,
)
    requires
        handles.len() == 3 * LEN,
        0 <= k <= 4 * LEN,
    ensures
        Progress::start(circuit).run(served(handles).take(k)).well_formed(),
        Progress::start(circuit).run(served(handles).take(k)).request() == (if k < 3 * LEN {
            circuit.allocation(k)
        } else if k < 4 * LEN {
            Request::Enforce(constraint_over(handles, k - 3 * LEN))
        } else {
            Request::Finished(Ok(()))
        }),
{
    lemma_served_prefix(circuit, handles, k);
    if k >= 3 * LEN {
        assert(handles.take(3 * LEN as int) =~= handles);
    }
}

/// Synthesis ends with success only when it is complete: nothing has
/// failed, every variable is allocated and every constraint is enforced.
pub proof fn success_means_complete(circuit: RedactionCircuit, responses: Seq<Response>)
    requires
        Progress::start(circuit).run(responses).request() == Request::Finished(Ok(())),
    ensures
        Progress::start(circuit).run(responses).failure.is_none(),
        Progress::start(circuit).run(responses).allocated.len() == 3 * LEN,
        Progress::start(circuit).run(responses).enforced == LEN,
{
    lemma_run_well_formed(circuit, responses);
}

proof fn lemma_run_well_formed(circuit: RedactionCircuit, responses: Seq<Response>)
    ensures
        Progress::start(circuit).run(responses).well_formed(),
    decreases responses.len(),
{
    if responses.len() > 0 {
        lemma_run_well_formed(circuit, responses.drop_last());
    }
}

/// The first failure of the constraint system ends the synthesis, and the
/// synthesis ends with that failure, whatever comes in later.
pub proof fn first_failure_is_final(progress: Progress, e: SynthesisError, later: Seq<Response>)
    requires
        !(progress.request() is Finished),
    ensures
        progress.step(Response::Failed(e)).run(later).request() == Request::Finished(Err(e)),
    decreases later.len(),
{
    if later.len() > 0 {
        first_failure_is_final(progress, e, later.drop_last());
    }
}

/// The constraints of the circuit state the redaction relation, at every
/// constrained index: where a constraint system has handed back distinct
/// variables, the `LEN` constraints all hold under a witness if and only if
/// the witness satisfies the relation.
pub proof fn constraints_state_relation(witness: Witness, handles: Seq<Variable>)
    requires
        handles.len() == 3 * LEN,
        handles.no_duplicates(),
    ensures
        witness.satisfies_relation() <==> (forall|i: int|
            is_constrained(i) ==> holds(
                #[trigger] constraint_over(handles, i),
                assigned(handles, witness),
            )),
{
    let value = assigned(handles, witness);
    assert forall|k: int| 0 <= k < 3 * LEN implies value(#[trigger] handles[k])
        == witness.assignment()[k]@ by {
        assert(handles.contains(handles[k]));
    }
    assert forall|i: int|
        #![trigger witness.redacted@[i]]
        #![trigger constraint_over(handles, i)]
        is_constrained(i) implies (congruent(
            witness.document@[i]@ * witness.redactor@[i]@,
            witness.redacted@[i]@,
        ) <==> holds(constraint_over(handles, i), value)) by {
        assert(value(handles[i]) == witness.document@[i]@);
        assert(value(handles[LEN + i]) == witness.redactor@[i]@);
        assert(value(handles[2 * LEN + i]) == witness.redacted@[i]@);
    }
}

} // verus!
