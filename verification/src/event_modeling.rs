//! Consumer declaration types for event modeling and vertical slices.
use vstd::prelude::*;

use crate::query::{QuerySpec, QuerySpecModel, QueryTransport};
use crate::text::{lacks, lemma_split_concat, lemma_split_without_sep, push_str, split_seq};

verus! {

/// The semantic role a consumer plays in the system.
#[derive(Clone, Copy, Debug, PartialEq, Eq, Structural)]
pub enum ConsumerRole {
    /// A consumer that reacts to events to trigger workflows, commands, or side effects.
    Automation,
    /// A consumer that materializes or updates read-oriented state from events.
    ReadModel,
}

/// The execution behavior a consumer should use when processing messages.
#[derive(Clone, Copy, Debug, PartialEq, Eq, Structural)]
pub enum ExecutionPolicy {
    /// Process one message at a time, preserving consumer order.
    Sequential,
    /// Process multiple messages concurrently, up to the configured in-flight limit.
    Concurrent {
        /// Maximum number of messages to process concurrently. Must be greater than zero.
        max_in_flight: usize,
    },
}

/// The default execution policy of each role: automations run up to sixteen
/// messages at once, read models one at a time.
pub open spec fn default_policy(role: ConsumerRole) -> ExecutionPolicy {
    match role {
        ConsumerRole::Automation => ExecutionPolicy::Concurrent { max_in_flight: 16 },
        ConsumerRole::ReadModel => ExecutionPolicy::Sequential,
    }
}

/// Read models project one event at a time, in stream order, and they are
/// the only role that does by default; automations run up to sixteen
/// messages at once. Every default policy lets at least one message through.
pub proof fn lemma_default_policies(role: ConsumerRole)
    ensures
        (default_policy(role) == ExecutionPolicy::Sequential) <==> role == ConsumerRole::ReadModel,
        role == ConsumerRole::Automation ==> default_policy(role) == (ExecutionPolicy::Concurrent {
            max_in_flight: 16,
        }),
        default_policy(role) matches ExecutionPolicy::Concurrent { max_in_flight } ==> max_in_flight
            > 0,
{
}

impl ConsumerRole {
    /// The default execution policy for this role.
    pub fn default_execution_policy(self) -> (p: ExecutionPolicy)
        ensures
            p == default_policy(self),
            self == ConsumerRole::ReadModel ==> p == ExecutionPolicy::Sequential,
            self == ConsumerRole::Automation ==> p == (ExecutionPolicy::Concurrent { max_in_flight: 16 }),
    {
        match self {
            ConsumerRole::Automation => ExecutionPolicy::Concurrent { max_in_flight: 16 },
            ConsumerRole::ReadModel => ExecutionPolicy::Sequential,
        }
    }
}

/// A structured component identity derived from slice-oriented naming segments.
#[derive(Clone, Debug, PartialEq, Eq)]
pub struct ComponentName {
    bounded_context: &'static str,
    domain: &'static str,
    feature: &'static str,
    component: &'static str,
}

/// The mathematical value of a [`ComponentName`]: its four segments.
pub struct ComponentNameView {
    pub bounded_context: Seq<char>,
    pub domain: Seq<char>,
    pub feature: Seq<char>,
    pub component: Seq<char>,
}

impl View for ComponentName {
    type V = ComponentNameView;

    closed spec fn view(&self) -> ComponentNameView {
        ComponentNameView {
            bounded_context: self.bounded_context@,
            domain: self.domain@,
            feature: self.feature@,
            component: self.component@,
        }
    }
}

/// `a`, `sep`, `b` joined.
pub open spec fn join2(a: Seq<char>, sep: char, b: Seq<char>) -> Seq<char> {
    a + seq![sep] + b
}

/// The durable consumer name: `<bounded_context>_<domain>_<feature>_<component>`.
pub open spec fn durable_name_of(n: ComponentNameView) -> Seq<char> {
    join2(join2(join2(n.bounded_context, '_', n.domain), '_', n.feature), '_', n.component)
}

/// The query subject: `query.<bounded_context>.<domain>.<feature>.<component>`.
pub open spec fn query_subject_of(n: ComponentNameView) -> Seq<char> {
    join2(
        join2(
            join2(join2(seq!['q', 'u', 'e', 'r', 'y'], '.', n.bounded_context), '.', n.domain),
            '.',
            n.feature,
        ),
        '.',
        n.component,
    )
}

/// A name whose four segments hold no dot.
pub open spec fn dot_free(n: ComponentNameView) -> bool {
    &&& lacks(n.bounded_context, '.')
    &&& lacks(n.domain, '.')
    &&& lacks(n.feature, '.')
    &&& lacks(n.component, '.')
}

/// The query subject is `query.` and the four segments of the name in order,
/// joined by dots; when no segment holds a dot, splitting the subject at its
/// dots gives back `query` and the four segments.
pub proof fn lemma_query_subject_segments(n: ComponentNameView)
    ensures
        query_subject_of(n) == "query."@ + n.bounded_context + "."@ + n.domain + "."@ + n.feature
            + "."@ + n.component,
        dot_free(n) ==> split_seq(query_subject_of(n), '.') == seq![
            "query"@,
            n.bounded_context,
            n.domain,
            n.feature,
            n.component,
        ],
{
    reveal_strlit("query.");
    reveal_strlit("query");
    reveal_strlit(".");
    let q = seq!['q', 'u', 'e', 'r', 'y'];
    assert(q =~= "query"@);
    assert(query_subject_of(n) =~= "query."@ + n.bounded_context + "."@ + n.domain + "."@
        + n.feature + "."@ + n.component);
    if dot_free(n) {
        let a = join2(q, '.', n.bounded_context);
        let b = join2(a, '.', n.domain);
        let c = join2(b, '.', n.feature);
        lemma_split_without_sep(q, '.');
        lemma_split_without_sep(n.bounded_context, '.');
        lemma_split_without_sep(n.domain, '.');
        lemma_split_without_sep(n.feature, '.');
        lemma_split_without_sep(n.component, '.');
        lemma_split_concat(q, n.bounded_context, '.');
        lemma_split_concat(a, n.domain, '.');
        lemma_split_concat(b, n.feature, '.');
        lemma_split_concat(c, n.component, '.');
        assert(split_seq(query_subject_of(n), '.') =~= seq![
            "query"@,
            n.bounded_context,
            n.domain,
            n.feature,
            n.component,
        ]);
    }
}

/// Names whose segments hold no dot and that differ in any segment have
/// different query subjects: each component is queried on a subject of its
/// own.
pub proof fn lemma_query_subjects_tell_names_apart(a: ComponentNameView, b: ComponentNameView)
    requires
        dot_free(a),
        dot_free(b),
        a != b,
    ensures
        query_subject_of(a) != query_subject_of(b),
{
    lemma_query_subject_segments(a);
    lemma_query_subject_segments(b);
    if query_subject_of(a) == query_subject_of(b) {
        let sa = split_seq(query_subject_of(a), '.');
        assert(sa[1] == a.bounded_context && sa[2] == a.domain && sa[3] == a.feature
            && sa[4] == a.component);
        assert(a.bounded_context == b.bounded_context);
        assert(a.domain == b.domain);
        assert(a.feature == b.feature);
        assert(a.component == b.component);
    }
}

/// The slice path: `<bounded_context>_<domain>_<feature>`.
pub open spec fn slice_path_of(n: ComponentNameView) -> Seq<char> {
    join2(join2(n.bounded_context, '_', n.domain), '_', n.feature)
}

impl ComponentName {
    /// Create a new structured component identity.
    pub fn new(
        bounded_context: &'static str,
        domain: &'static str,
        feature: &'static str,
        component: &'static str,
    ) -> (r: Self)
        ensures
            r@ == (ComponentNameView {
                bounded_context: bounded_context@,
                domain: domain@,
                feature: feature@,
                component: component@,
            }),
    {
        ComponentName { bounded_context, domain, feature, component }
    }

    /// A copy of this identity.
    pub fn duplicate(&self) -> (r: Self)
        ensures
            r@ == self@,
    {
        ComponentName {
            bounded_context: self.bounded_context,
            domain: self.domain,
            feature: self.feature,
            component: self.component,
        }
    }

    /// The bounded context segment of this component identity.
    pub fn bounded_context(&self) -> (r: &'static str)
        ensures
            r@ == self@.bounded_context,
    {
        self.bounded_context
    }

    /// The domain segment of this component identity.
    pub fn domain(&self) -> (r: &'static str)
        ensures
            r@ == self@.domain,
    {
        self.domain
    }

    /// The feature segment of this component identity.
    pub fn feature(&self) -> (r: &'static str)
        ensures
            r@ == self@.feature,
    {
        self.feature
    }

    /// The component segment of this component identity.
    pub fn component(&self) -> (r: &'static str)
        ensures
            r@ == self@.component,
    {
        self.component
    }

    /// Returns the stable durable consumer name.
    pub fn durable_name(&self) -> (r: String)
        ensures
            r@ == durable_name_of(self@),
            r@ == self@.bounded_context + "_"@ + self@.domain + "_"@ + self@.feature + "_"@
                + self@.component,
    {
        let mut s = self.bounded_context.to_owned();
        push_str(&mut s, "_");
        push_str(&mut s, self.domain);
        push_str(&mut s, "_");
        push_str(&mut s, self.feature);
        push_str(&mut s, "_");
        push_str(&mut s, self.component);
        proof {
            reveal_strlit("_");
        }
        assert(s@ =~= durable_name_of(self@));
        s
    }

    /// Returns the query service subject derived from this component name.
    ///
    /// The convention is `query.<bounded_context>.<domain>.<feature>.<component>`.
    pub fn query_subject(&self) -> (r: String)
        ensures
            r@ == query_subject_of(self@),
            r@ == "query."@ + self@.bounded_context + "."@ + self@.domain + "."@ + self@.feature
                + "."@ + self@.component,
    {
        let mut s = "query.".to_owned();
        push_str(&mut s, self.bounded_context);
        push_str(&mut s, ".");
        push_str(&mut s, self.domain);
        push_str(&mut s, ".");
        push_str(&mut s, self.feature);
        push_str(&mut s, ".");
        push_str(&mut s, self.component);
        proof {
            reveal_strlit("query.");
            reveal_strlit(".");
        }
        assert(s@ =~= query_subject_of(self@));
        proof {
            lemma_query_subject_segments(self@);
        }
        s
    }

    /// Returns the structured slice path without the consumer segment.
    pub fn slice_path(&self) -> (r: String)
        ensures
            r@ == slice_path_of(self@),
            r@ == self@.bounded_context + "_"@ + self@.domain + "_"@ + self@.feature,
    {
        let mut s = self.bounded_context.to_owned();
        push_str(&mut s, "_");
        push_str(&mut s, self.domain);
        push_str(&mut s, "_");
        push_str(&mut s, self.feature);
        proof {
            reveal_strlit("_");
        }
        assert(s@ =~= slice_path_of(self@));
        s
    }
}

/// A normalized consumer declaration that can later be executed by infrastructure.
#[derive(Debug)]
pub struct ConsumerSpec<P> {
    name: ComponentName,
    role: ConsumerRole,
    execution_policy: ExecutionPolicy,
    projector: P,
}

/// The mathematical value of a [`ConsumerSpec`].
pub struct ConsumerSpecModel<P> {
    pub name: ComponentNameView,
    pub role: ConsumerRole,
    pub execution_policy: ExecutionPolicy,
    pub projector: P,
}

impl<P> View for ConsumerSpec<P> {
    type V = ConsumerSpecModel<P>;

    closed spec fn view(&self) -> ConsumerSpecModel<P> {
        ConsumerSpecModel {
            name: self.name@,
            role: self.role,
            execution_policy: self.execution_policy,
            projector: self.projector,
        }
    }
}

impl<P> ConsumerSpec<P> {
    /// Create a new consumer specification with the given role defaults.
    pub fn new(name: ComponentName, role: ConsumerRole, projector: P) -> (r: Self)
        ensures
            r@ == (ConsumerSpecModel {
                name: name@,
                role,
                execution_policy: default_policy(role),
                projector,
            }),
    {
        ConsumerSpec { name, role, execution_policy: role.default_execution_policy(), projector }
    }

    /// Returns the structured name for this consumer.
    pub fn name(&self) -> (r: &ComponentName)
        ensures
            r@ == self@.name,
    {
        &self.name
    }

    /// Returns the semantic role for this consumer.
    pub fn role(&self) -> (r: ConsumerRole)
        ensures
            r == self@.role,
    {
        self.role
    }

    /// Returns the configured execution policy for this consumer.
    pub fn execution_policy(&self) -> (r: ExecutionPolicy)
        ensures
            r == self@.execution_policy,
    {
        self.execution_policy
    }

    /// Returns a reference to the configured projector.
    pub fn projector(&self) -> (r: &P)
        ensures
            *r == self@.projector,
    {
        &self.projector
    }

    /// Returns a mutable reference to the configured projector.
    pub fn projector_mut(&mut self) -> (r: &mut P)
        ensures
            *r == old(self)@.projector,
            final(self)@ == (ConsumerSpecModel { projector: *final(r), ..old(self)@ }),
        no_unwind
    {
        &mut self.projector
    }

    /// Consumes the specification and returns the configured projector.
    pub fn into_projector(self) -> (r: P)
        ensures
            r == self@.projector,
    {
        self.projector
    }

    /// Override the execution policy for this consumer.
    pub fn with_execution_policy(self, execution_policy: ExecutionPolicy) -> (r: Self)
        ensures
            r@ == (ConsumerSpecModel { execution_policy, ..self@ }),
    {
        ConsumerSpec {
            name: self.name,
            role: self.role,
            execution_policy,
            projector: self.projector,
        }
    }
}

impl<P: Clone> Clone for ConsumerSpec<P> {
    /// A copy with the same name, role and execution policy, and a clone of
    /// the projector.
    fn clone(&self) -> (r: Self)
        ensures
            r@.name == self@.name,
            r@.role == self@.role,
            r@.execution_policy == self@.execution_policy,
            cloned(self@.projector, r@.projector),
    {
        ConsumerSpec {
            name: self.name.duplicate(),
            role: self.role,
            execution_policy: self.execution_policy,
            projector: self.projector.clone(),
        }
    }
}

/// A declaration builder for automation consumers.
#[derive(Clone, Debug)]
pub struct Automation<P> {
    spec: ConsumerSpec<P>,
}

impl<P> View for Automation<P> {
    type V = ConsumerSpecModel<P>;

    closed spec fn view(&self) -> ConsumerSpecModel<P> {
        self.spec@
    }
}

impl<P> Automation<P> {
    /// Create a new automation declaration with automation defaults.
    pub fn new(name: ComponentName, projector: P) -> (r: Self)
        ensures
            r@ == (ConsumerSpecModel {
                name: name@,
                role: ConsumerRole::Automation,
                execution_policy: default_policy(ConsumerRole::Automation),
                projector,
            }),
    {
        Automation { spec: ConsumerSpec::new(name, ConsumerRole::Automation, projector) }
    }

    /// Override the execution policy for this automation.
    pub fn with_execution_policy(self, execution_policy: ExecutionPolicy) -> (r: Self)
        ensures
            r@ == (ConsumerSpecModel { execution_policy, ..self@ }),
    {
        Automation { spec: self.spec.with_execution_policy(execution_policy) }
    }

    /// Set the maximum in-flight concurrency for this automation.
    pub fn max_concurrency(self, max_in_flight: usize) -> (r: Self)
        ensures
            r@ == (ConsumerSpecModel {
                execution_policy: ExecutionPolicy::Concurrent { max_in_flight },
                ..self@
            }),
    {
        self.with_execution_policy(ExecutionPolicy::Concurrent { max_in_flight })
    }

    /// Returns the normalized consumer specification.
    pub fn as_spec(&self) -> (r: &ConsumerSpec<P>)
        ensures
            r@ == self@,
    {
        &self.spec
    }

    /// Consumes this builder and returns the normalized consumer specification.
    pub fn into_spec(self) -> (r: ConsumerSpec<P>)
        ensures
            r@ == self@,
    {
        self.spec
    }
}

/// A declaration builder for read model consumers.
#[derive(Debug)]
pub struct ReadModel<P> {
    spec: ConsumerSpec<P>,
}

impl<P> View for ReadModel<P> {
    type V = ConsumerSpecModel<P>;

    closed spec fn view(&self) -> ConsumerSpecModel<P> {
        self.spec@
    }
}

impl<P: Clone> Clone for ReadModel<P> {
    /// A copy of this declaration, with a clone of the projector.
    fn clone(&self) -> (r: Self)
        ensures
            r@.name == self@.name,
            r@.role == self@.role,
            r@.execution_policy == self@.execution_policy,
            cloned(self@.projector, r@.projector),
    {
        proof {
            use_type_invariant(self);
        }
        ReadModel { spec: self.spec.clone() }
    }
}

impl<P> ReadModel<P> {
    /// Every read model declaration has the read model role.
    #[verifier::type_invariant]
    spec fn has_read_model_role(self) -> bool {
        self.spec@.role == ConsumerRole::ReadModel
    }

    /// Create a new read model declaration with read model defaults.
    pub fn new(name: ComponentName, projector: P) -> (r: Self)
        ensures
            r@ == (ConsumerSpecModel {
                name: name@,
                role: ConsumerRole::ReadModel,
                execution_policy: default_policy(ConsumerRole::ReadModel),
                projector,
            }),
    {
        ReadModel { spec: ConsumerSpec::new(name, ConsumerRole::ReadModel, projector) }
    }

    /// Override the execution policy for this read model.
    pub fn with_execution_policy(self, execution_policy: ExecutionPolicy) -> (r: Self)
        ensures
            r@ == (ConsumerSpecModel { execution_policy, ..self@ }),
            r@.role == ConsumerRole::ReadModel,
    {
        proof {
            use_type_invariant(&self);
        }
        ReadModel { spec: self.spec.with_execution_policy(execution_policy) }
    }

    /// Returns the normalized consumer specification, whose role is always
    /// the read model role.
    pub fn as_spec(&self) -> (r: &ConsumerSpec<P>)
        ensures
            r@ == self@,
            r@.role == ConsumerRole::ReadModel,
    {
        proof {
            use_type_invariant(self);
        }
        &self.spec
    }

    /// Consumes this builder and returns the normalized consumer
    /// specification, whose role is always the read model role.
    pub fn into_spec(self) -> (r: ConsumerSpec<P>)
        ensures
            r@ == self@,
            r@.role == ConsumerRole::ReadModel,
    {
        proof {
            use_type_invariant(&self);
        }
        self.spec
    }
}

/// A declaration builder that composes a read model consumer (`ConsumerSpec`)
/// and its query handler (`QuerySpec`) as a single vertical slice.
#[derive(Debug)]
pub struct ReadModelSlice<P, H> {
    consumer_spec: ConsumerSpec<P>,
    query_spec: QuerySpec<H>,
}

/// The mathematical value of a [`ReadModelSlice`].
pub struct ReadModelSliceModel<P, H> {
    pub consumer: ConsumerSpecModel<P>,
    pub query: QuerySpecModel<H>,
}

/// One builder call on a read model slice, with its argument.
pub enum SliceSetting {
    /// A call of `with_execution_policy`.
    ExecutionPolicy(ExecutionPolicy),
    /// A call of `with_query_transport`.
    QueryTransport(QueryTransport),
}

/// A slice after one builder call: the consumer's execution policy or the
/// query's transport replaced.
pub open spec fn with_setting<P, H>(
    s: ReadModelSliceModel<P, H>,
    setting: SliceSetting,
) -> ReadModelSliceModel<P, H> {
    match setting {
        SliceSetting::ExecutionPolicy(p) => ReadModelSliceModel {
            consumer: ConsumerSpecModel { execution_policy: p, ..s.consumer },
            query: s.query,
        },
        SliceSetting::QueryTransport(t) => ReadModelSliceModel {
            consumer: s.consumer,
            query: QuerySpecModel { transport: t, ..s.query },
        },
    }
}

/// A slice after a sequence of builder calls, in order.
pub open spec fn with_settings<P, H>(
    s: ReadModelSliceModel<P, H>,
    settings: Seq<SliceSetting>,
) -> ReadModelSliceModel<P, H>
    decreases settings.len(),
{
    if settings.len() == 0 {
        s
    } else {
        with_settings(with_setting(s, settings[0]), settings.drop_first())
    }
}

/// A slice keeps its name through any sequence of builder calls: the
/// consumer's and the query's names stay those it had (for a slice from
/// `ReadModelSlice::new`, the name given there), and its consumer keeps its
/// role.
pub proof fn lemma_slice_keeps_its_name<P, H>(
    s: ReadModelSliceModel<P, H>,
    settings: Seq<SliceSetting>,
)
    ensures
        with_settings(s, settings).consumer.name == s.consumer.name,
        with_settings(s, settings).query.name == s.query.name,
        with_settings(s, settings).consumer.role == s.consumer.role,
    decreases settings.len(),
{
    if settings.len() > 0 {
        lemma_slice_keeps_its_name(with_setting(s, settings[0]), settings.drop_first());
    }
}

impl<P, H> View for ReadModelSlice<P, H> {
    type V = ReadModelSliceModel<P, H>;

    closed spec fn view(&self) -> ReadModelSliceModel<P, H> {
        ReadModelSliceModel { consumer: self.consumer_spec@, query: self.query_spec@ }
    }
}

impl<P: Clone, H: Clone> Clone for ReadModelSlice<P, H> {
    /// A copy of this slice, with clones of the projector and the handler.
    fn clone(&self) -> (r: Self)
        ensures
            r@.consumer.name == self@.consumer.name,
            r@.consumer.role == self@.consumer.role,
            r@.consumer.execution_policy == self@.consumer.execution_policy,
            cloned(self@.consumer.projector, r@.consumer.projector),
            r@.query.name == self@.query.name,
            r@.query.transport == self@.query.transport,
            cloned(self@.query.handler, r@.query.handler),
    {
        proof {
            use_type_invariant(self);
        }
        ReadModelSlice { consumer_spec: self.consumer_spec.clone(), query_spec: self.query_spec.clone() }
    }
}

impl<P, H> ReadModelSlice<P, H> {
    /// The consumer and the query of a slice share one component name.
    #[verifier::type_invariant]
    spec fn shares_one_name(self) -> bool {
        self.consumer_spec@.name == self.query_spec@.name
    }

    /// Create a new read model slice with the given projector and query handler.
    ///
    /// The `ComponentName` is shared between the consumer and query specs.
    /// The consumer is created with `ConsumerRole::ReadModel` defaults
    /// (sequential execution). The query transport defaults to
    /// `NatsRequestReply`.
    pub fn new(name: ComponentName, projector: P, handler: H) -> (r: Self)
        ensures
            r@.consumer == (ConsumerSpecModel {
                name: name@,
                role: ConsumerRole::ReadModel,
                execution_policy: default_policy(ConsumerRole::ReadModel),
                projector,
            }),
            r@.query == (QuerySpecModel {
                name: name@,
                transport: QueryTransport::NatsRequestReply,
                handler,
            }),
    {
        let consumer_spec = ConsumerSpec::new(name.duplicate(), ConsumerRole::ReadModel, projector);
        let query_spec = QuerySpec::new(name, QueryTransport::NatsRequestReply, handler);
        ReadModelSlice { consumer_spec, query_spec }
    }

    /// Override the execution policy for the consumer.
    pub fn with_execution_policy(self, execution_policy: ExecutionPolicy) -> (r: Self)
        ensures
            r@.consumer == (ConsumerSpecModel { execution_policy, ..self@.consumer }),
            r@.query == self@.query,
            r@ == with_setting(self@, SliceSetting::ExecutionPolicy(execution_policy)),
    {
        proof {
            use_type_invariant(&self);
        }
        ReadModelSlice {
            consumer_spec: self.consumer_spec.with_execution_policy(execution_policy),
            query_spec: self.query_spec,
        }
    }

    /// Override the transport for the query service.
    pub fn with_query_transport(self, transport: QueryTransport) -> (r: Self)
        ensures
            r@.consumer == self@.consumer,
            r@.query == (QuerySpecModel { transport, ..self@.query }),
            r@ == with_setting(self@, SliceSetting::QueryTransport(transport)),
    {
        proof {
            use_type_invariant(&self);
        }
        ReadModelSlice {
            consumer_spec: self.consumer_spec,
            query_spec: self.query_spec.with_transport(transport),
        }
    }

    /// Returns a reference to the consumer specification.
    pub fn consumer_spec(&self) -> (r: &ConsumerSpec<P>)
        ensures
            r@ == self@.consumer,
    {
        &self.consumer_spec
    }

    /// Returns a reference to the query specification.
    pub fn query_spec(&self) -> (r: &QuerySpec<H>)
        ensures
            r@ == self@.query,
    {
        &self.query_spec
    }

    /// Consumes the slice and returns both specifications.
    pub fn into_specs(self) -> (r: (ConsumerSpec<P>, QuerySpec<H>))
        ensures
            r.0@ == self@.consumer,
            r.1@ == self@.query,
    {
        (self.consumer_spec, self.query_spec)
    }

    /// Returns a reference to the slice's component name, which its consumer
    /// and its query share.
    pub fn name(&self) -> (r: &ComponentName)
        ensures
            r@ == self@.consumer.name,
            r@ == self@.query.name,
    {
        proof {
            use_type_invariant(self);
        }
        self.consumer_spec.name()
    }

    /// Returns a reference to the projector.
    pub fn projector(&self) -> (r: &P)
        ensures
            *r == self@.consumer.projector,
    {
        self.consumer_spec.projector()
    }

    /// Returns a mutable reference to the projector.
    pub fn projector_mut(&mut self) -> (r: &mut P)
        ensures
            *r == old(self)@.consumer.projector,
            final(self)@.consumer == (ConsumerSpecModel {
                projector: *final(r),
                ..old(self)@.consumer
            }),
            final(self)@.query == old(self)@.query,
    {
        proof {
            use_type_invariant(&*self);
        }
        self.consumer_spec.projector_mut()
    }

    /// Returns a reference to the query handler.
    pub fn handler(&self) -> (r: &H)
        ensures
            *r == self@.query.handler,
    {
        self.query_spec.handler()
    }

    /// Returns a mutable reference to the query handler.
    pub fn handler_mut(&mut self) -> (r: &mut H)
        ensures
            *r == old(self)@.query.handler,
            final(self)@.query == (QuerySpecModel { handler: *final(r), ..old(self)@.query }),
            final(self)@.consumer == old(self)@.consumer,
    {
        proof {
            use_type_invariant(&*self);
        }
        self.query_spec.handler_mut()
    }
}

} // verus!
