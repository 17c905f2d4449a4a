//! The capability broker: translation, authorization, validation and provider choice.
//!
//! One request passes through these steps, with the program around the library doing the
//! outside work between them:
//!
//! 1. [`CapabilityBroker::execute`] says whose grant is to be resolved, the authority
//!    source resolves it, and [`CapabilityBroker::authorized`] draws up the shortlist;
//! 2. the translator turns the request into one invocation, and
//!    [`CapabilityBroker::translated`] checks it against grant, catalog and schema;
//! 3. the providers are ranked, and [`CapabilityBroker::scored`] picks one;
//! 4. the provider runs, and [`CapabilityBroker::completed`] records the call and gives
//!    the result.

use std::sync::Arc;

use vstd::prelude::*;
use vstd::string::*;

use crate::authority::BrokerError;
use crate::ids::{TicketId, WorkerId};
use crate::json::{object, object2, object3, string, Json, Member};
use crate::model::{double, ModelMessage, ModelReply, ModelRequest};
use crate::protocol::{
    AuthorityEnvelope, CapabilityFailure, CapabilityInvocation, CapabilityRequest,
    CapabilityResult,
};
use crate::schema::validate;
use crate::text::same_text;

#[allow(unused_imports)]
use crate::json::Tree;
#[allow(unused_imports)]
use crate::model::{ModelRole, RequestModel};

verus! {

// ---- the catalog --------------------------------------------------------------------

#[derive(Debug)]
pub struct CapabilityDescriptor {
    pub name: String,
    pub description: String,
    pub argument_schema: Json,
}

/// The model of a descriptor: its name, with its description and its schema.
pub type DescriptorModel = (Seq<char>, (Seq<char>, Tree));

impl View for CapabilityDescriptor {
    type V = DescriptorModel;

    open spec fn view(&self) -> DescriptorModel {
        (self.name@, (self.description@, self.argument_schema@))
    }
}

impl Clone for CapabilityDescriptor {
    fn clone(&self) -> (copy: Self)
        ensures
            copy@ == self@,
    {
        CapabilityDescriptor {
            name: self.name.clone(),
            description: self.description.clone(),
            argument_schema: self.argument_schema.clone(),
        }
    }
}

/// The model of a list of descriptors.
pub open spec fn catalog_model(items: Seq<CapabilityDescriptor>) -> Seq<DescriptorModel> {
    items.map_values(|item: CapabilityDescriptor| item@)
}

/// One descriptor as JSON.
pub open spec fn descriptor_tree(item: DescriptorModel) -> Tree {
    Tree::Object(
        seq![
            ("argument_schema"@, item.1.1),
            ("description"@, Tree::Text(item.1.0)),
            ("name"@, Tree::Text(item.0)),
        ],
    )
}

/// A list of descriptors as JSON.
pub open spec fn catalog_tree(items: Seq<DescriptorModel>) -> Tree {
    Tree::Array(items.map_values(|item: DescriptorModel| descriptor_tree(item)))
}

fn catalog_json(items: &Vec<CapabilityDescriptor>) -> (made: Json)
    ensures
        made@ == catalog_tree(catalog_model(items@)),
{
    let ghost goal = catalog_tree(catalog_model(items@))->Array_0;
    let mut values: Vec<Json> = Vec::new();
    let mut i: usize = 0;
    while i < items.len()
        invariant
            i <= items.len(),
            values.len() == i,
            goal.len() == items.len(),
            goal == catalog_tree(catalog_model(items@))->Array_0,
            forall|j: int| 0 <= j < i ==> (#[trigger] values[j])@ == goal[j],
        decreases items.len() - i,
    {
        let schema = items[i].argument_schema.clone();
        let description = string(items[i].description.as_str());
        let name = string(items[i].name.as_str());
        proof {
            reveal_strlit("argument_schema");
            reveal_strlit("description");
            reveal_strlit("name");
            crate::ordering::smaller_at("argument_schema"@, "description"@, 0);
            crate::ordering::smaller_at("description"@, "name"@, 0);
        }
        values.push(
            object3("argument_schema", schema, "description", description, "name", name),
        );
        i = i + 1;
    }
    let made = Json::Array(values);
    assert(made@->Array_0 =~= goal);
    made
}

// ---- translation --------------------------------------------------------------------

/// The charter of the translating model.
pub const TRANSLATOR_PROMPT: &'static str = r#"
You are the translation component inside a Capability Broker.
Your only job is to translate the immediate worker request into ONE logical capability invocation.
Do not solve the worker's task. Do not plan. Do not write general-purpose code.
Do not assume user/project context beyond the request.
Return JSON exactly shaped as:
{"capability":"capability.name","arguments":{...}}
Only select from the supplied capability list.
Arguments must satisfy the selected capability's argument_schema.
"#;

/// What the translating model is shown: the immediate request and the shortlist, nothing
/// else.
pub open spec fn translation_prompt(request: Seq<char>, shortlist: Seq<DescriptorModel>) -> Tree {
    Tree::Object(
        seq![("capabilities"@, catalog_tree(shortlist)), ("request"@, Tree::Text(request))],
    )
}

/// The model request that asks for a translation.
pub open spec fn translation_request(
    request: Seq<char>,
    shortlist: Seq<DescriptorModel>,
) -> RequestModel {
    crate::model::json_request(
        seq![
            (ModelRole::System, TRANSLATOR_PROMPT@),
            (ModelRole::User, translation_prompt(request, shortlist).text()),
        ],
        (0, "0.0"@),
    )
}

/// The SLM sees only the immediate request and capability shortlist.
#[derive(Debug)]
pub struct SlmTranslator<M> {
    pub model: Arc<M>,
}

impl<M> SlmTranslator<M> {
    pub fn new(model: Arc<M>) -> (translator: Self)
        ensures
            translator.model == model,
    {
        SlmTranslator { model }
    }

    /// The model request that asks for a translation.
    pub fn translate(&self, request: &CapabilityRequest, candidates: &Vec<CapabilityDescriptor>) -> (
    asked: ModelRequest)
        ensures
            asked@ == translation_request(request.request@, catalog_model(candidates@)),
    {
        let wanted = string(request.request.as_str());
        proof {
            reveal_strlit("capabilities");
            reveal_strlit("request");
            crate::ordering::smaller_at("capabilities"@, "request"@, 0);
        }
        let prompt = object2("capabilities", catalog_json(candidates), "request", wanted);
        let text = prompt.to_text();
        let messages = vec![
            ModelMessage::system(TRANSLATOR_PROMPT),
            ModelMessage::user(text.as_str()),
        ];
        let asked = ModelRequest::json(messages, double(0, "0.0"));
        assert(asked@.messages =~= translation_request(
            request.request@,
            catalog_model(candidates@),
        ).messages);
        asked
    }

    /// The translation that a reply holds.
    pub fn translated(&self, reply: ModelReply<CapabilityInvocation>) -> (result: Result<
        CapabilityInvocation,
        BrokerError,
    >)
        ensures
            match reply {
                ModelReply::Failed(error) => result matches Err(BrokerError::Translation(detail))
                    && detail@ == error.text(),
                ModelReply::Unreadable(why) => result == Err::<CapabilityInvocation, _>(
                    BrokerError::Translation(why),
                ),
                ModelReply::Read(invocation) => result == Ok::<_, BrokerError>(invocation),
            },
    {
        match reply {
            ModelReply::Failed(error) => Err(BrokerError::Translation(error.message())),
            ModelReply::Unreadable(why) => Err(BrokerError::Translation(why)),
            ModelReply::Read(invocation) => Ok(invocation),
        }
    }
}

// ---- provider choice ----------------------------------------------------------------

/// Where a rank stands in the total order of doubles: the negative ones downwards from
/// minus one, the others upwards from zero.
pub open spec fn rank_key(bits: u64) -> int {
    if bits < 0x8000_0000_0000_0000 {
        bits as int
    } else {
        0x8000_0000_0000_0000 - bits - 1
    }
}

/// Whether position `at` is the first one with the least rank.
pub open spec fn is_first_least(ranks: Seq<u64>, at: int) -> bool {
    &&& 0 <= at < ranks.len()
    &&& forall|j: int| 0 <= j < ranks.len() ==> rank_key(ranks[at]) <= rank_key(#[trigger] ranks[j])
    &&& forall|j: int| 0 <= j < at ==> rank_key(ranks[at]) < rank_key(#[trigger] ranks[j])
}

/// There is only one first least rank: the choice is deterministic.
pub proof fn the_choice_is_unique(ranks: Seq<u64>, a: int, b: int)
    requires
        is_first_least(ranks, a),
        is_first_least(ranks, b),
    ensures
        a == b,
{
    if a < b {
        assert(rank_key(ranks[b]) < rank_key(ranks[a]));
    }
    if b < a {
        assert(rank_key(ranks[a]) < rank_key(ranks[b]));
    }
}

fn ranks_before(a: u64, b: u64) -> (before: bool)
    ensures
        before == (rank_key(a) < rank_key(b)),
{
    let half: u64 = 0x8000_0000_0000_0000;
    if a < half && b < half {
        a < b
    } else if a >= half && b >= half {
        b < a
    } else {
        a >= half
    }
}

fn first_least(ranks: &Vec<u64>) -> (at: usize)
    requires
        ranks@.len() > 0,
    ensures
        is_first_least(ranks@, at as int),
{
    let mut at: usize = 0;
    let mut i: usize = 1;
    while i < ranks.len()
        invariant
            0 <= at < i <= ranks.len(),
            forall|j: int|
                0 <= j < i ==> rank_key(ranks@[at as int]) <= rank_key(#[trigger] ranks@[j]),
            forall|j: int|
                0 <= j < at ==> rank_key(ranks@[at as int]) < rank_key(#[trigger] ranks@[j]),
        decreases ranks.len() - i,
    {
        if ranks_before(ranks[i], ranks[at]) {
            at = i;
        }
        i = i + 1;
    }
    at
}

// ---- operational memory -------------------------------------------------------------

#[derive(Debug, Clone, Copy, PartialEq, Eq, Structural)]
pub struct ProviderTelemetry {
    pub calls: u64,
    pub failures: u64,
    pub total_latency_ms: u128,
}

impl Default for ProviderTelemetry {
    fn default() -> (made: Self)
        ensures
            made == (ProviderTelemetry { calls: 0, failures: 0, total_latency_ms: 0 }),
    {
        ProviderTelemetry { calls: 0, failures: 0, total_latency_ms: 0 }
    }
}

/// What is recorded of one provider.
#[derive(Debug)]
pub struct TelemetryEntry {
    pub provider: String,
    pub telemetry: ProviderTelemetry,
}

/// The model of the records: each provider with its telemetry, in the order in which they
/// were first recorded.
pub open spec fn telemetry_model(entries: Seq<TelemetryEntry>) -> Seq<
    (Seq<char>, ProviderTelemetry),
> {
    entries.map_values(|entry: TelemetryEntry| (entry.provider@, entry.telemetry))
}

/// The telemetry of a provider; one never recorded has none of anything.
pub open spec fn telemetry_of(
    entries: Seq<(Seq<char>, ProviderTelemetry)>,
    provider: Seq<char>,
) -> ProviderTelemetry {
    match crate::keyed::find(entries, provider) {
        Some(telemetry) => telemetry,
        None => ProviderTelemetry { calls: 0, failures: 0, total_latency_ms: 0 },
    }
}

/// Whether one more call fits the counters.
pub open spec fn fits_one_more(
    telemetry: ProviderTelemetry,
    elapsed_nanos: u128,
    ok: bool,
) -> bool {
    &&& telemetry.calls < u64::MAX
    &&& ok || telemetry.failures < u64::MAX
    &&& telemetry.total_latency_ms + elapsed_nanos / 1_000_000 <= u128::MAX
}

/// The telemetry after one more call.
pub open spec fn one_more_call(
    telemetry: ProviderTelemetry,
    elapsed_nanos: u128,
    ok: bool,
) -> ProviderTelemetry {
    ProviderTelemetry {
        calls: (telemetry.calls + 1) as u64,
        failures: if ok {
            telemetry.failures
        } else {
            (telemetry.failures + 1) as u64
        },
        total_latency_ms: (telemetry.total_latency_ms + elapsed_nanos / 1_000_000) as u128,
    }
}

/// The records after one more call.
pub open spec fn recorded(
    entries: Seq<(Seq<char>, ProviderTelemetry)>,
    provider: Seq<char>,
    elapsed_nanos: u128,
    ok: bool,
) -> Seq<(Seq<char>, ProviderTelemetry)> {
    crate::keyed::put(
        entries,
        provider,
        one_more_call(telemetry_of(entries, provider), elapsed_nanos, ok),
    )
}

/// What the broker remembers: how its providers behave, and nothing of users or projects.
#[derive(Debug)]
pub struct OperationalMemory {
    entries: Vec<TelemetryEntry>,
}

impl View for OperationalMemory {
    type V = Seq<(Seq<char>, ProviderTelemetry)>;

    closed spec fn view(&self) -> Seq<(Seq<char>, ProviderTelemetry)> {
        telemetry_model(self.entries@)
    }
}

impl Default for OperationalMemory {
    fn default() -> (memory: Self)
        ensures
            memory@ == Seq::<(Seq<char>, ProviderTelemetry)>::empty(),
    {
        let memory = OperationalMemory { entries: Vec::new() };
        assert(memory@ =~= Seq::<(Seq<char>, ProviderTelemetry)>::empty());
        memory
    }
}

impl OperationalMemory {
    /// No provider is recorded twice.
    #[verifier::type_invariant]
    closed spec fn one_record_each(self) -> bool {
        crate::keyed::distinct(self@)
    }

    /// Where a provider is recorded, or the number of records.
    fn position(&self, provider: &str) -> (at: usize)
        ensures
            at <= self@.len(),
            at < self@.len() ==> self@[at as int].0 == provider@,
            forall|i: int| 0 <= i < at ==> (#[trigger] self@[i]).0 != provider@,
    {
        let mut at: usize = 0;
        while at < self.entries.len() && !same_text(self.entries[at].provider.as_str(), provider)
            invariant
                at <= self.entries.len(),
                forall|i: int| 0 <= i < at ==> (#[trigger] self@[i]).0 != provider@,
            decreases self.entries.len() - at,
        {
            at = at + 1;
        }
        at
    }

    /// The telemetry of a provider; one never recorded has none of anything.
    pub fn telemetry(&self, provider: &str) -> (telemetry: ProviderTelemetry)
        ensures
            telemetry == telemetry_of(self@, provider@),
    {
        let at = self.position(provider);
        let unused = ProviderTelemetry::default();
        proof {
            crate::keyed::put_replaces_or_appends(self@, provider@, unused, at as int);
        }
        if at < self.entries.len() {
            self.entries[at].telemetry
        } else {
            unused
        }
    }

    /// Whether one more call of a provider fits its counters.
    pub fn has_room(&self, provider: &str, elapsed_nanos: u128, ok: bool) -> (room: bool)
        ensures
            room == fits_one_more(telemetry_of(self@, provider@), elapsed_nanos, ok),
    {
        let telemetry = self.telemetry(provider);
        telemetry.calls < u64::MAX && (ok || telemetry.failures < u64::MAX)
            && telemetry.total_latency_ms <= u128::MAX - elapsed_nanos / 1_000_000
    }

    /// Counts one call of a provider, with its latency in whole milliseconds.
    pub fn record(&mut self, provider: &str, elapsed_nanos: u128, ok: bool)
        requires
            fits_one_more(telemetry_of(old(self)@, provider@), elapsed_nanos, ok),
        ensures
            final(self)@ == recorded(old(self)@, provider@, elapsed_nanos, ok),
    {
        proof {
            use_type_invariant(&*self);
        }
        let at = self.position(provider);
        let known = self.telemetry(provider);
        let ghost before = self@;
        let updated = ProviderTelemetry {
            calls: known.calls + 1,
            failures: if ok {
                known.failures
            } else {
                known.failures + 1
            },
            total_latency_ms: known.total_latency_ms + elapsed_nanos / 1_000_000,
        };
        proof {
            crate::keyed::put_replaces_or_appends(before, provider@, updated, at as int);
            crate::keyed::putting_keeps_names_distinct(before, provider@, updated);
        }
        let entry = TelemetryEntry { provider: provider.to_owned(), telemetry: updated };
        let mut entries: Vec<TelemetryEntry> = Vec::new();
        std::mem::swap(&mut entries, &mut self.entries);
        if at < entries.len() {
            entries.set(at, entry);
            assert(telemetry_model(entries@) =~= before.update(at as int, (provider@, updated)));
        } else {
            entries.push(entry);
            assert(telemetry_model(entries@) =~= before.push((provider@, updated)));
        }
        self.entries = entries;
    }

    /// Everything that is recorded.
    pub fn snapshot(&self) -> (entries: Vec<TelemetryEntry>)
        ensures
            telemetry_model(entries@) == self@,
            crate::keyed::distinct(self@),
    {
        proof {
            use_type_invariant(self);
        }
        let mut entries: Vec<TelemetryEntry> = Vec::new();
        let mut i: usize = 0;
        while i < self.entries.len()
            invariant
                i <= self.entries.len(),
                entries.len() == i,
                forall|j: int|
                    0 <= j < i ==> (#[trigger] entries[j]).provider@ == self@[j].0
                        && entries[j].telemetry == self@[j].1,
            decreases self.entries.len() - i,
        {
            entries.push(
                TelemetryEntry {
                    provider: self.entries[i].provider.clone(),
                    telemetry: self.entries[i].telemetry,
                },
            );
            i = i + 1;
        }
        assert(telemetry_model(entries@) =~= self@);
        entries
    }
}

/// Recording a call adds one to the calls of its provider, and to its failures where it
/// failed; the failures never exceed the calls; no other provider's record changes.
pub proof fn recording_counts_one_provider(
    entries: Seq<(Seq<char>, ProviderTelemetry)>,
    provider: Seq<char>,
    elapsed_nanos: u128,
    ok: bool,
    other: Seq<char>,
)
    requires
        fits_one_more(telemetry_of(entries, provider), elapsed_nanos, ok),
    ensures
        ({
            let before = telemetry_of(entries, provider);
            let after = telemetry_of(recorded(entries, provider, elapsed_nanos, ok), provider);
            &&& after.calls == before.calls + 1
            &&& after.failures == before.failures + (if ok {
                0int
            } else {
                1int
            })
            &&& before.failures <= before.calls ==> after.failures <= after.calls
            &&& after.total_latency_ms == before.total_latency_ms + elapsed_nanos / 1_000_000
        }),
        other != provider ==> telemetry_of(recorded(entries, provider, elapsed_nanos, ok), other)
            == telemetry_of(entries, other),
{
    let value = one_more_call(telemetry_of(entries, provider), elapsed_nanos, ok);
    crate::keyed::what_is_put_is_found(entries, provider, value, provider);
    crate::keyed::what_is_put_is_found(entries, provider, value, other);
}

// ---- the broker ---------------------------------------------------------------------

/// One registered provider: who it is and which capability it serves.
#[derive(Debug)]
pub struct ProviderEntry {
    pub id: String,
    pub capability: String,
}

/// The model of the registered providers, in the order of their registration.
pub open spec fn providers_model(items: Seq<ProviderEntry>) -> Seq<(Seq<char>, Seq<char>)> {
    items.map_values(|item: ProviderEntry| (item.id@, item.capability@))
}

/// The numbers of the providers of a capability, among the first `n`, in the order of
/// their registration.
pub open spec fn serving(
    providers: Seq<(Seq<char>, Seq<char>)>,
    capability: Seq<char>,
    n: int,
) -> Seq<int>
    decreases n,
{
    if n <= 0 {
        seq![]
    } else if providers[n - 1].1 == capability {
        serving(providers, capability, n - 1).push(n - 1)
    } else {
        serving(providers, capability, n - 1)
    }
}

/// The providers listed for a capability are exactly those registered for it.
pub proof fn serving_lists_the_providers(
    providers: Seq<(Seq<char>, Seq<char>)>,
    capability: Seq<char>,
    n: int,
    p: int,
)
    requires
        0 <= n <= providers.len(),
    ensures
        serving(providers, capability, n).contains(p) <==> 0 <= p < n && providers[p].1
            == capability,
    decreases n,
{
    if n > 0 {
        serving_lists_the_providers(providers, capability, n - 1, p);
        let shorter = serving(providers, capability, n - 1);
        if providers[n - 1].1 == capability {
            let longer = shorter.push(n - 1);
            assert(longer[shorter.len() as int] == n - 1);
            if shorter.contains(p) {
                let i = choose|i: int| 0 <= i < shorter.len() && shorter[i] == p;
                assert(longer[i] == p);
            }
            if longer.contains(p) && p != n - 1 {
                let i = choose|i: int| 0 <= i < longer.len() && longer[i] == p;
                assert(shorter[i] == p);
            }
        }
    }
}

/// The numbers as mathematical integers.
pub open spec fn numbers(items: Seq<usize>) -> Seq<int> {
    items.map_values(|n: usize| n as int)
}

/// Whose grant the authority source is to resolve, and for which request.
#[derive(Debug)]
pub struct AuthorityCall {
    pub ticket_id: TicketId,
    pub worker_id: WorkerId,
    pub request: CapabilityRequest,
}

/// What the translator is to be asked: to turn this request into one of the candidates.
#[derive(Debug)]
pub struct TranslationCall {
    pub request: CapabilityRequest,
    pub authority: AuthorityEnvelope,
    pub candidates: Vec<CapabilityDescriptor>,
}

/// A checked invocation, and the numbers of the providers to be ranked for it.
#[derive(Debug)]
pub struct ScoringCall {
    pub request: CapabilityRequest,
    pub invocation: CapabilityInvocation,
    pub providers: Vec<usize>,
}

/// The provider that is to run, and what it is to be given.
#[derive(Debug)]
pub struct ProviderCall {
    pub request: CapabilityRequest,
    pub invocation: CapabilityInvocation,
    pub provider: usize,
    pub provider_id: String,
}

/// The shortlist that a grant permits.
pub open spec fn shortlist(catalog: Seq<DescriptorModel>, granted: Seq<Seq<char>>) -> Seq<
    DescriptorModel,
> {
    catalog.filter(|item: DescriptorModel| granted.contains(item.0))
}

/// Why an invocation does not reach a provider.
pub enum Refusal {
    Denied(Seq<char>),
    Gap,
    Arguments(Seq<char>),
    Unavailable(Seq<char>),
}

/// Why an invocation does not reach a provider: the capability is outside the grant, or
/// not registered, or its arguments do not satisfy the declared schema, or nobody serves
/// it.
pub open spec fn invocation_refusal(
    catalog: Seq<DescriptorModel>,
    providers: Seq<(Seq<char>, Seq<char>)>,
    granted: Seq<Seq<char>>,
    capability: Seq<char>,
    arguments: Tree,
) -> Option<Refusal> {
    if !granted.contains(capability) {
        Some(Refusal::Denied(capability))
    } else {
        match crate::keyed::find(catalog, capability) {
            None => Some(Refusal::Gap),
            Some(found) => match crate::schema::fault("arguments"@, found.1, arguments) {
                Some(why) => Some(Refusal::Arguments(why)),
                None => if serving(providers, capability, providers.len() as int).len() == 0 {
                    Some(Refusal::Unavailable(capability))
                } else {
                    None
                },
            },
        }
    }
}

/// Whether an error states this refusal.
pub open spec fn states_refusal(error: BrokerError, refusal: Refusal) -> bool {
    match refusal {
        Refusal::Denied(what) => error matches BrokerError::Denied(detail) && detail@ == what,
        Refusal::Gap => error is CapabilityGap,
        Refusal::Arguments(why) => error matches BrokerError::InvalidArguments(detail) && detail@
            == why,
        Refusal::Unavailable(what) => error matches BrokerError::ProviderUnavailable(detail)
            && detail@ == what,
    }
}

/// The deterministic core of the broker.
#[derive(Debug)]
pub struct CapabilityBroker<T, A> {
    translator: Arc<T>,
    authority: Arc<A>,
    capabilities: Vec<CapabilityDescriptor>,
    providers: Vec<ProviderEntry>,
    operational_memory: OperationalMemory,
}

impl<T, A> CapabilityBroker<T, A> {
    /// No capability is registered twice.
    #[verifier::type_invariant]
    closed spec fn one_descriptor_each(self) -> bool {
        crate::keyed::distinct(self.catalog())
    }

    /// The translator and the authority source that the broker works with.
    pub closed spec fn ports(self) -> (Arc<T>, Arc<A>) {
        (self.translator, self.authority)
    }

    /// The registered capabilities.
    pub closed spec fn catalog(self) -> Seq<DescriptorModel> {
        catalog_model(self.capabilities@)
    }

    /// The registered providers.
    pub closed spec fn registered(self) -> Seq<(Seq<char>, Seq<char>)> {
        providers_model(self.providers@)
    }

    /// What is recorded of the providers.
    pub closed spec fn memory(self) -> Seq<(Seq<char>, ProviderTelemetry)> {
        self.operational_memory@
    }

    pub fn new(translator: Arc<T>, authority: Arc<A>) -> (broker: Self)
        ensures
            broker.ports() == (translator, authority),
            broker.catalog() == Seq::<DescriptorModel>::empty(),
            broker.registered() == Seq::<(Seq<char>, Seq<char>)>::empty(),
            broker.memory() == Seq::<(Seq<char>, ProviderTelemetry)>::empty(),
    {
        let broker = CapabilityBroker {
            translator,
            authority,
            capabilities: Vec::new(),
            providers: Vec::new(),
            operational_memory: OperationalMemory::default(),
        };
        assert(broker.catalog() =~= Seq::<DescriptorModel>::empty());
        assert(broker.registered() =~= Seq::<(Seq<char>, Seq<char>)>::empty());
        broker
    }

    /// The translator that the broker works with.
    pub fn translator(&self) -> (translator: &Arc<T>)
        ensures
            *translator == self.ports().0,
    {
        &self.translator
    }

    /// The authority source that the broker works with.
    pub fn authority(&self) -> (authority: &Arc<A>)
        ensures
            *authority == self.ports().1,
    {
        &self.authority
    }

    pub fn operational_memory(&self) -> (memory: &OperationalMemory)
        ensures
            memory@ == self.memory(),
    {
        &self.operational_memory
    }

    /// Where a capability is registered, or the number of capabilities.
    fn position(&self, name: &str) -> (at: usize)
        ensures
            at <= self.catalog().len(),
            at < self.catalog().len() ==> self.catalog()[at as int].0 == name@,
            forall|i: int| 0 <= i < at ==> (#[trigger] self.catalog()[i]).0 != name@,
    {
        let mut at: usize = 0;
        while at < self.capabilities.len() && !same_text(self.capabilities[at].name.as_str(), name)
            invariant
                at <= self.capabilities.len(),
                forall|i: int| 0 <= i < at ==> (#[trigger] self.catalog()[i]).0 != name@,
            decreases self.capabilities.len() - at,
        {
            at = at + 1;
        }
        at
    }

    /// Registers a capability, in place of one of the same name.
    pub fn register_capability(&mut self, descriptor: CapabilityDescriptor)
        ensures
            final(self).ports() == old(self).ports(),
            final(self).catalog() == crate::keyed::put(
                old(self).catalog(),
                descriptor@.0,
                descriptor@.1,
            ),
            final(self).registered() == old(self).registered(),
            final(self).memory() == old(self).memory(),
    {
        proof {
            use_type_invariant(&*self);
        }
        let at = self.position(descriptor.name.as_str());
        let ghost before = self.catalog();
        let ghost added = descriptor@;
        proof {
            crate::keyed::put_replaces_or_appends(before, added.0, added.1, at as int);
            crate::keyed::putting_keeps_names_distinct(before, added.0, added.1);
        }
        let mut capabilities: Vec<CapabilityDescriptor> = Vec::new();
        std::mem::swap(&mut capabilities, &mut self.capabilities);
        if at < capabilities.len() {
            capabilities.set(at, descriptor);
            assert(catalog_model(capabilities@) =~= before.update(at as int, added));
        } else {
            capabilities.push(descriptor);
            assert(catalog_model(capabilities@) =~= before.push(added));
        }
        self.capabilities = capabilities;
    }

    /// Registers a provider, behind those that its capability already has.
    pub fn register_provider(&mut self, provider: ProviderEntry)
        ensures
            final(self).ports() == old(self).ports(),
            final(self).catalog() == old(self).catalog(),
            final(self).registered() == old(self).registered().push(
                (provider.id@, provider.capability@),
            ),
            final(self).memory() == old(self).memory(),
    {
        proof {
            use_type_invariant(&*self);
        }
        let ghost before = self.registered();
        let ghost added = (provider.id@, provider.capability@);
        let mut providers: Vec<ProviderEntry> = Vec::new();
        std::mem::swap(&mut providers, &mut self.providers);
        providers.push(provider);
        self.providers = providers;
        assert(self.registered() =~= before.push(added));
    }

    /// Deterministic shortlist before the SLM: the registered capabilities that the grant
    /// holds.
    pub fn candidates(&self, authority: &AuthorityEnvelope) -> (found: Vec<CapabilityDescriptor>)
        ensures
            catalog_model(found@) == shortlist(self.catalog(), authority@.external),
            crate::keyed::distinct(self.catalog()),
    {
        proof {
            use_type_invariant(self);
        }
        let ghost catalog = self.catalog();
        let ghost keep = |item: DescriptorModel| authority@.external.contains(item.0);
        let mut found: Vec<CapabilityDescriptor> = Vec::new();
        let mut i: usize = 0;
        assert(catalog_model(found@) =~= catalog.take(0).filter(keep)) by {
            reveal(Seq::filter);
        }
        while i < self.capabilities.len()
            invariant
                i <= self.capabilities.len(),
                catalog == self.catalog(),
                keep == (|item: DescriptorModel| authority@.external.contains(item.0)),
                catalog_model(found@) == catalog.take(i as int).filter(keep),
            decreases self.capabilities.len() - i,
        {
            let ghost before = catalog_model(found@);
            proof {
                assert(catalog.take(i + 1).drop_last() =~= catalog.take(i as int));
                assert(catalog.take(i + 1).last() == catalog[i as int]);
                reveal(Seq::filter);
            }
            if authority.external_capabilities.contains(self.capabilities[i].name.as_str()) {
                found.push(self.capabilities[i].clone());
                assert(catalog_model(found@) =~= before.push(catalog[i as int]));
            }
            i = i + 1;
        }
        assert(catalog.take(self.capabilities.len() as int) =~= catalog);
        found
    }

    /// Starts one capability request.
    ///
    /// The request carries identity and intent only. Its authority is resolved from the
    /// broker's own trusted source, for the ticket and the worker that it names, so a
    /// worker cannot widen its own grant by asking.
    pub fn execute(&self, request: CapabilityRequest) -> (call: AuthorityCall)
        ensures
            call.ticket_id == request.ticket_id,
            call.worker_id == request.worker_id,
            call.request == request,
    {
        AuthorityCall { ticket_id: request.ticket_id, worker_id: request.worker_id, request }
    }

    /// Draws up the shortlist that the resolved authority permits.
    pub fn authorized(
        &self,
        call: AuthorityCall,
        authority: Result<AuthorityEnvelope, BrokerError>,
    ) -> (result: Result<TranslationCall, BrokerError>)
        ensures
            match authority {
                Err(error) => result == Err::<TranslationCall, _>(error),
                Ok(grant) => if shortlist(self.catalog(), grant@.external).len() == 0 {
                    result == Err::<TranslationCall, _>(BrokerError::CapabilityGap)
                } else {
                    result matches Ok(next) && next.request == call.request && next.authority
                        == grant && catalog_model(next.candidates@) == shortlist(
                        self.catalog(),
                        grant@.external,
                    )
                },
            },
    {
        let authority = match authority {
            Ok(grant) => grant,
            Err(error) => {
                return Err(error);
            },
        };
        let candidates = self.candidates(&authority);
        assert(catalog_model(candidates@).len() == candidates.len());
        if candidates.len() == 0 {
            return Err(BrokerError::CapabilityGap);
        }
        Ok(TranslationCall { request: call.request, authority, candidates })
    }

    /// The numbers of the providers of a capability.
    fn providers_of(&self, capability: &str) -> (found: Vec<usize>)
        ensures
            numbers(found@) == serving(
                self.registered(),
                capability@,
                self.registered().len() as int,
            ),
    {
        let mut found: Vec<usize> = Vec::new();
        let mut i: usize = 0;
        assert(numbers(found@) =~= Seq::<int>::empty());
        while i < self.providers.len()
            invariant
                i <= self.providers.len(),
                numbers(found@) == serving(self.registered(), capability@, i as int),
            decreases self.providers.len() - i,
        {
            let ghost before = numbers(found@);
            if same_text(self.providers[i].capability.as_str(), capability) {
                found.push(i);
                assert(numbers(found@) =~= before.push(i as int));
            }
            i = i + 1;
        }
        found
    }

    /// Checks an invocation that a translator proposed.
    ///
    /// The translator's output is untrusted structured input: the capability must be
    /// granted and registered, and the arguments must satisfy its declared schema, before
    /// any provider sees them.
    pub fn translated(
        &self,
        call: TranslationCall,
        invocation: Result<CapabilityInvocation, BrokerError>,
    ) -> (result: Result<ScoringCall, BrokerError>)
        ensures
            match invocation {
                Err(error) => result == Err::<ScoringCall, _>(error),
                Ok(invocation) => match invocation_refusal(
                    self.catalog(),
                    self.registered(),
                    call.authority@.external,
                    invocation.capability@,
                    invocation.arguments@,
                ) {
                    Some(refusal) => result matches Err(error) && states_refusal(error, refusal),
                    None => result matches Ok(scoring) && scoring.request == call.request
                        && scoring.invocation == invocation && numbers(scoring.providers@)
                        == serving(
                        self.registered(),
                        invocation.capability@,
                        self.registered().len() as int,
                    ) && forall|i: int|
                        0 <= i < scoring.providers@.len() ==> (#[trigger] scoring.providers@[i])
                            < self.registered().len(),
                },
            },
    {
        let invocation = match invocation {
            Ok(invocation) => invocation,
            Err(error) => {
                return Err(error);
            },
        };
        let name = invocation.capability.as_str();
        if !call.authority.external_capabilities.contains(name) {
            return Err(BrokerError::Denied(invocation.capability));
        }
        let at = self.position(name);
        proof {
            crate::keyed::put_replaces_or_appends(
                self.catalog(),
                name@,
                (Seq::empty(), Tree::Null),
                at as int,
            );
        }
        if at >= self.capabilities.len() {
            return Err(BrokerError::CapabilityGap);
        }
        match validate(&self.capabilities[at].argument_schema, &invocation.arguments) {
            Ok(_) => {},
            Err(why) => {
                return Err(BrokerError::InvalidArguments(why));
            },
        }
        let providers = self.providers_of(name);
        assert(numbers(providers@).len() == providers.len());
        if providers.len() == 0 {
            return Err(BrokerError::ProviderUnavailable(invocation.capability));
        }
        assert forall|i: int| 0 <= i < providers@.len() implies (#[trigger] providers@[i])
            < self.registered().len() by {
            assert(numbers(providers@)[i] == providers@[i]);
            serving_lists_the_providers(
                self.registered(),
                name@,
                self.registered().len() as int,
                numbers(providers@)[i],
            );
        }
        Ok(ScoringCall { request: call.request, invocation, providers })
    }

    /// Picks the provider with the least rank, the first registered where several have it.
    ///
    /// `ranks` holds the bits of the ranks of the listed providers, in their order.
    pub fn scored(&self, call: ScoringCall, ranks: &Vec<u64>) -> (result: Result<
        ProviderCall,
        BrokerError,
    >)
        requires
            ranks@.len() == call.providers@.len(),
            forall|i: int|
                0 <= i < call.providers@.len() ==> (#[trigger] call.providers@[i])
                    < self.registered().len(),
        ensures
            if ranks@.len() == 0 {
                result matches Err(BrokerError::ProviderUnavailable(detail)) && detail@
                    == call.invocation.capability@
            } else {
                result matches Ok(chosen) && chosen.request == call.request && chosen.invocation
                    == call.invocation && chosen.provider_id@ == self.registered()[chosen.provider
                    as int].0 && exists|at: int| #[trigger]
                    is_first_least(ranks@, at) && chosen.provider == call.providers@[at]
            },
    {
        if ranks.len() == 0 {
            return Err(BrokerError::ProviderUnavailable(call.invocation.capability));
        }
        let at = first_least(ranks);
        let provider = call.providers[at];
        Ok(
            ProviderCall {
                request: call.request,
                invocation: call.invocation,
                provider,
                provider_id: self.providers[provider].id.clone(),
            },
        )
    }

    /// Records a provider's call and gives its result.
    ///
    /// The result names the capability; the provider is named in the record alone.
    pub fn completed(
        &mut self,
        call: ProviderCall,
        elapsed_nanos: u128,
        outcome: Result<Json, BrokerError>,
    ) -> (result: Result<CapabilityResult, BrokerError>)
        requires
            fits_one_more(
                telemetry_of(old(self).memory(), call.provider_id@),
                elapsed_nanos,
                outcome is Ok,
            ),
        ensures
            final(self).ports() == old(self).ports(),
            final(self).catalog() == old(self).catalog(),
            final(self).registered() == old(self).registered(),
            final(self).memory() == recorded(
                old(self).memory(),
                call.provider_id@,
                elapsed_nanos,
                outcome is Ok,
            ),
            match outcome {
                Ok(data) => result matches Ok(found) && found.capability
                    == call.invocation.capability && found.data == data && found.metadata@
                    == Tree::Object(seq![]),
                Err(error) => result == Err::<CapabilityResult, _>(error),
            },
    {
        proof {
            use_type_invariant(&*self);
        }
        let mut memory = OperationalMemory::default();
        std::mem::swap(&mut memory, &mut self.operational_memory);
        memory.record(call.provider_id.as_str(), elapsed_nanos, outcome.is_ok());
        self.operational_memory = memory;
        match outcome {
            Ok(data) => {
                let nothing: Vec<Member> = Vec::new();
                assert(crate::json::given(nothing@) =~= seq![]);
                let metadata = object(nothing);
                Ok(CapabilityResult { capability: call.invocation.capability, data, metadata })
            },
            Err(error) => Err(error),
        }
    }
}

/// What a worker is told of a finished request.
pub fn worker_result(result: Result<CapabilityResult, BrokerError>) -> (told: Result<
    CapabilityResult,
    CapabilityFailure,
>)
    ensures
        match result {
            Ok(found) => told == Ok::<_, CapabilityFailure>(found),
            Err(error) => told == Err::<CapabilityResult, _>(error.worker_failure()),
        },
{
    match result {
        Ok(found) => Ok(found),
        Err(error) => Err(error.failure()),
    }
}

// ---- laws ---------------------------------------------------------------------------

/// An invocation that reaches the providers is granted, registered, valid against the
/// schema that is registered for it, and served by somebody.
pub proof fn only_checked_invocations_reach_a_provider(
    catalog: Seq<DescriptorModel>,
    providers: Seq<(Seq<char>, Seq<char>)>,
    granted: Seq<Seq<char>>,
    capability: Seq<char>,
    arguments: Tree,
)
    ensures
        invocation_refusal(catalog, providers, granted, capability, arguments) is None <==> {
            &&& granted.contains(capability)
            &&& crate::keyed::find(catalog, capability) matches Some(found)
                && crate::schema::conforms(found.1, arguments)
            &&& exists|p: int| 0 <= p < providers.len() && (#[trigger] providers[p]).1
                == capability
        },
{
    let all = serving(providers, capability, providers.len() as int);
    if let Some(found) = crate::keyed::find(catalog, capability) {
        crate::schema::no_fault_means_conforming("arguments"@, found.1, arguments);
    }
    if all.len() > 0 {
        assert(all.contains(all[0]));
        serving_lists_the_providers(providers, capability, providers.len() as int, all[0]);
        assert(providers[all[0]].1 == capability);
    }
    if exists|p: int| 0 <= p < providers.len() && (#[trigger] providers[p]).1 == capability {
        let p = choose|p: int| 0 <= p < providers.len() && (#[trigger] providers[p]).1
            == capability;
        serving_lists_the_providers(providers, capability, providers.len() as int, p);
    }
}

/// The shortlist holds exactly the registered capabilities that the grant holds, so the
/// translator is never shown one that the worker may not use.
pub proof fn the_shortlist_is_what_is_granted(
    catalog: Seq<DescriptorModel>,
    granted: Seq<Seq<char>>,
    item: DescriptorModel,
)
    ensures
        shortlist(catalog, granted).contains(item) <==> catalog.contains(item) && granted.contains(
            item.0,
        ),
    decreases catalog.len(),
{
    reveal(Seq::filter);
    let listed = shortlist(catalog, granted);
    if catalog.len() > 0 {
        let rest = catalog.drop_last();
        let before = shortlist(rest, granted);
        the_shortlist_is_what_is_granted(rest, granted, item);
        let last = catalog.last();
        if catalog.contains(item) && item != last {
            let i = choose|i: int| 0 <= i < catalog.len() && catalog[i] == item;
            assert(rest[i] == item);
        }
        if rest.contains(item) {
            let i = choose|i: int| 0 <= i < rest.len() && rest[i] == item;
            assert(catalog[i] == item);
        }
        assert(catalog[catalog.len() - 1] == last);
        if granted.contains(last.0) {
            assert(listed =~= before.push(last));
            assert(listed[before.len() as int] == last);
            if before.contains(item) {
                let i = choose|i: int| 0 <= i < before.len() && before[i] == item;
                assert(listed[i] == item);
            }
            if listed.contains(item) && item != last {
                let i = choose|i: int| 0 <= i < listed.len() && listed[i] == item;
                assert(before[i] == item);
            }
        } else {
            assert(listed =~= before);
        }
    }
}

/// Ranks are compared as doubles are in their total order: of two that are not negative the
/// one with the smaller bits is less, of two negative ones the one with the larger bits, and
/// a negative one is less than one that is not.
pub proof fn ranks_follow_the_order_of_doubles(a: u64, b: u64)
    ensures
        a < 0x8000_0000_0000_0000 && b < 0x8000_0000_0000_0000 ==> (rank_key(a) < rank_key(b)
            <==> a < b),
        a >= 0x8000_0000_0000_0000 && b >= 0x8000_0000_0000_0000 ==> (rank_key(a) < rank_key(b)
            <==> b < a),
        a >= 0x8000_0000_0000_0000 && b < 0x8000_0000_0000_0000 ==> rank_key(a) < rank_key(b),
        rank_key(a) == rank_key(b) ==> a == b,
{
}

/// The chosen rank is listed, none is less, and an equal one comes no earlier.
pub proof fn the_choice_is_the_first_of_the_least(ranks: Seq<u64>, at: int, j: int)
    requires
        is_first_least(ranks, at),
        0 <= j < ranks.len(),
    ensures
        0 <= at < ranks.len(),
        !(rank_key(ranks[j]) < rank_key(ranks[at])),
        ranks[j] == ranks[at] ==> at <= j,
{
    if j < at {
        assert(rank_key(ranks[at]) < rank_key(ranks[j]));
    }
    assert(rank_key(ranks[at]) <= rank_key(ranks[j]));
}

/// A capability is shown to the translator with its own name, description and schema.
pub proof fn a_capability_is_shown_whole(item: DescriptorModel)
    ensures
        descriptor_tree(item).get("name"@) == Some(Tree::Text(item.0)),
        descriptor_tree(item).get("description"@) == Some(Tree::Text(item.1.0)),
        descriptor_tree(item).get("argument_schema"@) == Some(item.1.1),
{
    reveal_strlit("argument_schema");
    reveal_strlit("description");
    reveal_strlit("name");
    assert("argument_schema"@.len() == 15);
    assert("description"@.len() == 11);
    assert("name"@.len() == 4);
    let members = descriptor_tree(item)->Object_0;
    crate::json::members_are_read_by_name(members, 0, ""@);
    crate::json::members_are_read_by_name(members, 1, ""@);
    crate::json::members_are_read_by_name(members, 2, ""@);
}

/// The translator is asked, for one JSON object, with its charter and, as JSON, the worker's
/// own words and every capability on the shortlist, in order, and nothing else.
pub proof fn the_translator_is_shown_the_request(
    wanted: Seq<char>,
    offered: Seq<DescriptorModel>,
    name: Seq<char>,
    i: int,
)
    ensures
        ({
            let asked = translation_request(wanted, offered);
            &&& asked.messages.len() == 2
            &&& asked.messages[0] == (ModelRole::System, TRANSLATOR_PROMPT@)
            &&& asked.messages[1].0 is User
            &&& asked.output is JsonObject
            &&& asked.max_output_tokens is None
            &&& asked.temperature.0 == 0
            &&& exists|shown: Tree| #[trigger]
                shown.text() == asked.messages[1].1 && shown.get("request"@) == Some(
                    Tree::Text(wanted),
                ) && (shown.get("capabilities"@) matches Some(Tree::Array(items)) && items.len()
                    == offered.len() && (0 <= i < offered.len() ==> items[i].get("name"@) == Some(
                    Tree::Text(offered[i].0),
                ) && items[i].get("description"@) == Some(Tree::Text(offered[i].1.0))
                    && items[i].get("argument_schema"@) == Some(offered[i].1.1))) && (shown.get(
                    name,
                ) is Some ==> name == "request"@ || name == "capabilities"@)
        }),
{
    reveal_strlit("capabilities");
    reveal_strlit("request");
    assert("capabilities"@.len() == 12 && "request"@.len() == 7);
    let shown = translation_prompt(wanted, offered);
    let members = shown->Object_0;
    crate::json::members_are_read_by_name(members, 0, name);
    crate::json::members_are_read_by_name(members, 1, name);
    if 0 <= i < offered.len() {
        a_capability_is_shown_whole(offered[i]);
    }
    assert(translation_request(wanted, offered).messages[1].1 == shown.text());
}

/// A provider that was never recorded has no calls, no failures and no latency; and a call
/// fits exactly if none of its counters would pass its limit.
pub proof fn counters_start_at_nothing_and_fill_up(
    entries: Seq<(Seq<char>, ProviderTelemetry)>,
    provider: Seq<char>,
    elapsed_nanos: u128,
    ok: bool,
)
    ensures
        (forall|i: int| 0 <= i < entries.len() ==> (#[trigger] entries[i]).0 != provider)
            ==> telemetry_of(entries, provider).calls == 0 && telemetry_of(
            entries,
            provider,
        ).failures == 0 && telemetry_of(entries, provider).total_latency_ms == 0,
        ({
            let known = telemetry_of(entries, provider);
            fits_one_more(known, elapsed_nanos, ok) <==> known.calls + 1 <= u64::MAX && (!ok
                ==> known.failures + 1 <= u64::MAX) && known.total_latency_ms + elapsed_nanos
                / 1_000_000 <= u128::MAX
        }),
{
    crate::keyed::find_finds_entries(entries, provider);
}

/// Providers are listed in the order of their registration: one that is registered later
/// comes last where it serves the capability, and is not listed where it does not.
pub proof fn providers_are_listed_in_order(
    providers: Seq<(Seq<char>, Seq<char>)>,
    next: (Seq<char>, Seq<char>),
    capability: Seq<char>,
)
    ensures
        ({
            let before = serving(providers, capability, providers.len() as int);
            let longer = providers.push(next);
            let after = serving(longer, capability, longer.len() as int);
            after == (if next.1 == capability {
                before.push(providers.len() as int)
            } else {
                before
            })
        }),
{
    earlier_providers_stay(providers, next, capability, providers.len() as int);
}

proof fn earlier_providers_stay(
    providers: Seq<(Seq<char>, Seq<char>)>,
    next: (Seq<char>, Seq<char>),
    capability: Seq<char>,
    n: int,
)
    requires
        0 <= n <= providers.len(),
    ensures
        serving(providers.push(next), capability, n) == serving(providers, capability, n),
    decreases n,
{
    if n > 0 {
        earlier_providers_stay(providers, next, capability, n - 1);
        assert(providers.push(next)[n - 1] == providers[n - 1]);
    }
}

/// The shortlist keeps the order of the catalog: a further capability comes last where it is
/// granted, and is left out where it is not.
pub proof fn the_shortlist_keeps_the_order(
    catalog: Seq<DescriptorModel>,
    next: DescriptorModel,
    granted: Seq<Seq<char>>,
)
    ensures
        shortlist(catalog.push(next), granted) == (if granted.contains(next.0) {
            shortlist(catalog, granted).push(next)
        } else {
            shortlist(catalog, granted)
        }),
        shortlist(Seq::empty(), granted).len() == 0,
{
    reveal(Seq::filter);
    assert(catalog.push(next).drop_last() =~= catalog);
    assert(catalog.push(next).last() == next);
}

/// An invocation is refused for the first of these: the capability is not granted, and is
/// named; it is not registered; its arguments do not satisfy its schema, and the fault is
/// told; nobody serves it, and it is named. Each refusal is stated by the error of its kind.
pub proof fn a_refusal_has_its_reason(
    catalog: Seq<DescriptorModel>,
    providers: Seq<(Seq<char>, Seq<char>)>,
    granted: Seq<Seq<char>>,
    capability: Seq<char>,
    arguments: Tree,
    error: BrokerError,
)
    ensures
        ({
            let refusal = invocation_refusal(catalog, providers, granted, capability, arguments);
            let stated = refusal matches Some(why) && states_refusal(error, why);
            let found = crate::keyed::find(catalog, capability);
            let fits = found matches Some(item) && crate::schema::conforms(item.1, arguments);
            let served = exists|p: int|
                0 <= p < providers.len() && (#[trigger] providers[p]).1 == capability;
            &&& !granted.contains(capability) ==> (stated <==> (error matches BrokerError::Denied(
                detail,
            ) && detail@ == capability))
            &&& granted.contains(capability) && found is None ==> (stated
                <==> error is CapabilityGap)
            &&& granted.contains(capability) && found is Some && !fits ==> (stated <==> (
            error matches BrokerError::InvalidArguments(detail) && (found matches Some(item)
                && crate::schema::fault("arguments"@, item.1, arguments) == Some(detail@))))
            &&& granted.contains(capability) && fits && !served ==> (stated <==> (error matches
                BrokerError::ProviderUnavailable(detail) && detail@ == capability))
            &&& granted.contains(capability) && fits && served ==> refusal is None
        }),
{
    only_checked_invocations_reach_a_provider(catalog, providers, granted, capability, arguments);
    if let Some(item) = crate::keyed::find(catalog, capability) {
        crate::schema::no_fault_means_conforming("arguments"@, item.1, arguments);
    }
}

/// A request's authority is resolved for the ticket and the worker that it names.
pub proof fn authority_is_resolved_for_the_request<T, A>(
    broker: CapabilityBroker<T, A>,
    request: CapabilityRequest,
    call: AuthorityCall,
)
    requires
        call_ensures(CapabilityBroker::<T, A>::execute, (&broker, request), call),
    ensures
        call.ticket_id == request.ticket_id,
        call.worker_id == request.worker_id,
        call.request == request,
{
}

/// The translator is offered exactly the registered capabilities that the resolved authority
/// grants, for the worker's own request; where there is none the request is a gap, and a
/// failed resolution is passed on.
pub proof fn the_translator_is_offered_what_is_granted<T, A>(
    broker: CapabilityBroker<T, A>,
    call: AuthorityCall,
    authority: Result<AuthorityEnvelope, BrokerError>,
    result: Result<TranslationCall, BrokerError>,
    item: DescriptorModel,
)
    requires
        call_ensures(CapabilityBroker::<T, A>::authorized, (&broker, call, authority), result),
    ensures
        authority matches Err(error) ==> result == Err::<TranslationCall, _>(error),
        authority matches Ok(grant) ==> {
            &&& result matches Ok(next) ==> next.request == call.request && next.authority == grant
                && (catalog_model(next.candidates@).contains(item) <==> broker.catalog().contains(
                item,
            ) && grant@.external.contains(item.0))
            &&& broker.catalog().contains(item) && grant@.external.contains(item.0) ==> result is Ok
            &&& result matches Err(error) ==> error is CapabilityGap
        },
{
    if let Ok(grant) = authority {
        the_shortlist_is_what_is_granted(broker.catalog(), grant@.external, item);
    }
}

/// The chosen provider is one of those listed, its rank is the least, and of several with the
/// least rank it is the first; it is given the worker's request and the checked invocation.
pub proof fn the_least_ranked_provider_runs<T, A>(
    broker: CapabilityBroker<T, A>,
    call: ScoringCall,
    ranks: Vec<u64>,
    result: Result<ProviderCall, BrokerError>,
)
    requires
        ranks@.len() == call.providers@.len(),
        call_ensures(CapabilityBroker::<T, A>::scored, (&broker, call, &ranks), result),
    ensures
        ranks@.len() > 0 ==> (result matches Ok(chosen) && chosen.request == call.request
            && chosen.invocation == call.invocation && chosen.provider_id@
            == broker.registered()[chosen.provider as int].0 && exists|at: int|
            0 <= at < ranks@.len() && chosen.provider == #[trigger] call.providers@[at] && forall|
                j: int,
            |
                0 <= j < ranks@.len() ==> rank_key(ranks@[at]) <= rank_key(#[trigger] ranks@[j])
                    && (j < at ==> rank_key(ranks@[at]) < rank_key(ranks@[j]))),
        ranks@.len() == 0 ==> (result matches Err(BrokerError::ProviderUnavailable(detail))
            && detail@ == call.invocation.capability@),
{
    if ranks@.len() > 0 {
        let chosen = result->Ok_0;
        let at = choose|at: int| #[trigger]
            is_first_least(ranks@, at) && chosen.provider == call.providers@[at];
        assert(chosen.provider == call.providers@[at]);
    }
}

/// What a worker is told of a request is the result itself, or the failure of its kind.
pub proof fn a_worker_is_told_its_result(
    result: Result<CapabilityResult, BrokerError>,
    told: Result<CapabilityResult, CapabilityFailure>,
)
    requires
        call_ensures(worker_result, (result,), told),
    ensures
        result matches Ok(found) ==> told == Ok::<_, CapabilityFailure>(found),
        result matches Err(error) ==> (told matches Err(failure) && (failure is Denied
            <==> error is Denied) && (failure is Gap <==> error is CapabilityGap) && (
        failure is RequestNotUnderstood <==> error is Translation) && (failure is InvalidArguments
            <==> error is InvalidArguments)),
{
}

/// A translation is the one that was read; a failed call is told by its message, and an
/// unreadable one by the reason.
pub proof fn a_translation_is_taken_as_read<M>(
    translator: SlmTranslator<M>,
    reply: ModelReply<CapabilityInvocation>,
    result: Result<CapabilityInvocation, BrokerError>,
)
    requires
        call_ensures(SlmTranslator::<M>::translated, (&translator, reply), result),
    ensures
        reply matches ModelReply::Read(invocation) ==> result == Ok::<_, BrokerError>(invocation),
        reply matches ModelReply::Unreadable(why) ==> (result matches Err(
            BrokerError::Translation(detail),
        ) && detail@ == why@),
        reply matches ModelReply::Failed(error) ==> (result matches Err(
            BrokerError::Translation(detail),
        ) && detail@ == error.text()),
{
}

} // verus!
