//! The event-frame parser: the committed block of a frame and its classified state changes.
use vstd::prelude::*;
use crate::addressing::{AddressRules, AddressSpace};
use crate::errors::SubscriberError;
use crate::events::{ClassifiedChange, Event, EventAttribute, StateChange};
use crate::models::{Block, OperationType};
use crate::proto::{
    AgentContainer, CertificateContainer, OrganizationContainer, RequestContainer,
    StandardContainer,
};
use crate::transformer::{Container, FromStateAtBlock};
use crate::text::{parse_i64, spec_parse_i64, str_eq};

verus! {

pub open spec fn is_commit(e: Event) -> bool {
    e.event_type@ == "sawtooth/block-commit"@
}

pub open spec fn is_state_delta(e: Event) -> bool {
    e.event_type@ == "sawtooth/state-delta"@
}

/// Whether a frame holds a commit or a state-delta event; a frame without
/// either is a keep-alive.
pub open spec fn has_block_events(events: Seq<Event>) -> bool {
    exists|i: int| 0 <= i < events.len() && (is_commit(events[i]) || is_state_delta(events[i]))
}

/// The value of the first attribute named `key`.
pub open spec fn first_value(attrs: Seq<EventAttribute>, key: Seq<char>) -> Option<String>
    decreases attrs.len(),
{
    if attrs.len() == 0 {
        None
    } else if attrs[0].key@ == key {
        Some(attrs[0].value)
    } else {
        first_value(attrs.drop_first(), key)
    }
}

/// The block that a commit event announces, if its `block_num` is a base-10 `i64`
/// and it names a `block_id`.
pub open spec fn spec_commit_block(e: Event) -> Option<Block> {
    match (first_value(e.attributes@, "block_num"@), first_value(e.attributes@, "block_id"@)) {
        (Some(num), Some(id)) => match spec_parse_i64(num@) {
            Some(n) => Some(Block { block_num: n, block_id: id }),
            None => None,
        },
        _ => None,
    }
}

/// The last commit event of a frame, in delivery order.
pub open spec fn last_commit(events: Seq<Event>) -> Option<Event>
    decreases events.len(),
{
    if events.len() == 0 {
        None
    } else if is_commit(events.last()) {
        Some(events.last())
    } else {
        last_commit(events.drop_last())
    }
}

/// The block of a frame: the one that its last commit event announces.
pub open spec fn spec_frame_block(events: Seq<Event>) -> Option<Block> {
    match last_commit(events) {
        Some(e) => spec_commit_block(e),
        None => None,
    }
}

/// The changes whose address starts with `ns`, in order.
pub open spec fn spec_in_namespace(changes: Seq<StateChange>, ns: Seq<char>) -> Seq<StateChange>
    decreases changes.len(),
{
    if changes.len() == 0 {
        Seq::empty()
    } else {
        let rest = spec_in_namespace(changes.drop_last(), ns);
        if ns.is_prefix_of(changes.last().address@) {
            rest.push(changes.last())
        } else {
            rest
        }
    }
}

/// The in-namespace changes of all state-delta events of a frame, in order.
pub open spec fn spec_delta_changes(events: Seq<Event>, ns: Seq<char>) -> Seq<StateChange>
    decreases events.len(),
{
    if events.len() == 0 {
        Seq::empty()
    } else {
        let rest = spec_delta_changes(events.drop_last(), ns);
        if is_state_delta(events.last()) {
            rest + spec_in_namespace(events.last().state_changes@, ns)
        } else {
            rest
        }
    }
}

/// The changes that `refs` point to.
pub open spec fn derefs(refs: Seq<&StateChange>) -> Seq<StateChange> {
    refs.map_values(|c: &StateChange| *c)
}

/// Whether every change has an address of a known family.
pub open spec fn all_recognized(rules: AddressRules, changes: Seq<StateChange>) -> bool {
    forall|i: int|
        0 <= i < changes.len() ==> rules.spec_address_type(#[trigger] changes[i].address@)
            != AddressSpace::AnotherFamily
}

/// Whether `out` is `changes`, each with the family of its address.
pub open spec fn is_classified(
    rules: AddressRules,
    changes: Seq<StateChange>,
    out: Seq<ClassifiedChange>,
) -> bool {
    &&& out.len() == changes.len()
    &&& forall|i: int|
        0 <= i < out.len() ==> {
            &&& (#[trigger] out[i]).kind == rules.spec_address_type(changes[i].address@)
            &&& out[i].address == changes[i].address
            &&& out[i].value@ == changes[i].value@
        }
}

/// Whether `r` is what parsing the frame `events` under `rules` gives.
pub open spec fn parsed_frame(
    rules: AddressRules,
    events: Seq<Event>,
    r: Result<(Block, Vec<ClassifiedChange>), SubscriberError>,
) -> bool {
    if !has_block_events(events) {
        r matches Ok((b, changes)) && b.block_num == 0 && b.block_id@.len() == 0
            && changes@.len() == 0
    } else {
        let changes = spec_delta_changes(events, rules.namespace@);
        match spec_frame_block(events) {
            None => r matches Err(SubscriberError::EventParseError(_)),
            Some(block) => if all_recognized(rules, changes) {
                r matches Ok((b, out)) && b == block && is_classified(rules, changes, out@)
            } else {
                r matches Err(SubscriberError::EventParseError(_))
            },
        }
    }
}

/// Whether `r` is what handling the frame `events` under `rules` gives: `None`
/// for a frame that stores nothing, else its block and classified changes.
pub open spec fn handled_frame(
    rules: AddressRules,
    events: Seq<Event>,
    r: Result<Option<(Block, Vec<ClassifiedChange>)>, SubscriberError>,
) -> bool {
    if !has_block_events(events) {
        r matches Ok(None)
    } else {
        match spec_frame_block(events) {
            None => r matches Err(SubscriberError::EventParseError(_)),
            Some(block) => {
                let changes = spec_delta_changes(events, rules.namespace@);
                if !all_recognized(rules, changes) {
                    r matches Err(SubscriberError::EventParseError(_))
                } else if block.block_id@.len() == 0 && changes.len() == 0 {
                    r matches Ok(None)
                } else {
                    r matches Ok(Some((b, out))) && b == block && is_classified(rules, changes, out@)
                }
            },
        }
    }
}

/// The decoded payload of a state change, one container per entity family.
#[derive(Debug, Clone, PartialEq, Eq)]
pub enum StatePayload {
    Organization(OrganizationContainer),
    Agent(AgentContainer),
    Certificate(CertificateContainer),
    Request(RequestContainer),
    Standard(StandardContainer),
}

/// The family that a payload belongs to.
pub open spec fn payload_kind(p: StatePayload) -> AddressSpace {
    match p {
        StatePayload::Organization(_) => AddressSpace::Organization,
        StatePayload::Agent(_) => AddressSpace::Agent,
        StatePayload::Certificate(_) => AddressSpace::Certificate,
        StatePayload::Request(_) => AddressSpace::Request,
        StatePayload::Standard(_) => AddressSpace::Standard,
    }
}

/// Whether `out` maps each message of `values`, in order, to its records at block `n`.
pub open spec fn models_at_block<S, D: FromStateAtBlock<S>>(values: Seq<S>, n: i64, out: Seq<D>) -> bool {
    &&& out.len() == values.len()
    &&& forall|i: int| 0 <= i < out.len() ==> D::is_at_block(n, values[i], #[trigger] out[i])
}

/// Whether `op` is the write that stores `payload` at block `n`.
pub open spec fn is_operation_for(payload: StatePayload, n: i64, op: OperationType) -> bool {
    match (payload, op) {
        (StatePayload::Organization(c), OperationType::CreateOrganization(v)) => models_at_block(
            c.entries@,
            n,
            v@,
        ),
        (StatePayload::Agent(c), OperationType::CreateAgent(v)) => models_at_block(c.entries@, n, v@),
        (StatePayload::Certificate(c), OperationType::CreateCertificate(v)) => models_at_block(
            c.entries@,
            n,
            v@,
        ),
        (StatePayload::Request(c), OperationType::CreateRequest(v)) => models_at_block(
            c.entries@,
            n,
            v@,
        ),
        (StatePayload::Standard(c), OperationType::CreateStandard(v)) => models_at_block(
            c.entries@,
            n,
            v@,
        ),
        _ => false,
    }
}

proof fn lemma_last_commit_at(events: Seq<Event>, k: int)
    requires
        0 <= k < events.len(),
        is_commit(events[k]),
        forall|j: int| k < j < events.len() ==> !is_commit(#[trigger] events[j]),
    ensures
        last_commit(events) == Some(events[k]),
    decreases events.len(),
{
    if k < events.len() - 1 {
        let prefix = events.drop_last();
        assert forall|j: int| k < j < prefix.len() implies !is_commit(#[trigger] prefix[j]) by {
            assert(prefix[j] == events[j]);
        }
        lemma_last_commit_at(prefix, k);
    }
}

proof fn lemma_in_namespace_members(changes: Seq<StateChange>, ns: Seq<char>)
    ensures
        forall|i: int|
            0 <= i < spec_in_namespace(changes, ns).len() ==> ns.is_prefix_of(
                (#[trigger] spec_in_namespace(changes, ns)[i]).address@,
            ),
    decreases changes.len(),
{
    if changes.len() > 0 {
        let rest = spec_in_namespace(changes.drop_last(), ns);
        lemma_in_namespace_members(changes.drop_last(), ns);
        if ns.is_prefix_of(changes.last().address@) {
            assert forall|i: int| 0 <= i < rest.push(changes.last()).len() implies ns.is_prefix_of(
                (#[trigger] rest.push(changes.last())[i]).address@,
            ) by {
                if i < rest.len() {
                    assert(rest.push(changes.last())[i] == rest[i]);
                }
            }
        }
    }
}

proof fn lemma_delta_members(events: Seq<Event>, ns: Seq<char>)
    ensures
        forall|i: int|
            0 <= i < spec_delta_changes(events, ns).len() ==> ns.is_prefix_of(
                (#[trigger] spec_delta_changes(events, ns)[i]).address@,
            ),
    decreases events.len(),
{
    if events.len() > 0 {
        let rest = spec_delta_changes(events.drop_last(), ns);
        let own = spec_in_namespace(events.last().state_changes@, ns);
        lemma_delta_members(events.drop_last(), ns);
        lemma_in_namespace_members(events.last().state_changes@, ns);
        if is_state_delta(events.last()) {
            assert forall|i: int| 0 <= i < (rest + own).len() implies ns.is_prefix_of(
                (#[trigger] (rest + own)[i]).address@,
            ) by {
                if i >= rest.len() {
                    assert((rest + own)[i] == own[i - rest.len()]);
                }
            }
        }
    }
}

proof fn lemma_in_namespace_contains(changes: Seq<StateChange>, ns: Seq<char>, j: int)
    requires
        0 <= j < changes.len(),
        ns.is_prefix_of(changes[j].address@),
    ensures
        spec_in_namespace(changes, ns).contains(changes[j]),
    decreases changes.len(),
{
    let rest = spec_in_namespace(changes.drop_last(), ns);
    if j == changes.len() - 1 {
        assert(rest.push(changes.last())[rest.len() as int] == changes[j]);
    } else {
        lemma_in_namespace_contains(changes.drop_last(), ns, j);
        let i = choose|i: int| 0 <= i < rest.len() && rest[i] == changes[j];
        if ns.is_prefix_of(changes.last().address@) {
            assert(rest.push(changes.last())[i] == changes[j]);
        }
    }
}

proof fn lemma_delta_contains(events: Seq<Event>, ns: Seq<char>, k: int, j: int)
    requires
        0 <= k < events.len(),
        is_state_delta(events[k]),
        0 <= j < events[k].state_changes@.len(),
        ns.is_prefix_of(events[k].state_changes@[j].address@),
    ensures
        spec_delta_changes(events, ns).contains(events[k].state_changes@[j]),
    decreases events.len(),
{
    let c = events[k].state_changes@[j];
    let rest = spec_delta_changes(events.drop_last(), ns);
    if k == events.len() - 1 {
        let own = spec_in_namespace(events.last().state_changes@, ns);
        lemma_in_namespace_contains(events.last().state_changes@, ns, j);
        let i = choose|i: int| 0 <= i < own.len() && own[i] == c;
        assert((rest + own)[rest.len() + i] == c);
    } else {
        assert(events.drop_last()[k] == events[k]);
        lemma_delta_contains(events.drop_last(), ns, k, j);
        let i = choose|i: int| 0 <= i < rest.len() && rest[i] == c;
        if is_state_delta(events.last()) {
            let own = spec_in_namespace(events.last().state_changes@, ns);
            assert((rest + own)[i] == c);
        }
    }
}

/// A frame with neither a commit nor a state-delta event is a keep-alive: handling it
/// succeeds and stores nothing.
pub proof fn lemma_keep_alive_stores_nothing(
    rules: AddressRules,
    events: Seq<Event>,
    r: Result<Option<(Block, Vec<ClassifiedChange>)>, SubscriberError>,
)
    requires
        forall|i: int| 0 <= i < events.len() ==> !is_commit(#[trigger] events[i]) && !is_state_delta(events[i]),
        handled_frame(rules, events, r),
    ensures
        r matches Ok(None),
{
}

/// Of several commit events in a frame, the last one in delivery order gives the block.
pub proof fn lemma_last_commit_gives_block(
    rules: AddressRules,
    events: Seq<Event>,
    k: int,
    r: Result<Option<(Block, Vec<ClassifiedChange>)>, SubscriberError>,
)
    requires
        0 <= k < events.len(),
        is_commit(events[k]),
        forall|j: int| k < j < events.len() ==> !is_commit(#[trigger] events[j]),
        handled_frame(rules, events, r),
    ensures
        r matches Ok(Some((b, _))) ==> spec_commit_block(events[k]) == Some(b),
        spec_commit_block(events[k]) is None ==> r matches Err(SubscriberError::EventParseError(_)),
{
    lemma_last_commit_at(events, k);
}

/// A last commit event whose `block_num` is not a base-10 `i64` makes the frame a
/// parse error.
pub proof fn lemma_non_numeric_block_num(
    rules: AddressRules,
    events: Seq<Event>,
    k: int,
    r: Result<Option<(Block, Vec<ClassifiedChange>)>, SubscriberError>,
)
    requires
        0 <= k < events.len(),
        is_commit(events[k]),
        forall|j: int| k < j < events.len() ==> !is_commit(#[trigger] events[j]),
        first_value(events[k].attributes@, "block_num"@) matches Some(num) && spec_parse_i64(
            num@,
        ) is None,
        handled_frame(rules, events, r),
    ensures
        r matches Err(SubscriberError::EventParseError(_)),
{
    lemma_last_commit_at(events, k);
}

/// Changes outside the namespace are dropped before classification: every change
/// that a handled frame gives lies in the namespace.
pub proof fn lemma_foreign_changes_excluded(
    rules: AddressRules,
    events: Seq<Event>,
    r: Result<Option<(Block, Vec<ClassifiedChange>)>, SubscriberError>,
)
    requires
        handled_frame(rules, events, r),
    ensures
        r matches Ok(Some((_, out))) ==> forall|i: int|
            0 <= i < out@.len() ==> rules.namespace@.is_prefix_of((#[trigger] out@[i]).address@),
{
    lemma_delta_members(events, rules.namespace@);
    if let Ok(Some((_, out))) = r {
        let changes = spec_delta_changes(events, rules.namespace@);
        assert forall|i: int| 0 <= i < out@.len() implies rules.namespace@.is_prefix_of(
            (#[trigger] out@[i]).address@,
        ) by {
            assert(out@[i].address == changes[i].address);
        }
    }
}

/// A change in the namespace whose address names no known family makes the frame
/// a parse error.
pub proof fn lemma_unrecognized_address(
    rules: AddressRules,
    events: Seq<Event>,
    k: int,
    j: int,
    r: Result<Option<(Block, Vec<ClassifiedChange>)>, SubscriberError>,
)
    requires
        0 <= k < events.len(),
        is_state_delta(events[k]),
        0 <= j < events[k].state_changes@.len(),
        rules.namespace@.is_prefix_of(events[k].state_changes@[j].address@),
        rules.spec_address_type(events[k].state_changes@[j].address@) == AddressSpace::AnotherFamily,
        handled_frame(rules, events, r),
    ensures
        r matches Err(SubscriberError::EventParseError(_)),
{
    let changes = spec_delta_changes(events, rules.namespace@);
    lemma_delta_contains(events, rules.namespace@, k, j);
    let i = choose|i: int| 0 <= i < changes.len() && changes[i] == events[k].state_changes@[j];
    assert(rules.spec_address_type(changes[i].address@) == AddressSpace::AnotherFamily);
    assert(!all_recognized(rules, changes));
}

fn find_attribute(attrs: &Vec<EventAttribute>, key: &str) -> (r: Option<String>)
    ensures
        r == first_value(attrs@, key@),
{
    let mut j: usize = 0;
    proof {
        assert(attrs@.subrange(0, attrs@.len() as int) =~= attrs@);
    }
    while j < attrs.len()
        invariant
            j <= attrs@.len(),
            first_value(attrs@, key@) == first_value(attrs@.subrange(j as int, attrs@.len() as int), key@),
        decreases attrs@.len() - j,
    {
        let ghost rest = attrs@.subrange(j as int, attrs@.len() as int);
        if str_eq(attrs[j].key.as_str(), key) {
            return Some(attrs[j].value.clone());
        }
        proof {
            assert(rest.drop_first() =~= attrs@.subrange(j + 1, attrs@.len() as int));
        }
        j = j + 1;
    }
    None
}

fn commit_block(e: &Event) -> (r: Result<Block, SubscriberError>)
    ensures
        match spec_commit_block(*e) {
            Some(b) => r == Ok::<Block, SubscriberError>(b),
            None => r matches Err(SubscriberError::EventParseError(_)),
        },
{
    let num = find_attribute(&e.attributes, "block_num");
    let id = find_attribute(&e.attributes, "block_id");
    match (num, id) {
        (Some(num), Some(id)) => match parse_i64(num.as_str()) {
            Some(n) => Ok(Block { block_num: n, block_id: id }),
            None => Err(
                SubscriberError::EventParseError("block_num is not a base-10 integer".to_string()),
            ),
        },
        _ => Err(
            SubscriberError::EventParseError(
                "block event lacks block_num or block_id".to_string(),
            ),
        ),
    }
}

/// Given the rules of the application's addresses, turns the events of a frame into
/// the committed block and the classified changes that storage applies as one unit.
pub struct EventHandler {
    pub rules: AddressRules,
}

impl EventHandler {
    pub open spec fn wf(&self) -> bool {
        self.rules.wf()
    }

    pub fn new(rules: AddressRules) -> (r: EventHandler)
        ensures
            r.rules == rules,
    {
        EventHandler { rules }
    }

    /// Parses a frame. `None` stands for a keep-alive frame, which nothing is
    /// stored for; otherwise the block and its changes, in order.
    pub fn handle_events(&self, events: &Vec<Event>) -> (r: Result<
        Option<(Block, Vec<ClassifiedChange>)>,
        SubscriberError,
    >)
        requires
            self.wf(),
        ensures
            handled_frame(self.rules, events@, r),
    {
        let (block, changes) = self.parse_events(events)?;
        if block.block_id.as_str().is_empty() && changes.len() == 0 {
            return Ok(None);
        }
        Ok(Some((block, changes)))
    }

    /// The committed block and the classified in-namespace changes of a frame.
    pub fn parse_events(&self, events: &Vec<Event>) -> (r: Result<
        (Block, Vec<ClassifiedChange>),
        SubscriberError,
    >)
        requires
            self.wf(),
        ensures
            parsed_frame(self.rules, events@, r),
    {
        if !Self::has_block_events(events) {
            return Ok((Block { block_num: 0, block_id: String::new() }, Vec::new()));
        }
        let block = self.parse_block(events)?;
        let state_changes = self.parse_state_delta_events(events);
        let mut operations: Vec<ClassifiedChange> = Vec::new();
        let mut i: usize = 0;
        while i < state_changes.len()
            invariant
                self.wf(),
                has_block_events(events@),
                spec_frame_block(events@) == Some(block),
                i <= state_changes@.len(),
                derefs(state_changes@) == spec_delta_changes(events@, self.rules.namespace@),
                all_recognized(self.rules, derefs(state_changes@).subrange(0, i as int)),
                is_classified(self.rules, derefs(state_changes@).subrange(0, i as int), operations@),
            decreases state_changes@.len() - i,
        {
            let change: &StateChange = state_changes[i];
            let kind = self.rules.get_address_type(change.address.as_str());
            if kind == AddressSpace::AnotherFamily {
                proof {
                    assert(derefs(state_changes@)[i as int] == change);
                    assert(self.rules.spec_address_type(derefs(state_changes@)[i as int].address@)
                        == AddressSpace::AnotherFamily);
                    assert(!all_recognized(self.rules, derefs(state_changes@)));
                }
                return Err(
                    SubscriberError::EventParseError(
                        "address matches no state data type of the namespace".to_string(),
                    ),
                );
            }
            let value = change.value.clone();
            proof {
                assert(value@ =~= change.value@);
            }
            operations.push(ClassifiedChange { kind, address: change.address.clone(), value });
            proof {
                let prev = derefs(state_changes@).subrange(0, i as int);
                let next = derefs(state_changes@).subrange(0, i + 1);
                assert(next =~= prev.push(*change));
                assert forall|k: int| 0 <= k < next.len() implies self.rules.spec_address_type(
                    #[trigger] next[k].address@,
                ) != AddressSpace::AnotherFamily by {
                    if k < prev.len() {
                        assert(next[k] == prev[k]);
                    }
                }
            }
            i = i + 1;
        }
        proof {
            assert(derefs(state_changes@).subrange(0, i as int) =~= derefs(state_changes@));
        }
        Ok((block, operations))
    }

    /// The write that stores the payload of `change` at `block`; an error where the
    /// payload is not of the family that the address of `change` names.
    pub fn parse_operation(
        &self,
        change: &ClassifiedChange,
        payload: &StatePayload,
        block: &Block,
    ) -> (r: Result<OperationType, SubscriberError>)
        ensures
            change.kind == payload_kind(*payload) ==> (r matches Ok(op) && is_operation_for(
                *payload,
                block.block_num,
                op,
            )),
            change.kind != payload_kind(*payload) ==> r matches Err(
                SubscriberError::EventParseError(_),
            ),
    {
        let n = block.block_num;
        match (change.kind, payload) {
            (AddressSpace::Organization, StatePayload::Organization(c)) => Ok(
                OperationType::CreateOrganization(c.to_models(n)),
            ),
            (AddressSpace::Agent, StatePayload::Agent(c)) => Ok(
                OperationType::CreateAgent(c.to_models(n)),
            ),
            (AddressSpace::Certificate, StatePayload::Certificate(c)) => Ok(
                OperationType::CreateCertificate(c.to_models(n)),
            ),
            (AddressSpace::Request, StatePayload::Request(c)) => Ok(
                OperationType::CreateRequest(c.to_models(n)),
            ),
            (AddressSpace::Standard, StatePayload::Standard(c)) => Ok(
                OperationType::CreateStandard(c.to_models(n)),
            ),
            _ => Err(
                SubscriberError::EventParseError(
                    "Address didnt match any existent state data types in the namespace".to_string(),
                ),
            ),
        }
    }

    fn has_block_events(events: &Vec<Event>) -> (r: bool)
        ensures
            r == has_block_events(events@),
    {
        let mut i: usize = 0;
        while i < events.len()
            invariant
                i <= events@.len(),
                forall|j: int|
                    0 <= j < i ==> !is_commit(#[trigger] events@[j]) && !is_state_delta(events@[j]),
            decreases events@.len() - i,
        {
            let t = events[i].event_type.as_str();
            if str_eq(t, "sawtooth/block-commit") || str_eq(t, "sawtooth/state-delta") {
                return true;
            }
            i = i + 1;
        }
        false
    }

    /// The block that the last commit event of the frame announces.
    fn parse_block(&self, events: &Vec<Event>) -> (r: Result<Block, SubscriberError>)
        ensures
            match spec_frame_block(events@) {
                Some(b) => r == Ok::<Block, SubscriberError>(b),
                None => r matches Err(SubscriberError::EventParseError(_)),
            },
    {
        let mut last: Option<usize> = None;
        let mut i: usize = 0;
        while i < events.len()
            invariant
                i <= events@.len(),
                match last {
                    Some(k) => k < i && last_commit(events@.subrange(0, i as int)) == Some(
                        events@[k as int],
                    ),
                    None => last_commit(events@.subrange(0, i as int)) is None,
                },
            decreases events@.len() - i,
        {
            proof {
                assert(events@.subrange(0, i + 1).drop_last() =~= events@.subrange(0, i as int));
            }
            if str_eq(events[i].event_type.as_str(), "sawtooth/block-commit") {
                last = Some(i);
            }
            i = i + 1;
        }
        proof {
            assert(events@.subrange(0, i as int) =~= events@);
        }
        match last {
            Some(k) => commit_block(&events[k]),
            None => Err(SubscriberError::EventParseError("Could not parse block event".to_string())),
        }
    }

    /// The in-namespace state changes of all state-delta events, in order.
    fn parse_state_delta_events<'a>(&self, events: &'a Vec<Event>) -> (r: Vec<&'a StateChange>)
        requires
            self.wf(),
        ensures
            derefs(r@) == spec_delta_changes(events@, self.rules.namespace@),
    {
        let ghost ns = self.rules.namespace@;
        let mut out: Vec<&'a StateChange> = Vec::new();
        let mut i: usize = 0;
        while i < events.len()
            invariant
                self.wf(),
                ns == self.rules.namespace@,
                i <= events@.len(),
                derefs(out@) == spec_delta_changes(events@.subrange(0, i as int), ns),
            decreases events@.len() - i,
        {
            let event = &events[i];
            proof {
                assert(events@.subrange(0, i + 1).drop_last() =~= events@.subrange(0, i as int));
            }
            if str_eq(event.event_type.as_str(), "sawtooth/state-delta") {
                let changes = &event.state_changes;
                let ghost before = derefs(out@);
                let mut j: usize = 0;
                while j < changes.len()
                    invariant
                        self.wf(),
                        ns == self.rules.namespace@,
                        j <= changes@.len(),
                        derefs(out@) == before + spec_in_namespace(changes@.subrange(0, j as int), ns),
                    decreases changes@.len() - j,
                {
                    proof {
                        assert(changes@.subrange(0, j + 1).drop_last() =~= changes@.subrange(
                            0,
                            j as int,
                        ));
                    }
                    let change = &changes[j];
                    proof {
                        assert(changes@.subrange(0, j + 1).last() == *change);
                    }
                    if self.rules.in_namespace(change.address.as_str()) {
                        let ghost old_out = derefs(out@);
                        out.push(change);
                        proof {
                            assert(derefs(out@) =~= old_out.push(*change));
                            assert(derefs(out@) =~= before + spec_in_namespace(
                                changes@.subrange(0, j + 1),
                                ns,
                            ));
                        }
                    }
                    j = j + 1;
                }
                proof {
                    assert(changes@.subrange(0, j as int) =~= changes@);
                }
            }
            i = i + 1;
        }
        proof {
            assert(events@.subrange(0, i as int) =~= events@);
        }
        out
    }
}

} // verus!
