//! The registry of RPC methods and the checks before one is executed.
//!
//! The set of methods is closed. Each method declares the tier that it
//! needs, the kinds of entity that it can act on, and the fields that a
//! client has to fill in. Listing the methods may hide those that the
//! caller's tier does not reach; that is a convenience. The boundary is
//! `authorize_rpc`, which every execution goes through.

use crate::capability::{grants, reaches_tier, Capability, RoleFlags, Tier};
use vstd::prelude::*;

verus! {

/// The kinds of entity that an RPC method can act on.
#[derive(Clone, Copy, Debug, PartialEq, Eq, Structural)]
pub enum TargetType {
    Bot,
    Server,
    Team,
    Pack,
}

/// An RPC method with its parameters.
#[derive(Clone, Debug)]
pub enum RpcMethod {
    /// Approves a bot in the queue.
    BotApprove { bot_id: String },
    /// Denies a bot in the queue.
    BotDeny { bot_id: String },
    /// Resets the votes of one bot.
    BotVoteReset { bot_id: String },
    /// Resets the votes of every bot.
    BotVoteResetAll {  },
    /// Takes the verified status from a bot.
    BotUnverify { bot_id: String },
}

/// An RPC method without its parameters: the key of the registry.
#[derive(Clone, Copy, Debug, PartialEq, Eq, Structural)]
pub enum RpcMethodKind {
    BotApprove,
    BotDeny,
    BotVoteReset,
    BotVoteResetAll,
    BotUnverify,
}

/// The kind of input that a field takes.
#[derive(Clone, Copy, Debug, PartialEq, Eq, Structural)]
pub enum FieldType {
    Text,
    Textarea,
    Number,
    Boolean,
}

/// One field of the form from which a client builds a method call.
pub struct RpcField {
    pub id: String,
    pub label: String,
    pub field_type: FieldType,
    pub placeholder: String,
}

/// What a client is told about one RPC method.
pub struct RpcWebAction {
    pub id: String,
    pub label: String,
    pub description: String,
    pub needs_perms: Tier,
    pub supported_target_types: Vec<TargetType>,
    pub fields: Vec<RpcField>,
}

/// Why an RPC call is not executed.
#[derive(Clone, Copy, Debug, PartialEq, Eq, Structural)]
pub enum RpcError {
    /// The caller lacks the capability to execute RPC methods at all.
    MissingCapability,
    /// The method needs a higher tier than the caller has.
    TierTooLow,
    /// The method cannot act on the given kind of entity.
    UnsupportedTarget,
}

/// What the handler of a method reports.
pub enum RpcOutcome {
    /// The method was applied and has nothing to say.
    NoContent,
    /// The method was applied and hands a payload back.
    Content(String),
    /// The method failed; nothing of it was applied.
    Failure(String),
}

/// What goes back to the client: a status and a body.
pub struct RpcResponse {
    pub status: u16,
    pub body: String,
}

/// Every method of the registry, in the order in which they are listed.
pub open spec fn all_kinds() -> Seq<RpcMethodKind> {
    seq![
        RpcMethodKind::BotApprove,
        RpcMethodKind::BotDeny,
        RpcMethodKind::BotVoteReset,
        RpcMethodKind::BotVoteResetAll,
        RpcMethodKind::BotUnverify,
    ]
}

/// The tier that a method needs.
pub open spec fn method_tier(kind: RpcMethodKind) -> Tier {
    match kind {
        RpcMethodKind::BotApprove => Tier::Staff,
        RpcMethodKind::BotDeny => Tier::Staff,
        RpcMethodKind::BotVoteReset => Tier::Head,
        RpcMethodKind::BotVoteResetAll => Tier::Head,
        RpcMethodKind::BotUnverify => Tier::Head,
    }
}

/// The name of a method, which is its id towards clients.
pub open spec fn method_name(kind: RpcMethodKind) -> Seq<char> {
    match kind {
        RpcMethodKind::BotApprove => "BotApprove"@,
        RpcMethodKind::BotDeny => "BotDeny"@,
        RpcMethodKind::BotVoteReset => "BotVoteReset"@,
        RpcMethodKind::BotVoteResetAll => "BotVoteResetAll"@,
        RpcMethodKind::BotUnverify => "BotUnverify"@,
    }
}

/// The label of a method.
pub open spec fn method_label(kind: RpcMethodKind) -> Seq<char> {
    match kind {
        RpcMethodKind::BotApprove => "Approve Bot"@,
        RpcMethodKind::BotDeny => "Deny Bot"@,
        RpcMethodKind::BotVoteReset => "Reset Bot Votes"@,
        RpcMethodKind::BotVoteResetAll => "Reset All Bot Votes"@,
        RpcMethodKind::BotUnverify => "Unverify Bot"@,
    }
}

/// The description of a method.
pub open spec fn method_description(kind: RpcMethodKind) -> Seq<char> {
    match kind {
        RpcMethodKind::BotApprove => "Approves a bot that waits in the queue"@,
        RpcMethodKind::BotDeny => "Denies a bot that waits in the queue"@,
        RpcMethodKind::BotVoteReset => "Resets the votes of one bot"@,
        RpcMethodKind::BotVoteResetAll => "Resets the votes of every bot"@,
        RpcMethodKind::BotUnverify => "Takes the verified status from a bot"@,
    }
}

/// Whether a method can act on a kind of entity. Every method of the
/// registry acts on bots only.
pub open spec fn method_supports(kind: RpcMethodKind, target: TargetType) -> bool {
    target == TargetType::Bot
}

/// Whether a method takes the id of a bot.
pub open spec fn method_takes_bot(kind: RpcMethodKind) -> bool {
    kind != RpcMethodKind::BotVoteResetAll
}

/// Whether `field` is the field for the id of a bot.
pub open spec fn is_bot_field(field: RpcField) -> bool {
    &&& field.id@ == "bot_id"@
    &&& field.label@ == "Bot ID"@
    &&& field.field_type == FieldType::Text
    &&& field.placeholder@ == "The ID of the bot"@
}

/// Whether `action` is what the registry says about `kind`.
pub open spec fn describes(action: RpcWebAction, kind: RpcMethodKind) -> bool {
    &&& action.id@ == method_name(kind)
    &&& action.label@ == method_label(kind)
    &&& action.description@ == method_description(kind)
    &&& action.needs_perms == method_tier(kind)
    &&& action.supported_target_types@ == seq![TargetType::Bot]
    &&& if method_takes_bot(kind) {
        action.fields@.len() == 1 && is_bot_field(action.fields@[0])
    } else {
        action.fields@.len() == 0
    }
}

/// Which methods a listing for `flags` shows: all of them, or with
/// `filtered` those whose tier the flags reach.
pub open spec fn listed(flags: RoleFlags, filtered: bool) -> spec_fn(RpcMethodKind) -> bool {
    |kind: RpcMethodKind| !filtered || reaches_tier(flags, method_tier(kind))
}

/// Why a call is not executed, if it is not: the first of capability, tier
/// and target that fails.
pub open spec fn rpc_refusal(flags: RoleFlags, target: TargetType, kind: RpcMethodKind) -> Option<
    RpcError,
> {
    if !grants(flags, Capability::Rpc) {
        Some(RpcError::MissingCapability)
    } else if !reaches_tier(flags, method_tier(kind)) {
        Some(RpcError::TierTooLow)
    } else if !method_supports(kind, target) {
        Some(RpcError::UnsupportedTarget)
    } else {
        None
    }
}

impl RpcMethod {
    /// The registry key of this method.
    pub open spec fn spec_kind(&self) -> RpcMethodKind {
        match self {
            RpcMethod::BotApprove { .. } => RpcMethodKind::BotApprove,
            RpcMethod::BotDeny { .. } => RpcMethodKind::BotDeny,
            RpcMethod::BotVoteReset { .. } => RpcMethodKind::BotVoteReset,
            RpcMethod::BotVoteResetAll { .. } => RpcMethodKind::BotVoteResetAll,
            RpcMethod::BotUnverify { .. } => RpcMethodKind::BotUnverify,
        }
    }

    /// The registry key of this method.
    #[verifier::when_used_as_spec(spec_kind)]
    pub fn kind(&self) -> (kind: RpcMethodKind)
        ensures
            kind == self.spec_kind(),
    {
        match self {
            RpcMethod::BotApprove { .. } => RpcMethodKind::BotApprove,
            RpcMethod::BotDeny { .. } => RpcMethodKind::BotDeny,
            RpcMethod::BotVoteReset { .. } => RpcMethodKind::BotVoteReset,
            RpcMethod::BotVoteResetAll { .. } => RpcMethodKind::BotVoteResetAll,
            RpcMethod::BotUnverify { .. } => RpcMethodKind::BotUnverify,
        }
    }

    /// The tier that this method needs.
    pub fn needs_perms(&self) -> (tier: Tier)
        ensures
            tier == method_tier(self.kind()),
    {
        self.kind().needs_perms()
    }
}

impl RpcMethodKind {
    /// Every method of the registry, in the order in which they are listed.
    pub fn all() -> (kinds: Vec<RpcMethodKind>)
        ensures
            kinds@ == all_kinds(),
    {
        let mut kinds: Vec<RpcMethodKind> = Vec::new();
        kinds.push(RpcMethodKind::BotApprove);
        kinds.push(RpcMethodKind::BotDeny);
        kinds.push(RpcMethodKind::BotVoteReset);
        kinds.push(RpcMethodKind::BotVoteResetAll);
        kinds.push(RpcMethodKind::BotUnverify);
        assert(kinds@ =~= all_kinds());
        kinds
    }

    /// The tier that this method needs.
    pub fn needs_perms(&self) -> (tier: Tier)
        ensures
            tier == method_tier(*self),
    {
        match self {
            RpcMethodKind::BotApprove => Tier::Staff,
            RpcMethodKind::BotDeny => Tier::Staff,
            RpcMethodKind::BotVoteReset => Tier::Head,
            RpcMethodKind::BotVoteResetAll => Tier::Head,
            RpcMethodKind::BotUnverify => Tier::Head,
        }
    }

    /// The name of this method.
    pub fn name(&self) -> (name: String)
        ensures
            name@ == method_name(*self),
    {
        match self {
            RpcMethodKind::BotApprove => "BotApprove".to_owned(),
            RpcMethodKind::BotDeny => "BotDeny".to_owned(),
            RpcMethodKind::BotVoteReset => "BotVoteReset".to_owned(),
            RpcMethodKind::BotVoteResetAll => "BotVoteResetAll".to_owned(),
            RpcMethodKind::BotUnverify => "BotUnverify".to_owned(),
        }
    }

    /// The label of this method.
    pub fn label(&self) -> (label: String)
        ensures
            label@ == method_label(*self),
    {
        match self {
            RpcMethodKind::BotApprove => "Approve Bot".to_owned(),
            RpcMethodKind::BotDeny => "Deny Bot".to_owned(),
            RpcMethodKind::BotVoteReset => "Reset Bot Votes".to_owned(),
            RpcMethodKind::BotVoteResetAll => "Reset All Bot Votes".to_owned(),
            RpcMethodKind::BotUnverify => "Unverify Bot".to_owned(),
        }
    }

    /// The description of this method.
    pub fn description(&self) -> (description: String)
        ensures
            description@ == method_description(*self),
    {
        match self {
            RpcMethodKind::BotApprove => "Approves a bot that waits in the queue".to_owned(),
            RpcMethodKind::BotDeny => "Denies a bot that waits in the queue".to_owned(),
            RpcMethodKind::BotVoteReset => "Resets the votes of one bot".to_owned(),
            RpcMethodKind::BotVoteResetAll => "Resets the votes of every bot".to_owned(),
            RpcMethodKind::BotUnverify => "Takes the verified status from a bot".to_owned(),
        }
    }

    /// The kinds of entity that this method can act on.
    pub fn supported_target_types(&self) -> (targets: Vec<TargetType>)
        ensures
            targets@ == seq![TargetType::Bot],
            forall|target: TargetType|
                #![trigger targets@.contains(target)]
                #![trigger method_supports(*self, target)]
                targets@.contains(target) <==> method_supports(*self, target),
    {
        let mut targets: Vec<TargetType> = Vec::new();
        targets.push(TargetType::Bot);
        assert(targets@ =~= seq![TargetType::Bot]);
        assert(targets@[0] == TargetType::Bot);
        targets
    }

    /// Whether this method can act on `target`.
    pub fn supports(&self, target: TargetType) -> (b: bool)
        ensures
            b == method_supports(*self, target),
    {
        target == TargetType::Bot
    }

    /// The fields that a client fills in to call this method.
    pub fn method_fields(&self) -> (fields: Vec<RpcField>)
        ensures
            if method_takes_bot(*self) {
                fields@.len() == 1 && is_bot_field(fields@[0])
            } else {
                fields@.len() == 0
            },
    {
        let mut fields: Vec<RpcField> = Vec::new();
        match self {
            RpcMethodKind::BotVoteResetAll => {},
            _ => {
                fields.push(
                    RpcField {
                        id: "bot_id".to_owned(),
                        label: "Bot ID".to_owned(),
                        field_type: FieldType::Text,
                        placeholder: "The ID of the bot".to_owned(),
                    },
                );
            },
        }
        fields
    }

    /// What a client is told about this method.
    pub fn web_action(&self) -> (action: RpcWebAction)
        ensures
            describes(action, *self),
    {
        RpcWebAction {
            id: self.name(),
            label: self.label(),
            description: self.description(),
            needs_perms: self.needs_perms(),
            supported_target_types: self.supported_target_types(),
            fields: self.method_fields(),
        }
    }
}

/// The methods that a listing for `flags` shows, in order.
pub open spec fn shown_kinds(flags: RoleFlags, filtered: bool) -> Seq<RpcMethodKind> {
    all_kinds().filter(listed(flags, filtered))
}

/// Lists the methods of the registry for a caller with the given flags.
///
/// With `filtered` the list holds the methods whose tier the flags reach,
/// and no other; without it, every method.
pub fn get_rpc_methods(flags: RoleFlags, filtered: bool) -> (actions: Vec<RpcWebAction>)
    ensures
        actions@.len() == shown_kinds(flags, filtered).len(),
        forall|i: int|
            0 <= i < actions@.len() ==> describes(
                #[trigger] actions@[i],
                shown_kinds(flags, filtered)[i],
            ),
        filtered ==> forall|i: int|
            0 <= i < actions@.len() ==> reaches_tier(flags, (#[trigger] actions@[i]).needs_perms),
{
    let kinds = RpcMethodKind::all();
    let ghost pred = listed(flags, filtered);
    let mut actions: Vec<RpcWebAction> = Vec::new();
    let ghost mut shown: Seq<RpcMethodKind> = Seq::empty();
    let mut i: usize = 0;
    proof {
        reveal(Seq::filter);
        assert(kinds@.take(0).filter(pred) =~= Seq::<RpcMethodKind>::empty());
    }
    while i < kinds.len()
        invariant
            i <= kinds.len(),
            kinds@ == all_kinds(),
            pred == listed(flags, filtered),
            shown == kinds@.take(i as int).filter(pred),
            actions@.len() == shown.len(),
            forall|k: int| 0 <= k < actions@.len() ==> describes(#[trigger] actions@[k], shown[k]),
            forall|k: int| 0 <= k < shown.len() ==> pred(#[trigger] shown[k]),
        decreases kinds.len() - i,
    {
        let kind = kinds[i];
        proof {
            assert(kinds@.take(i + 1) =~= kinds@.take(i as int).push(kind));
            kinds@.take(i as int).lemma_filter_push(kind, pred);
        }
        if !filtered || flags.reaches(kind.needs_perms()) {
            actions.push(kind.web_action());
            proof {
                shown = shown.push(kind);
            }
        }
        i += 1;
    }
    assert(kinds@.take(kinds.len() as int) =~= kinds@);
    actions
}

/// Decides whether a call may be executed: the caller needs the capability
/// to execute RPC methods, a tier that reaches the method's, and a target
/// that the method supports.
pub fn authorize_rpc(flags: RoleFlags, target: TargetType, method: &RpcMethod) -> (result: Result<
    (),
    RpcError,
>)
    ensures
        match result {
            Ok(()) => rpc_refusal(flags, target, method.kind()) is None,
            Err(e) => rpc_refusal(flags, target, method.kind()) == Some(e),
        },
        !reaches_tier(flags, method_tier(method.kind())) ==> result is Err,
{
    let kind = method.kind();
    if !flags.grants(Capability::Rpc) {
        Err(RpcError::MissingCapability)
    } else if !flags.reaches(kind.needs_perms()) {
        Err(RpcError::TierTooLow)
    } else if !kind.supports(target) {
        Err(RpcError::UnsupportedTarget)
    } else {
        Ok(())
    }
}

/// The status that goes with an outcome.
pub open spec fn outcome_status(outcome: RpcOutcome) -> u16 {
    match outcome {
        RpcOutcome::NoContent => 204,
        RpcOutcome::Content(_) => 200,
        RpcOutcome::Failure(_) => 400,
    }
}

/// The body that goes with an outcome.
pub open spec fn outcome_body(outcome: RpcOutcome) -> Seq<char> {
    match outcome {
        RpcOutcome::NoContent => Seq::empty(),
        RpcOutcome::Content(payload) => payload@,
        RpcOutcome::Failure(message) => message@,
    }
}

/// Turns what a handler reports into what goes back to the client.
pub fn rpc_response(outcome: RpcOutcome) -> (response: RpcResponse)
    ensures
        response.status == outcome_status(outcome),
        response.body@ == outcome_body(outcome),
{
    match outcome {
        RpcOutcome::NoContent => RpcResponse { status: 204, body: String::new() },
        RpcOutcome::Content(payload) => RpcResponse { status: 200, body: payload },
        RpcOutcome::Failure(message) => RpcResponse { status: 400, body: message },
    }
}

/// A method above the caller's tier is never executed, whatever the
/// listing showed, and a listing that filters never shows it.
pub proof fn lemma_tier_is_enforced(flags: RoleFlags, target: TargetType, kind: RpcMethodKind)
    requires
        !reaches_tier(flags, method_tier(kind)),
    ensures
        rpc_refusal(flags, target, kind) is Some,
        !shown_kinds(flags, true).contains(kind),
{
    let pred = listed(flags, true);
    let shown = shown_kinds(flags, true);
    if shown.contains(kind) {
        let i = choose|i: int| 0 <= i < shown.len() && shown[i] == kind;
        all_kinds().lemma_filter_pred(pred, i);
    }
}

/// A listing shows every method that the caller's tier reaches, and one
/// that does not filter shows every method.
pub proof fn lemma_listing_is_complete(flags: RoleFlags, filtered: bool, kind: RpcMethodKind)
    requires
        !filtered || reaches_tier(flags, method_tier(kind)),
    ensures
        shown_kinds(flags, filtered).contains(kind),
{
    let all = all_kinds();
    let i: int = match kind {
        RpcMethodKind::BotApprove => 0,
        RpcMethodKind::BotDeny => 1,
        RpcMethodKind::BotVoteReset => 2,
        RpcMethodKind::BotVoteResetAll => 3,
        RpcMethodKind::BotUnverify => 4,
    };
    assert(all[i] == kind);
    all.lemma_filter_contains(listed(flags, filtered), i);
}

} // verus!
