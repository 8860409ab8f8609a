//! Capabilities derived from the role flags stored for a user.

use vstd::prelude::*;

verus! {

/// The four role flags that decide what a user may do.
///
/// `head` stands for head administrator or head developer.
#[derive(Clone, Copy, Debug, PartialEq, Eq, Structural)]
pub struct RoleFlags {
    pub owner: bool,
    pub head: bool,
    pub admin: bool,
    pub staff: bool,
}

/// The role columns of a user record, as they are stored.
#[derive(Clone, Copy, Debug, PartialEq, Eq, Structural)]
pub struct UserPerms {
    pub owner: bool,
    pub hadmin: bool,
    pub iblhdev: bool,
    pub admin: bool,
    pub staff: bool,
}

/// An ordered permission level. Each tier implies every lower one.
#[derive(Clone, Copy, Debug, PartialEq, Eq, Structural)]
pub enum Tier {
    Staff,
    Admin,
    Head,
    Owner,
}

/// A named permission, checked per endpoint or action.
#[derive(Clone, Copy, Debug, PartialEq, Eq, Structural)]
pub enum Capability {
    ViewBotQueue,
    Rpc,
    BotManagement,
    CdnManagement,
    PartnerManagement,
}

/// Position of a tier in the order `Staff < Admin < Head < Owner`.
pub open spec fn tier_rank(tier: Tier) -> int {
    match tier {
        Tier::Staff => 1,
        Tier::Admin => 2,
        Tier::Head => 3,
        Tier::Owner => 4,
    }
}

/// Rank of the highest flag that is set, or 0 where none is.
pub open spec fn flags_rank(flags: RoleFlags) -> int {
    if flags.owner {
        4
    } else if flags.head {
        3
    } else if flags.admin {
        2
    } else if flags.staff {
        1
    } else {
        0
    }
}

/// The tier that a set of flags amounts to.
pub open spec fn flags_tier(flags: RoleFlags) -> Option<Tier> {
    if flags.owner {
        Some(Tier::Owner)
    } else if flags.head {
        Some(Tier::Head)
    } else if flags.admin {
        Some(Tier::Admin)
    } else if flags.staff {
        Some(Tier::Staff)
    } else {
        None
    }
}

/// Whether the flags reach the given tier.
pub open spec fn reaches_tier(flags: RoleFlags, tier: Tier) -> bool {
    flags_rank(flags) >= tier_rank(tier)
}

/// The lowest tier that holds a capability.
pub open spec fn capability_tier(cap: Capability) -> Tier {
    match cap {
        Capability::ViewBotQueue => Tier::Staff,
        Capability::Rpc => Tier::Admin,
        Capability::BotManagement => Tier::Admin,
        Capability::CdnManagement => Tier::Admin,
        Capability::PartnerManagement => Tier::Head,
    }
}

/// Whether the flags grant a capability.
pub open spec fn grants(flags: RoleFlags, cap: Capability) -> bool {
    reaches_tier(flags, capability_tier(cap))
}

/// The capabilities that the flags grant, as a set.
pub open spec fn capability_set(flags: RoleFlags) -> Set<Capability> {
    Set::new(|cap: Capability| grants(flags, cap))
}

impl UserPerms {
    /// The role flags that these columns amount to.
    pub open spec fn flags(&self) -> RoleFlags {
        RoleFlags {
            owner: self.owner,
            head: self.hadmin || self.iblhdev,
            admin: self.admin,
            staff: self.staff,
        }
    }

    /// Folds the two head columns into one flag.
    #[verifier::when_used_as_spec(flags)]
    pub fn role_flags(&self) -> (flags: RoleFlags)
        ensures
            flags == self.flags(),
    {
        RoleFlags {
            owner: self.owner,
            head: self.hadmin || self.iblhdev,
            admin: self.admin,
            staff: self.staff,
        }
    }
}

impl Tier {
    /// Whether `self` is at least as high as `other`.
    pub fn at_least(&self, other: Tier) -> (b: bool)
        ensures
            b == (tier_rank(*self) >= tier_rank(other)),
    {
        match (*self, other) {
            (Tier::Owner, _) => true,
            (Tier::Head, Tier::Owner) => false,
            (Tier::Head, _) => true,
            (Tier::Admin, Tier::Owner) => false,
            (Tier::Admin, Tier::Head) => false,
            (Tier::Admin, _) => true,
            (Tier::Staff, Tier::Staff) => true,
            (Tier::Staff, _) => false,
        }
    }
}

impl RoleFlags {
    /// The tier of the highest flag that is set.
    pub fn tier(&self) -> (tier: Option<Tier>)
        ensures
            tier == flags_tier(*self),
            tier matches Some(t) ==> tier_rank(t) == flags_rank(*self),
            tier is None ==> flags_rank(*self) == 0,
    {
        if self.owner {
            Some(Tier::Owner)
        } else if self.head {
            Some(Tier::Head)
        } else if self.admin {
            Some(Tier::Admin)
        } else if self.staff {
            Some(Tier::Staff)
        } else {
            None
        }
    }

    /// Whether these flags reach `tier`.
    pub fn reaches(&self, tier: Tier) -> (b: bool)
        ensures
            b == reaches_tier(*self, tier),
    {
        match self.tier() {
            Some(own) => own.at_least(tier),
            None => false,
        }
    }

    /// Whether these flags grant `cap`.
    pub fn grants(&self, cap: Capability) -> (b: bool)
        ensures
            b == grants(*self, cap),
    {
        self.reaches(cap.tier())
    }
}

impl Capability {
    /// The lowest tier that holds this capability.
    pub fn tier(&self) -> (tier: Tier)
        ensures
            tier == capability_tier(*self),
    {
        match self {
            Capability::ViewBotQueue => Tier::Staff,
            Capability::Rpc => Tier::Admin,
            Capability::BotManagement => Tier::Admin,
            Capability::CdnManagement => Tier::Admin,
            Capability::PartnerManagement => Tier::Head,
        }
    }
}

/// Position of a capability in the order in which they are listed.
pub open spec fn capability_index(cap: Capability) -> int {
    match cap {
        Capability::ViewBotQueue => 0,
        Capability::Rpc => 1,
        Capability::BotManagement => 2,
        Capability::CdnManagement => 3,
        Capability::PartnerManagement => 4,
    }
}

/// `caps` lists, once each, the granted capabilities that come before `upto`.
pub open spec fn lists_granted(caps: Seq<Capability>, flags: RoleFlags, upto: int) -> bool {
    &&& caps.no_duplicates()
    &&& forall|cap: Capability|
        caps.contains(cap) <==> (grants(flags, cap) && capability_index(cap) < upto)
}

fn push_if_granted(caps: &mut Vec<Capability>, flags: RoleFlags, cap: Capability)
    requires
        lists_granted(old(caps)@, flags, capability_index(cap)),
    ensures
        lists_granted(final(caps)@, flags, capability_index(cap) + 1),
{
    let ghost before = caps@;
    if flags.grants(cap) {
        caps.push(cap);
        proof {
            assert(!before.contains(cap));
            assert(caps@.last() == cap);
            assert forall|other: Capability|
                caps@.contains(other) <==> (grants(flags, other) && capability_index(other)
                    < capability_index(cap) + 1) by {
                if before.contains(other) {
                    let i = choose|i: int| 0 <= i < before.len() && before[i] == other;
                    assert(caps@[i] == other);
                }
                if other == cap {
                    assert(caps@[caps@.len() - 1] == other);
                }
                if caps@.contains(other) {
                    let i = choose|i: int| 0 <= i < caps@.len() && caps@[i] == other;
                    if i < before.len() {
                        assert(before[i] == other);
                    }
                }
            }
        }
    } else {
        proof {
            assert forall|other: Capability|
                caps@.contains(other) <==> (grants(flags, other) && capability_index(other)
                    < capability_index(cap) + 1) by {
                if capability_index(other) == capability_index(cap) {
                    assert(other == cap);
                }
            }
        }
    }
}

/// Derives the capabilities of a user from the role flags.
///
/// The result holds each granted capability once; what it holds does not
/// depend on the order in which it lists them.
pub fn capabilities(flags: RoleFlags) -> (caps: Vec<Capability>)
    ensures
        caps@.no_duplicates(),
        caps@.to_set() == capability_set(flags),
        forall|cap: Capability|
            #![trigger caps@.contains(cap)]
            #![trigger grants(flags, cap)]
            caps@.contains(cap) <==> grants(flags, cap),
{
    let mut caps: Vec<Capability> = Vec::new();
    assert(lists_granted(caps@, flags, 0));
    push_if_granted(&mut caps, flags, Capability::ViewBotQueue);
    push_if_granted(&mut caps, flags, Capability::Rpc);
    push_if_granted(&mut caps, flags, Capability::BotManagement);
    push_if_granted(&mut caps, flags, Capability::CdnManagement);
    push_if_granted(&mut caps, flags, Capability::PartnerManagement);
    assert(caps@.to_set() =~= capability_set(flags));
    caps
}

/// Whether a derived capability list holds `cap`.
pub fn has_capability(caps: &Vec<Capability>, cap: Capability) -> (b: bool)
    ensures
        b == caps@.contains(cap),
{
    let mut i: usize = 0;
    while i < caps.len()
        invariant
            i <= caps.len(),
            forall|j: int| 0 <= j < i ==> caps@[j] != cap,
        decreases caps.len() - i,
    {
        if caps[i] == cap {
            return true;
        }
        i += 1;
    }
    false
}

/// A higher tier grants whatever a lower tier grants.
pub proof fn lemma_grants_monotone(low: RoleFlags, high: RoleFlags, cap: Capability)
    requires
        flags_rank(low) <= flags_rank(high),
        grants(low, cap),
    ensures
        grants(high, cap),
{
}

/// Without any flag set, no capability is granted.
pub proof fn lemma_no_flags_no_capability(flags: RoleFlags, cap: Capability)
    requires
        !flags.owner && !flags.head && !flags.admin && !flags.staff,
    ensures
        !grants(flags, cap),
        capability_set(flags) =~= Set::<Capability>::empty(),
{
}

} // verus!
