//! Decisions of the staff commands: who becomes staff by which role, who
//! may be added or removed, and how the staff list reads.

use crate::text::joined;
use vstd::prelude::*;

verus! {

/// The ids of the roles that stand for a place in the staff.
#[derive(Clone, Copy, Debug, PartialEq, Eq, Structural)]
pub struct StaffRoles {
    pub dev: u64,
    pub head_dev: u64,
    pub staff_man: u64,
    pub web_mod: u64,
    pub owner: u64,
}

/// The flags that a recalculation sets for a member.
#[derive(Clone, Copy, Debug, PartialEq, Eq, Structural)]
pub struct FlagUpdate {
    pub staff: bool,
    pub ibldev: bool,
    pub iblhdev: bool,
    pub admin: bool,
}

/// Why a member is not added to or removed from the staff.
#[derive(Clone, Copy, Debug, PartialEq, Eq, Structural)]
pub enum StaffError {
    /// The member is no web moderator.
    NotWebModerator,
    /// The member is a staff manager and as such protected.
    ProtectedManager,
    /// The member is an owner and as such protected.
    ProtectedOwner,
}

/// How a removal goes ahead.
#[derive(Clone, Copy, Debug, PartialEq, Eq, Structural)]
pub enum Removal {
    /// The author removes themselves.
    OwnRequest,
    /// The author removes somebody else.
    OfOther,
}

/// One line of the staff list.
pub struct StaffEntry {
    pub user_id: String,
    pub name: String,
    pub admin: bool,
    pub ibldev: bool,
    /// Whether the member was found in the staff server.
    pub in_server: bool,
}

/// The flags that the first of a member's roles gives, in the order
/// developer, head developer, staff manager, web moderator.
pub open spec fn flags_for(roles: Seq<u64>, known: StaffRoles) -> Option<FlagUpdate> {
    if roles.contains(known.dev) {
        Some(FlagUpdate { staff: true, ibldev: true, iblhdev: false, admin: false })
    } else if roles.contains(known.head_dev) {
        Some(FlagUpdate { staff: true, ibldev: true, iblhdev: true, admin: false })
    } else if roles.contains(known.staff_man) {
        Some(FlagUpdate { staff: true, ibldev: false, iblhdev: false, admin: true })
    } else if roles.contains(known.web_mod) {
        Some(FlagUpdate { staff: true, ibldev: false, iblhdev: false, admin: false })
    } else {
        None
    }
}

/// How a removal goes ahead, or why it does not: nobody is kept from
/// removing themselves, and managers and owners are protected from others.
pub open spec fn removal_for(is_self: bool, roles: Seq<u64>, known: StaffRoles) -> Result<
    Removal,
    StaffError,
> {
    if is_self {
        Ok(Removal::OwnRequest)
    } else if roles.contains(known.staff_man) {
        Err(StaffError::ProtectedManager)
    } else if roles.contains(known.owner) {
        Err(StaffError::ProtectedOwner)
    } else {
        Ok(Removal::OfOther)
    }
}

/// The text for a flag.
pub open spec fn bool_text(flag: bool) -> Seq<char> {
    if flag {
        "true"@
    } else {
        "false"@
    }
}

/// The line of the staff list for one member.
pub open spec fn entry_line(entry: StaffEntry) -> Seq<char> {
    entry.user_id@ + " ("@ + entry.name@ + ") [admin="@ + bool_text(entry.admin) + ", ibldev="@
        + bool_text(entry.ibldev) + "]\n"@
}

/// The note on a member who was not found in the staff server.
pub open spec fn absent_note(entry: StaffEntry) -> Seq<char> {
    entry.user_id@ + " ("@ + entry.name@ + ")"@
}

/// The lines of the staff list for `entries`.
pub open spec fn list_lines(entries: Seq<StaffEntry>) -> Seq<char>
    decreases entries.len(),
{
    if entries.len() == 0 {
        "**Staff List**\n"@
    } else {
        list_lines(entries.drop_last()) + entry_line(entries.last())
    }
}

/// The notes on those of `entries` who were not found in the staff server.
pub open spec fn absent_notes(entries: Seq<StaffEntry>) -> Seq<char>
    decreases entries.len(),
{
    if entries.len() == 0 {
        "**Not in staff server (based on cache, may be inaccurate)**\n"@
    } else if entries.last().in_server {
        absent_notes(entries.drop_last())
    } else {
        absent_notes(entries.drop_last()) + absent_note(entries.last())
    }
}

/// The staff list as it is shown: the lines, an empty line, the notes.
pub open spec fn staff_list_text(entries: Seq<StaffEntry>) -> Seq<char> {
    list_lines(entries) + "\n"@ + absent_notes(entries)
}

/// Whether `roles` holds `role`.
pub fn has_role(roles: &Vec<u64>, role: u64) -> (found: bool)
    ensures
        found == roles@.contains(role),
{
    let mut i: usize = 0;
    while i < roles.len()
        invariant
            i <= roles.len(),
            forall|j: int| 0 <= j < i ==> roles@[j] != role,
        decreases roles.len() - i,
    {
        if roles[i] == role {
            return true;
        }
        i += 1;
    }
    false
}

/// Decides which flags a recalculation sets for a member with the given
/// roles; `None` for a member without any of the staff roles.
pub fn recalc_flags(roles: &Vec<u64>, known: &StaffRoles) -> (update: Option<FlagUpdate>)
    ensures
        update == flags_for(roles@, *known),
{
    if has_role(roles, known.dev) {
        Some(FlagUpdate { staff: true, ibldev: true, iblhdev: false, admin: false })
    } else if has_role(roles, known.head_dev) {
        Some(FlagUpdate { staff: true, ibldev: true, iblhdev: true, admin: false })
    } else if has_role(roles, known.staff_man) {
        Some(FlagUpdate { staff: true, ibldev: false, iblhdev: false, admin: true })
    } else if has_role(roles, known.web_mod) {
        Some(FlagUpdate { staff: true, ibldev: false, iblhdev: false, admin: false })
    } else {
        None
    }
}

/// Decides whether a member may be added to the staff: only a web
/// moderator may.
pub fn check_staff_add(roles: &Vec<u64>, known: &StaffRoles) -> (result: Result<(), StaffError>)
    ensures
        result is Ok <==> roles@.contains(known.web_mod),
        result matches Err(e) ==> e == StaffError::NotWebModerator,
{
    if has_role(roles, known.web_mod) {
        Ok(())
    } else {
        Err(StaffError::NotWebModerator)
    }
}

/// Decides whether a member may be removed from the staff.
pub fn check_staff_del(is_self: bool, roles: &Vec<u64>, known: &StaffRoles) -> (result: Result<
    Removal,
    StaffError,
>)
    ensures
        result == removal_for(is_self, roles@, *known),
{
    if is_self {
        Ok(Removal::OwnRequest)
    } else if has_role(roles, known.staff_man) {
        Err(StaffError::ProtectedManager)
    } else if has_role(roles, known.owner) {
        Err(StaffError::ProtectedOwner)
    } else {
        Ok(Removal::OfOther)
    }
}

fn bool_str(flag: bool) -> (text: &'static str)
    ensures
        text@ == bool_text(flag),
{
    if flag {
        "true"
    } else {
        "false"
    }
}

fn line_of(entry: &StaffEntry) -> (line: String)
    ensures
        line@ == entry_line(*entry),
{
    let a = joined(entry.user_id.as_str(), " (");
    let b = joined(a.as_str(), entry.name.as_str());
    let c = joined(b.as_str(), ") [admin=");
    let d = joined(c.as_str(), bool_str(entry.admin));
    let e = joined(d.as_str(), ", ibldev=");
    let f = joined(e.as_str(), bool_str(entry.ibldev));
    joined(f.as_str(), "]\n")
}

fn note_of(entry: &StaffEntry) -> (note: String)
    ensures
        note@ == absent_note(*entry),
{
    let a = joined(entry.user_id.as_str(), " (");
    let b = joined(a.as_str(), entry.name.as_str());
    joined(b.as_str(), ")")
}

/// Builds the text of the staff list.
pub fn staff_list_message(entries: &Vec<StaffEntry>) -> (message: String)
    ensures
        message@ == staff_list_text(entries@),
{
    let mut lines: String = "**Staff List**\n".to_owned();
    let mut notes: String =
        "**Not in staff server (based on cache, may be inaccurate)**\n".to_owned();
    let mut i: usize = 0;
    assert(entries@.take(0) =~= Seq::<StaffEntry>::empty());
    while i < entries.len()
        invariant
            i <= entries.len(),
            lines@ == list_lines(entries@.take(i as int)),
            notes@ == absent_notes(entries@.take(i as int)),
        decreases entries.len() - i,
    {
        let entry = &entries[i];
        proof {
            let next = entries@.take(i + 1);
            assert(next.drop_last() =~= entries@.take(i as int));
            assert(next.last() == *entry);
        }
        lines = joined(lines.as_str(), line_of(entry).as_str());
        if !entry.in_server {
            notes = joined(notes.as_str(), note_of(entry).as_str());
        }
        i += 1;
    }
    assert(entries@.take(entries.len() as int) =~= entries@);
    let with_gap = joined(lines.as_str(), "\n");
    joined(with_gap.as_str(), notes.as_str())
}

} // verus!
