//! The discover-or-create resource provisioning protocol.
//!
//! A VM's resource list is scanned for a controller of the requested subtype
//! and address; when none exists and the type supports synthetic creation,
//! one is created and the list re-scanned.  Drives added by the two-phase
//! attach do not return their identity, so the freshly added drive is found
//! again by (kind, parent, location).  The scan-then-create path is not
//! transactional: concurrent callers targeting the same (type, address) can
//! race and must serialize externally.

use vstd::prelude::*;
use vstd::string::StringExecFns;
use crate::controller::ControllerType;
use crate::error::Error;
use crate::text::{
    contains_seq, dec_string, dec_value_or_zero, parse_u32_or_zero, str_contains, str_eq,
    u32_to_dec_string,
};

verus! {

/// The fields of one entry of a VM's resource list, as the scans read them.
#[derive(Debug)]
pub struct ResourceEntry {
    /// The `ResourceSubType` string, when present.
    pub subtype: Option<String>,
    /// The `Address` text, when present.
    pub address: Option<String>,
    /// The `Parent` path, when present.
    pub parent: Option<String>,
    /// The `AddressOnParent` value, when present.
    pub address_on_parent: Option<u32>,
    /// Document path of the resource.
    pub path: String,
}

// ---------------------------------------------------------------------------
// Controllers
// ---------------------------------------------------------------------------

/// `e` is a controller of type `t` at address `n`: its subtype contains the
/// type's subtype string and its address text reads as `n` (unparsable
/// addresses read as zero).
pub open spec fn controller_matches(e: ResourceEntry, t: ControllerType, n: u32) -> bool {
    &&& e.subtype matches Some(st) && contains_seq(st@, t.spec_resource_subtype())
    &&& e.address matches Some(a) && dec_value_or_zero(a@) == n as int
}

/// `e` is a controller of type `t`, at whatever address.
pub open spec fn controller_subtype_matches(e: ResourceEntry, t: ControllerType) -> bool {
    e.subtype matches Some(st) && contains_seq(st@, t.spec_resource_subtype())
}

/// Some entry of `rs` is a controller of type `t` at address `n`.
pub open spec fn spec_has_controller(rs: Seq<ResourceEntry>, t: ControllerType, n: u32) -> bool {
    exists|j: int| 0 <= j < rs.len() && controller_matches(#[trigger] rs[j], t, n)
}

/// Some entry of `rs` is a controller of type `t`.
pub open spec fn spec_has_controller_subtype(rs: Seq<ResourceEntry>, t: ControllerType) -> bool {
    exists|j: int| 0 <= j < rs.len() && controller_subtype_matches(#[trigger] rs[j], t)
}

/// Whether one entry is a controller of type `t` at address `n`.
fn entry_matches_controller(e: &ResourceEntry, t: ControllerType, n: u32) -> (r: bool)
    ensures
        r == controller_matches(*e, t, n),
{
    let subtype_hit = match &e.subtype {
        Some(st) => str_contains(st.as_str(), t.resource_subtype()),
        None => false,
    };
    if !subtype_hit {
        return false;
    }
    match &e.address {
        Some(a) => parse_u32_or_zero(a.as_str()) == n,
        None => false,
    }
}

/// Scan a resource list for the first controller of type `t` at address
/// `n`.
pub fn find_controller(resources: &Vec<ResourceEntry>, t: ControllerType, n: u32) -> (r: Option<
    usize,
>)
    ensures
        r matches Some(i) ==> i < resources@.len() && controller_matches(resources@[i as int], t, n)
            && forall|j: int| 0 <= j < i ==> !controller_matches(#[trigger] resources@[j], t, n),
        r is None ==> !spec_has_controller(resources@, t, n),
{
    let mut i: usize = 0;
    while i < resources.len()
        invariant
            i <= resources@.len(),
            forall|j: int| 0 <= j < i ==> !controller_matches(#[trigger] resources@[j], t, n),
        decreases resources@.len() - i,
    {
        if entry_matches_controller(&resources[i], t, n) {
            return Some(i);
        }
        i += 1;
    }
    None
}

/// Scan a resource list for the first controller of type `t`, at whatever
/// address — the re-scan after a synthetic controller was added.
pub fn find_controller_by_subtype(resources: &Vec<ResourceEntry>, t: ControllerType) -> (r: Option<
    usize,
>)
    ensures
        r matches Some(i) ==> i < resources@.len() && controller_subtype_matches(
            resources@[i as int],
            t,
        ) && forall|j: int|
            0 <= j < i ==> !controller_subtype_matches(#[trigger] resources@[j], t),
        r is None ==> !spec_has_controller_subtype(resources@, t),
{
    let mut i: usize = 0;
    while i < resources.len()
        invariant
            i <= resources@.len(),
            forall|j: int| 0 <= j < i ==> !controller_subtype_matches(#[trigger] resources@[j], t),
        decreases resources@.len() - i,
    {
        let hit = match &resources[i].subtype {
            Some(st) => str_contains(st.as_str(), t.resource_subtype()),
            None => false,
        };
        if hit {
            return Some(i);
        }
        i += 1;
    }
    None
}

/// Debug-style name of a controller type, as it appears in the not-found
/// message.
pub open spec fn spec_controller_type_name(t: ControllerType) -> Seq<char> {
    match t {
        ControllerType::Ide => "Ide"@,
        ControllerType::Scsi => "Scsi"@,
    }
}

/// Message of the error reported when no controller of type `t` at address
/// `n` can be found or created.
pub open spec fn spec_controller_not_found_message(t: ControllerType, n: u32) -> Seq<char> {
    "Controller "@ + spec_controller_type_name(t) + " #"@ + dec_string(n as int) + " not found"@
}

/// The error reported when no controller of type `t` at address `n` can be
/// found or created.
fn controller_not_found_error(t: ControllerType, n: u32) -> (e: Error)
    ensures
        e matches Error::OperationFailed { operation, return_value, message }
            && operation@ == "FindController"@ && return_value == 0
            && message@ == spec_controller_not_found_message(t, n),
{
    let mut message = String::from_str("Controller ");
    match t {
        ControllerType::Ide => message.append("Ide"),
        ControllerType::Scsi => message.append("Scsi"),
    }
    message.append(" #");
    let num = u32_to_dec_string(n);
    message.append(num.as_str());
    message.append(" not found");
    Error::OperationFailed { operation: "FindController", return_value: 0, message }
}

/// What the find-or-create protocol does next.
#[derive(Debug)]
pub enum ControllerResolution {
    /// A matching controller exists at this index of the scanned list: use
    /// it, create nothing.
    Existing(usize),
    /// No match, but the type supports synthetic creation: add a controller
    /// resource and re-scan.
    CreateSynthetic,
    /// No match and the type cannot be created on demand: fail with this
    /// error.
    Unsupported(Error),
}

/// A scan of `rs` decides to create a controller exactly when no entry
/// matches and the requested type supports synthetic creation.
pub open spec fn spec_controller_decision_creates(
    rs: Seq<ResourceEntry>,
    t: ControllerType,
    n: u32,
) -> bool {
    !spec_has_controller(rs, t, n) && t is Scsi
}

/// Decide the find-or-create step from a scan of the VM's resource list:
/// reuse the first matching controller when one exists; otherwise create a
/// synthetic controller when the type supports it; otherwise fail with the
/// not-found error.
pub fn controller_decision(resources: &Vec<ResourceEntry>, t: ControllerType, n: u32) -> (r:
    ControllerResolution)
    ensures
        spec_has_controller(resources@, t, n) <==> r is Existing,
        r matches ControllerResolution::Existing(i) ==> i < resources@.len()
            && controller_matches(resources@[i as int], t, n) && forall|j: int|
            0 <= j < i ==> !controller_matches(#[trigger] resources@[j], t, n),
        r is CreateSynthetic <==> spec_controller_decision_creates(resources@, t, n),
        !spec_has_controller(resources@, t, n) && t is Ide ==> (r
            matches ControllerResolution::Unsupported(e) && (e
            matches Error::OperationFailed { operation, return_value, message }
            && operation@ == "FindController"@ && return_value == 0
            && message@ == spec_controller_not_found_message(t, n))),
{
    match find_controller(resources, t, n) {
        Some(i) => ControllerResolution::Existing(i),
        None => {
            match t {
                ControllerType::Scsi => ControllerResolution::CreateSynthetic,
                ControllerType::Ide => ControllerResolution::Unsupported(
                    controller_not_found_error(t, n),
                ),
            }
        },
    }
}

/// Resolve the re-scan after a synthetic controller was added: the first
/// controller of the subtype is the one to use; a list still without one
/// fails with the not-found error.
pub fn resolve_after_create(resources: &Vec<ResourceEntry>, t: ControllerType, n: u32) -> (r:
    Result<usize, Error>)
    ensures
        spec_has_controller_subtype(resources@, t) <==> r is Ok,
        r matches Ok(i) ==> i < resources@.len() && controller_subtype_matches(
            resources@[i as int],
            t,
        ) && forall|j: int|
            0 <= j < i ==> !controller_subtype_matches(#[trigger] resources@[j], t),
        r matches Err(e) ==> e matches Error::OperationFailed { operation, return_value, message }
            && operation@ == "FindController"@ && return_value == 0
            && message@ == spec_controller_not_found_message(t, n),
    {
    match find_controller_by_subtype(resources, t) {
        Some(i) => Ok(i),
        None => Err(controller_not_found_error(t, n)),
    }
}

/// Find-or-create is idempotent: once the resource list holds a controller
/// of the requested type and address — whether it was there all along or was
/// just created — a further request for the same (type, address) reuses it
/// and never creates a second one.
pub proof fn lemma_find_or_create_idempotent(rs: Seq<ResourceEntry>, t: ControllerType, n: u32)
    requires
        spec_has_controller(rs, t, n),
    ensures
        !spec_controller_decision_creates(rs, t, n),
{
}

/// Discovering more resources never makes an existing controller invisible:
/// a list extended by further entries still holds every match the original
/// held.
pub proof fn lemma_controller_scan_monotone(
    rs: Seq<ResourceEntry>,
    extra: ResourceEntry,
    t: ControllerType,
    n: u32,
)
    requires
        spec_has_controller(rs, t, n),
    ensures
        spec_has_controller(rs.push(extra), t, n),
{
    let j = choose|j: int| 0 <= j < rs.len() && controller_matches(#[trigger] rs[j], t, n);
    assert(rs.push(extra)[j] == rs[j]);
}

// ---------------------------------------------------------------------------
// Drives
// ---------------------------------------------------------------------------

/// The two drive kinds that attach media to a controller.
#[derive(Debug, Clone, Copy, PartialEq, Eq, Structural)]
pub enum DriveKind {
    /// A synthetic disk drive.
    Disk,
    /// A synthetic optical (DVD) drive.
    Dvd,
}

impl DriveKind {
    /// Substring of the resource subtype that identifies this drive kind.
    pub open spec fn spec_subtype_pattern(self) -> Seq<char> {
        match self {
            DriveKind::Disk => "Disk Drive"@,
            DriveKind::Dvd => "DVD Drive"@,
        }
    }

    /// Substring of the resource subtype that identifies this drive kind.
    pub fn subtype_pattern(&self) -> (r: &'static str)
        ensures
            r@ == self.spec_subtype_pattern(),
    {
        match self {
            DriveKind::Disk => "Disk Drive",
            DriveKind::Dvd => "DVD Drive",
        }
    }
}

/// `e` is a drive of kind `kind` hanging off the controller at
/// `controller_path`, at location `location`.
pub open spec fn drive_matches(
    e: ResourceEntry,
    kind: DriveKind,
    controller_path: Seq<char>,
    location: u32,
) -> bool {
    &&& e.subtype matches Some(st) && contains_seq(st@, kind.spec_subtype_pattern())
    &&& e.parent matches Some(p) && p@ == controller_path
    &&& e.address_on_parent matches Some(a) && a == location
}

/// Some entry of `rs` is such a drive.
pub open spec fn spec_has_drive(
    rs: Seq<ResourceEntry>,
    kind: DriveKind,
    controller_path: Seq<char>,
    location: u32,
) -> bool {
    exists|j: int| 0 <= j < rs.len() && drive_matches(#[trigger] rs[j], kind, controller_path, location)
}

/// Number of entries of `rs` that are such drives.
pub open spec fn spec_drive_count(
    rs: Seq<ResourceEntry>,
    kind: DriveKind,
    controller_path: Seq<char>,
    location: u32,
) -> int
    decreases rs.len(),
{
    if rs.len() == 0 {
        0
    } else {
        spec_drive_count(rs.drop_last(), kind, controller_path, location) + if drive_matches(
            rs.last(),
            kind,
            controller_path,
            location,
        ) {
            1int
        } else {
            0int
        }
    }
}

/// Whether one entry is a drive of `kind` on `controller_path` at
/// `location`.
fn entry_matches_drive(
    e: &ResourceEntry,
    kind: DriveKind,
    controller_path: &str,
    location: u32,
) -> (r: bool)
    ensures
        r == drive_matches(*e, kind, controller_path@, location),
{
    let subtype_hit = match &e.subtype {
        Some(st) => str_contains(st.as_str(), kind.subtype_pattern()),
        None => false,
    };
    if !subtype_hit {
        return false;
    }
    let parent_hit = match &e.parent {
        Some(p) => str_eq(p.as_str(), controller_path),
        None => false,
    };
    if !parent_hit {
        return false;
    }
    match e.address_on_parent {
        Some(a) => a == location,
        None => false,
    }
}

/// Scan a resource list for the first drive of `kind` on the controller at
/// `controller_path`, at `location` — how a freshly added drive is found
/// again, since the add operation does not return its identity.
pub fn find_drive(
    resources: &Vec<ResourceEntry>,
    kind: DriveKind,
    controller_path: &str,
    location: u32,
) -> (r: Option<usize>)
    ensures
        r matches Some(i) ==> i < resources@.len() && drive_matches(
            resources@[i as int],
            kind,
            controller_path@,
            location,
        ) && forall|j: int|
            0 <= j < i ==> !drive_matches(#[trigger] resources@[j], kind, controller_path@, location),
        r is None ==> !spec_has_drive(resources@, kind, controller_path@, location),
{
    let mut i: usize = 0;
    while i < resources.len()
        invariant
            i <= resources@.len(),
            forall|j: int|
                0 <= j < i ==> !drive_matches(
                    #[trigger] resources@[j],
                    kind,
                    controller_path@,
                    location,
                ),
        decreases resources@.len() - i,
    {
        if entry_matches_drive(&resources[i], kind, controller_path, location) {
            return Some(i);
        }
        i += 1;
    }
    None
}

/// Message of the error reported when the freshly added drive cannot be
/// found again.
pub open spec fn spec_drive_not_found_message(kind: DriveKind, location: u32) -> Seq<char> {
    match kind {
        DriveKind::Disk => "Disk drive at location "@ + dec_string(location as int)
            + " not found"@,
        DriveKind::Dvd => "DVD drive at location "@ + dec_string(location as int) + " not found"@,
    }
}

/// Operation name of the error reported when the freshly added drive cannot
/// be found again.
pub open spec fn spec_drive_not_found_operation(kind: DriveKind) -> Seq<char> {
    match kind {
        DriveKind::Disk => "FindDiskDrive"@,
        DriveKind::Dvd => "FindDvdDrive"@,
    }
}

/// Locate the drive the two-phase attach just added, by (kind, parent,
/// location); a list without it fails with the kind's not-found error.
pub fn locate_drive(
    resources: &Vec<ResourceEntry>,
    kind: DriveKind,
    controller_path: &str,
    location: u32,
) -> (r: Result<usize, Error>)
    ensures
        spec_has_drive(resources@, kind, controller_path@, location) <==> r is Ok,
        r matches Ok(i) ==> i < resources@.len() && drive_matches(
            resources@[i as int],
            kind,
            controller_path@,
            location,
        ),
        r matches Err(e) ==> e matches Error::OperationFailed { operation, return_value, message }
            && operation@ == spec_drive_not_found_operation(kind) && return_value == 0
            && message@ == spec_drive_not_found_message(kind, location),
{
    match find_drive(resources, kind, controller_path, location) {
        Some(i) => Ok(i),
        None => {
            let num = u32_to_dec_string(location);
            match kind {
                DriveKind::Disk => {
                    let mut message = String::from_str("Disk drive at location ");
                    message.append(num.as_str());
                    message.append(" not found");
                    Err(Error::OperationFailed {
                        operation: "FindDiskDrive",
                        return_value: 0,
                        message,
                    })
                },
                DriveKind::Dvd => {
                    let mut message = String::from_str("DVD drive at location ");
                    message.append(num.as_str());
                    message.append(" not found");
                    Err(Error::OperationFailed {
                        operation: "FindDvdDrive",
                        return_value: 0,
                        message,
                    })
                },
            }
        },
    }
}

/// Count the drives of `kind` on the controller at `controller_path` at
/// `location` — what a disk listing reports for one address.
pub fn count_drives_at(
    resources: &Vec<ResourceEntry>,
    kind: DriveKind,
    controller_path: &str,
    location: u32,
) -> (r: usize)
    ensures
        r as int == spec_drive_count(resources@, kind, controller_path@, location),
{
    let mut count: usize = 0;
    let mut i: usize = 0;
    while i < resources.len()
        invariant
            i <= resources@.len(),
            count <= i,
            count as int == spec_drive_count(
                resources@.subrange(0, i as int),
                kind,
                controller_path@,
                location,
            ),
        decreases resources@.len() - i,
    {
        proof {
            assert(resources@.subrange(0, i + 1).drop_last() =~= resources@.subrange(0, i as int));
            assert(resources@.subrange(0, i + 1).last() == resources@[i as int]);
        }
        if entry_matches_drive(&resources[i], kind, controller_path, location) {
            count += 1;
        }
        i += 1;
    }
    proof {
        assert(resources@.subrange(0, resources@.len() as int) =~= resources@);
    }
    count
}

} // verus!
