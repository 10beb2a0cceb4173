//! Configuration documents.
//!
//! Every mutation the orchestration performs is expressed as a configuration
//! document: a schema class plus a list of property assignments, handed to
//! the management service's define/add/modify operations.  The builders here
//! compute those documents from validated settings; their contracts pin the
//! class and the exact set of properties written.

use vstd::prelude::*;
use vstd::string::StringExecFns;
use crate::adapter::NetworkAdapterSettings;
use crate::checkpoint::CheckpointSettings;
use crate::error::Error;
use crate::provision::DriveKind;
use crate::settings::VmSettings;
use crate::state::Generation;
use crate::vhd::{VhdFormat, VhdSettings};

verus! {

broadcast use vstd::string::group_string_axioms;

/// A property value written into a configuration document.
#[derive(Debug)]
pub enum PropValue {
    /// A string property.
    Text(String),
    /// A string-array property.
    TextList(Vec<String>),
    /// An unsigned 16-bit property.
    U16(u16),
    /// An unsigned 32-bit property.
    U32(u32),
    /// An unsigned 64-bit property.
    U64(u64),
    /// A boolean property.
    Flag(bool),
}

/// One property assignment of a configuration document.
#[derive(Debug)]
pub struct PropPut {
    /// Property name.
    pub name: &'static str,
    /// Value to write.
    pub value: PropValue,
}

/// A configuration document: a schema class and the properties to set on a
/// spawned instance of it.
#[derive(Debug)]
pub struct ResourceDocument {
    /// Schema class of the document.
    pub class: &'static str,
    /// Properties to set, each name at most once.
    pub props: Vec<PropPut>,
}

/// The assignments carry `name` with the string value `v`.
pub open spec fn puts_have_text(props: Seq<PropPut>, name: Seq<char>, v: Seq<char>) -> bool {
    exists|i: int|
        0 <= i < props.len() && (#[trigger] props[i]).name@ == name && (props[i].value matches
            PropValue::Text(t) && t@ == v)
}

/// The assignments carry `name` with the one-element string-array value
/// `[v]`.
pub open spec fn puts_have_text_list1(props: Seq<PropPut>, name: Seq<char>, v: Seq<char>) -> bool {
    exists|i: int|
        0 <= i < props.len() && (#[trigger] props[i]).name@ == name && (props[i].value matches
            PropValue::TextList(l) && l@.len() == 1 && l@[0]@ == v)
}

/// The assignments carry `name` with the 16-bit value `v`.
pub open spec fn puts_have_u16(props: Seq<PropPut>, name: Seq<char>, v: u16) -> bool {
    exists|i: int|
        0 <= i < props.len() && (#[trigger] props[i]).name@ == name && (props[i].value matches
            PropValue::U16(u) && u == v)
}

/// The assignments carry `name` with the 32-bit value `v`.
pub open spec fn puts_have_u32(props: Seq<PropPut>, name: Seq<char>, v: u32) -> bool {
    exists|i: int|
        0 <= i < props.len() && (#[trigger] props[i]).name@ == name && (props[i].value matches
            PropValue::U32(u) && u == v)
}

/// The assignments carry `name` with the 64-bit value `v`.
pub open spec fn puts_have_u64(props: Seq<PropPut>, name: Seq<char>, v: u64) -> bool {
    exists|i: int|
        0 <= i < props.len() && (#[trigger] props[i]).name@ == name && (props[i].value matches
            PropValue::U64(u) && u == v)
}

/// The assignments carry `name` with the boolean value `v`.
pub open spec fn puts_have_flag(props: Seq<PropPut>, name: Seq<char>, v: bool) -> bool {
    exists|i: int|
        0 <= i < props.len() && (#[trigger] props[i]).name@ == name && (props[i].value matches
            PropValue::Flag(b) && b == v)
}

/// Some assignment carries `name`.
pub open spec fn puts_have_prop(props: Seq<PropPut>, name: Seq<char>) -> bool {
    exists|i: int| 0 <= i < props.len() && (#[trigger] props[i]).name@ == name
}

/// No two assignments carry the same name.
pub open spec fn puts_unique(props: Seq<PropPut>) -> bool {
    forall|i: int, j: int|
        0 <= i < props.len() && 0 <= j < props.len() && (#[trigger] props[i]).name@ == (
        #[trigger] props[j]).name@ ==> i == j
}

/// Appending an assignment carries a name exactly when the list already did
/// or the new assignment does.
broadcast proof fn lemma_puts_have_prop_push(ps: Seq<PropPut>, p: PropPut, name: Seq<char>)
    ensures
        #[trigger] puts_have_prop(ps.push(p), name) <==> (puts_have_prop(ps, name) || p.name@
            == name),
{
    let q = ps.push(p);
    if puts_have_prop(ps, name) {
        let i = choose|i: int| 0 <= i < ps.len() && (#[trigger] ps[i]).name@ == name;
        assert(q[i] == ps[i]);
    }
    if p.name@ == name {
        assert(q[ps.len() as int] == p);
    }
    if puts_have_prop(q, name) && !(p.name@ == name) {
        let i = choose|i: int| 0 <= i < q.len() && (#[trigger] q[i]).name@ == name;
        assert(i < ps.len() && q[i] == ps[i]);
    }
}

/// Appending an assignment carries a string value exactly when the list
/// already did or the new assignment does.
broadcast proof fn lemma_puts_have_text_push(
    ps: Seq<PropPut>,
    p: PropPut,
    name: Seq<char>,
    v: Seq<char>,
)
    ensures
        #[trigger] puts_have_text(ps.push(p), name, v) <==> (puts_have_text(ps, name, v) || (
        p.name@ == name && (p.value matches PropValue::Text(t) && t@ == v))),
{
    let q = ps.push(p);
    if puts_have_text(ps, name, v) {
        let i = choose|i: int|
            0 <= i < ps.len() && (#[trigger] ps[i]).name@ == name && (ps[i].value matches
                PropValue::Text(t) && t@ == v);
        assert(q[i] == ps[i]);
    }
    if p.name@ == name && (p.value matches PropValue::Text(t) && t@ == v) {
        assert(q[ps.len() as int] == p);
    }
    if puts_have_text(q, name, v) {
        let i = choose|i: int|
            0 <= i < q.len() && (#[trigger] q[i]).name@ == name && (q[i].value matches
                PropValue::Text(t) && t@ == v);
        if i < ps.len() {
            assert(q[i] == ps[i]);
        } else {
            assert(q[i] == p);
        }
    }
}

/// Appending an assignment carries a one-element string-array value exactly
/// when the list already did or the new assignment does.
broadcast proof fn lemma_puts_have_text_list1_push(
    ps: Seq<PropPut>,
    p: PropPut,
    name: Seq<char>,
    v: Seq<char>,
)
    ensures
        #[trigger] puts_have_text_list1(ps.push(p), name, v) <==> (puts_have_text_list1(
            ps,
            name,
            v,
        ) || (p.name@ == name && (p.value matches PropValue::TextList(l) && l@.len() == 1
            && l@[0]@ == v))),
{
    let q = ps.push(p);
    if puts_have_text_list1(ps, name, v) {
        let i = choose|i: int|
            0 <= i < ps.len() && (#[trigger] ps[i]).name@ == name && (ps[i].value matches
                PropValue::TextList(l) && l@.len() == 1 && l@[0]@ == v);
        assert(q[i] == ps[i]);
    }
    if p.name@ == name && (p.value matches PropValue::TextList(l) && l@.len() == 1 && l@[0]@
        == v) {
        assert(q[ps.len() as int] == p);
    }
    if puts_have_text_list1(q, name, v) {
        let i = choose|i: int|
            0 <= i < q.len() && (#[trigger] q[i]).name@ == name && (q[i].value matches
                PropValue::TextList(l) && l@.len() == 1 && l@[0]@ == v);
        if i < ps.len() {
            assert(q[i] == ps[i]);
        } else {
            assert(q[i] == p);
        }
    }
}

/// Appending an assignment carries a 16-bit value exactly when the list
/// already did or the new assignment does.
broadcast proof fn lemma_puts_have_u16_push(ps: Seq<PropPut>, p: PropPut, name: Seq<char>, v: u16)
    ensures
        #[trigger] puts_have_u16(ps.push(p), name, v) <==> (puts_have_u16(ps, name, v) || (
        p.name@ == name && (p.value matches PropValue::U16(u) && u == v))),
{
    let q = ps.push(p);
    if puts_have_u16(ps, name, v) {
        let i = choose|i: int|
            0 <= i < ps.len() && (#[trigger] ps[i]).name@ == name && (ps[i].value matches
                PropValue::U16(u) && u == v);
        assert(q[i] == ps[i]);
    }
    if p.name@ == name && (p.value matches PropValue::U16(u) && u == v) {
        assert(q[ps.len() as int] == p);
    }
    if puts_have_u16(q, name, v) {
        let i = choose|i: int|
            0 <= i < q.len() && (#[trigger] q[i]).name@ == name && (q[i].value matches
                PropValue::U16(u) && u == v);
        if i < ps.len() {
            assert(q[i] == ps[i]);
        } else {
            assert(q[i] == p);
        }
    }
}

/// Appending an assignment carries a 32-bit value exactly when the list
/// already did or the new assignment does.
broadcast proof fn lemma_puts_have_u32_push(ps: Seq<PropPut>, p: PropPut, name: Seq<char>, v: u32)
    ensures
        #[trigger] puts_have_u32(ps.push(p), name, v) <==> (puts_have_u32(ps, name, v) || (
        p.name@ == name && (p.value matches PropValue::U32(u) && u == v))),
{
    let q = ps.push(p);
    if puts_have_u32(ps, name, v) {
        let i = choose|i: int|
            0 <= i < ps.len() && (#[trigger] ps[i]).name@ == name && (ps[i].value matches
                PropValue::U32(u) && u == v);
        assert(q[i] == ps[i]);
    }
    if p.name@ == name && (p.value matches PropValue::U32(u) && u == v) {
        assert(q[ps.len() as int] == p);
    }
    if puts_have_u32(q, name, v) {
        let i = choose|i: int|
            0 <= i < q.len() && (#[trigger] q[i]).name@ == name && (q[i].value matches
                PropValue::U32(u) && u == v);
        if i < ps.len() {
            assert(q[i] == ps[i]);
        } else {
            assert(q[i] == p);
        }
    }
}

/// Appending an assignment carries a 64-bit value exactly when the list
/// already did or the new assignment does.
broadcast proof fn lemma_puts_have_u64_push(ps: Seq<PropPut>, p: PropPut, name: Seq<char>, v: u64)
    ensures
        #[trigger] puts_have_u64(ps.push(p), name, v) <==> (puts_have_u64(ps, name, v) || (
        p.name@ == name && (p.value matches PropValue::U64(u) && u == v))),
{
    let q = ps.push(p);
    if puts_have_u64(ps, name, v) {
        let i = choose|i: int|
            0 <= i < ps.len() && (#[trigger] ps[i]).name@ == name && (ps[i].value matches
                PropValue::U64(u) && u == v);
        assert(q[i] == ps[i]);
    }
    if p.name@ == name && (p.value matches PropValue::U64(u) && u == v) {
        assert(q[ps.len() as int] == p);
    }
    if puts_have_u64(q, name, v) {
        let i = choose|i: int|
            0 <= i < q.len() && (#[trigger] q[i]).name@ == name && (q[i].value matches
                PropValue::U64(u) && u == v);
        if i < ps.len() {
            assert(q[i] == ps[i]);
        } else {
            assert(q[i] == p);
        }
    }
}

/// Appending an assignment carries a boolean value exactly when the list
/// already did or the new assignment does.
broadcast proof fn lemma_puts_have_flag_push(ps: Seq<PropPut>, p: PropPut, name: Seq<char>, v: bool)
    ensures
        #[trigger] puts_have_flag(ps.push(p), name, v) <==> (puts_have_flag(ps, name, v) || (
        p.name@ == name && (p.value matches PropValue::Flag(b) && b == v))),
{
    let q = ps.push(p);
    if puts_have_flag(ps, name, v) {
        let i = choose|i: int|
            0 <= i < ps.len() && (#[trigger] ps[i]).name@ == name && (ps[i].value matches
                PropValue::Flag(b) && b == v);
        assert(q[i] == ps[i]);
    }
    if p.name@ == name && (p.value matches PropValue::Flag(b) && b == v) {
        assert(q[ps.len() as int] == p);
    }
    if puts_have_flag(q, name, v) {
        let i = choose|i: int|
            0 <= i < q.len() && (#[trigger] q[i]).name@ == name && (q[i].value matches
                PropValue::Flag(b) && b == v);
        if i < ps.len() {
            assert(q[i] == ps[i]);
        } else {
            assert(q[i] == p);
        }
    }
}

/// Appending an assignment keeps names unique exactly when they were unique
/// and the new name is fresh.
broadcast proof fn lemma_puts_unique_push(ps: Seq<PropPut>, p: PropPut)
    ensures
        #[trigger] puts_unique(ps.push(p)) <==> (puts_unique(ps) && !puts_have_prop(ps, p.name@)),
{
    let q = ps.push(p);
    if puts_unique(ps) && !puts_have_prop(ps, p.name@) {
        assert forall|i: int, j: int|
            0 <= i < q.len() && 0 <= j < q.len() && (#[trigger] q[i]).name@ == (
            #[trigger] q[j]).name@ implies i == j by {
            if i < ps.len() && j < ps.len() {
                assert(q[i] == ps[i] && q[j] == ps[j]);
            } else if i < ps.len() && j == ps.len() {
                assert(q[i] == ps[i] && q[j] == p);
                assert(puts_have_prop(ps, p.name@));
            } else if i == ps.len() && j < ps.len() {
                assert(q[i] == p && q[j] == ps[j]);
                assert(puts_have_prop(ps, p.name@));
            }
        }
    }
    if puts_unique(q) {
        assert forall|i: int, j: int|
            0 <= i < ps.len() && 0 <= j < ps.len() && (#[trigger] ps[i]).name@ == (
            #[trigger] ps[j]).name@ implies i == j by {
            assert(q[i] == ps[i] && q[j] == ps[j]);
        }
        if puts_have_prop(ps, p.name@) {
            let i = choose|i: int| 0 <= i < ps.len() && (#[trigger] ps[i]).name@ == p.name@;
            assert(q[i] == ps[i]);
            assert(q[ps.len() as int] == p);
            assert(false);
        }
    }
}

broadcast group group_put_lemmas {
    lemma_puts_have_prop_push,
    lemma_puts_have_text_push,
    lemma_puts_have_text_list1_push,
    lemma_puts_have_u16_push,
    lemma_puts_have_u32_push,
    lemma_puts_have_u64_push,
    lemma_puts_have_flag_push,
    lemma_puts_unique_push,
}

// ---------------------------------------------------------------------------
// VM system settings
// ---------------------------------------------------------------------------

/// `name` is one of the properties the system-settings document may carry.
pub open spec fn vm_settings_prop_allowed(s: VmSettings, name: Seq<char>) -> bool {
    ||| name == "ElementName"@
    ||| name == "VirtualSystemSubType"@
    ||| (name == "Notes"@ && s.notes is Some)
    ||| (name == "ConfigurationDataRoot"@ && s.config_path is Some)
    ||| (name == "SnapshotDataRoot"@ && s.snapshot_path is Some)
    ||| (name == "SwapFileDataRoot"@ && s.smart_paging_path is Some)
    ||| name == "AutomaticStartupAction"@
    ||| name == "AutomaticStartupActionDelay"@
    ||| name == "AutomaticShutdownAction"@
}

/// Build the system-settings document that defines a new VM: display name,
/// generation subtype, the optional storage roots and notes, and the
/// automatic start/stop behaviour.  Memory, processors and security are
/// configured through their own sub-documents afterwards.
pub fn vm_system_settings_document(s: &VmSettings) -> (d: ResourceDocument)
    ensures
        d.class@ == "Msvm_VirtualSystemSettingData"@,
        puts_unique(d.props@),
        puts_have_text(d.props@, "ElementName"@, s.name@),
        puts_have_text(d.props@, "VirtualSystemSubType"@, s.generation.spec_subtype()),
        s.notes matches Some(n) ==> puts_have_text(d.props@, "Notes"@, n@),
        s.config_path matches Some(p) ==> puts_have_text(d.props@, "ConfigurationDataRoot"@, p@),
        s.snapshot_path matches Some(p) ==> puts_have_text(d.props@, "SnapshotDataRoot"@, p@),
        s.smart_paging_path matches Some(p) ==> puts_have_text(d.props@, "SwapFileDataRoot"@, p@),
        puts_have_u16(
            d.props@,
            "AutomaticStartupAction"@,
            s.automatic_start_action.spec_to_value(),
        ),
        puts_have_u32(d.props@, "AutomaticStartupActionDelay"@, s.automatic_start_delay),
        puts_have_u16(
            d.props@,
            "AutomaticShutdownAction"@,
            s.automatic_stop_action.spec_to_value(),
        ),
        forall|i: int|
            0 <= i < d.props@.len() ==> vm_settings_prop_allowed(*s, (#[trigger] d.props@[i]).name@),
{
    broadcast use group_put_lemmas;

    proof {
        reveal_strlit("ElementName");
        reveal_strlit("VirtualSystemSubType");
        reveal_strlit("Notes");
        reveal_strlit("ConfigurationDataRoot");
        reveal_strlit("SnapshotDataRoot");
        reveal_strlit("SwapFileDataRoot");
        reveal_strlit("AutomaticStartupAction");
        reveal_strlit("AutomaticStartupActionDelay");
        reveal_strlit("AutomaticShutdownAction");
        assert("ElementName"@.len() == 11);
        assert("VirtualSystemSubType"@.len() == 20);
        assert("Notes"@.len() == 5);
        assert("ConfigurationDataRoot"@.len() == 21);
        assert("SnapshotDataRoot"@.len() == 16);
        assert("SwapFileDataRoot"@.len() == 16);
        assert("AutomaticStartupAction"@.len() == 22);
        assert("AutomaticStartupActionDelay"@.len() == 27);
        assert("AutomaticShutdownAction"@.len() == 23);
        assert("SnapshotDataRoot"@[1] == 'n' && "SwapFileDataRoot"@[1] == 'w');
    }
    let mut props: Vec<PropPut> = Vec::new();
    props.push(PropPut { name: "ElementName", value: PropValue::Text(s.name.clone()) });
    props.push(
        PropPut {
            name: "VirtualSystemSubType",
            value: PropValue::Text(String::from_str(s.generation.to_subtype())),
        },
    );
    if let Some(notes) = &s.notes {
        props.push(PropPut { name: "Notes", value: PropValue::Text(notes.clone()) });
    }
    if let Some(config_path) = &s.config_path {
        props.push(
            PropPut { name: "ConfigurationDataRoot", value: PropValue::Text(config_path.clone()) },
        );
    }
    if let Some(snapshot_path) = &s.snapshot_path {
        props.push(
            PropPut { name: "SnapshotDataRoot", value: PropValue::Text(snapshot_path.clone()) },
        );
    }
    if let Some(paging_path) = &s.smart_paging_path {
        props.push(
            PropPut { name: "SwapFileDataRoot", value: PropValue::Text(paging_path.clone()) },
        );
    }
    props.push(
        PropPut {
            name: "AutomaticStartupAction",
            value: PropValue::U16(s.automatic_start_action.to_value()),
        },
    );
    props.push(
        PropPut {
            name: "AutomaticStartupActionDelay",
            value: PropValue::U32(s.automatic_start_delay),
        },
    );
    props.push(
        PropPut {
            name: "AutomaticShutdownAction",
            value: PropValue::U16(s.automatic_stop_action.to_value()),
        },
    );
    ResourceDocument { class: "Msvm_VirtualSystemSettingData", props }
}

// ---------------------------------------------------------------------------
// Memory, processor and security sub-documents
// ---------------------------------------------------------------------------

/// Effective memory reservation: the dynamic minimum when dynamic memory
/// gives one, else the startup amount.
pub open spec fn spec_memory_reservation(s: VmSettings) -> u64 {
    if s.dynamic_memory && s.dynamic_memory_min_mb is Some {
        s.dynamic_memory_min_mb->0
    } else {
        s.memory_mb
    }
}

/// Effective memory limit: the dynamic maximum when dynamic memory gives
/// one, else the startup amount.
pub open spec fn spec_memory_limit(s: VmSettings) -> u64 {
    if s.dynamic_memory && s.dynamic_memory_max_mb is Some {
        s.dynamic_memory_max_mb->0
    } else {
        s.memory_mb
    }
}

/// `name` is one of the properties the memory update may carry.
pub open spec fn memory_prop_allowed(s: VmSettings, name: Seq<char>) -> bool {
    ||| name == "VirtualQuantity"@
    ||| name == "Reservation"@
    ||| name == "Limit"@
    ||| (name == "DynamicMemoryEnabled"@ && s.dynamic_memory)
    ||| (name == "TargetMemoryBuffer"@ && s.dynamic_memory && s.memory_buffer_percentage is Some)
}

/// Build the property updates for the VM's memory sub-document: the startup
/// quantity always; reservation and limit from the dynamic bounds when
/// dynamic memory provides them; the dynamic flag and buffer only when
/// dynamic memory is on.
pub fn memory_settings_updates(s: &VmSettings) -> (props: Vec<PropPut>)
    ensures
        puts_unique(props@),
        puts_have_u64(props@, "VirtualQuantity"@, s.memory_mb),
        puts_have_u64(props@, "Reservation"@, spec_memory_reservation(*s)),
        puts_have_u64(props@, "Limit"@, spec_memory_limit(*s)),
        s.dynamic_memory ==> puts_have_flag(props@, "DynamicMemoryEnabled"@, true),
        !s.dynamic_memory ==> !puts_have_prop(props@, "DynamicMemoryEnabled"@),
        s.dynamic_memory ==> (s.memory_buffer_percentage matches Some(b) ==> puts_have_u32(
            props@,
            "TargetMemoryBuffer"@,
            b,
        )),
        forall|i: int|
            0 <= i < props@.len() ==> memory_prop_allowed(*s, (#[trigger] props@[i]).name@),
{
    broadcast use group_put_lemmas;

    proof {
        reveal_strlit("VirtualQuantity");
        reveal_strlit("Reservation");
        reveal_strlit("Limit");
        reveal_strlit("DynamicMemoryEnabled");
        reveal_strlit("TargetMemoryBuffer");
        assert("VirtualQuantity"@.len() == 15);
        assert("Reservation"@.len() == 11);
        assert("Limit"@.len() == 5);
        assert("DynamicMemoryEnabled"@.len() == 20);
        assert("TargetMemoryBuffer"@.len() == 18);
    }
    let mut props: Vec<PropPut> = Vec::new();
    props.push(PropPut { name: "VirtualQuantity", value: PropValue::U64(s.memory_mb) });
    let reservation = if s.dynamic_memory {
        match s.dynamic_memory_min_mb {
            Some(min) => min,
            None => s.memory_mb,
        }
    } else {
        s.memory_mb
    };
    props.push(PropPut { name: "Reservation", value: PropValue::U64(reservation) });
    let limit = if s.dynamic_memory {
        match s.dynamic_memory_max_mb {
            Some(max) => max,
            None => s.memory_mb,
        }
    } else {
        s.memory_mb
    };
    props.push(PropPut { name: "Limit", value: PropValue::U64(limit) });
    if s.dynamic_memory {
        props.push(PropPut { name: "DynamicMemoryEnabled", value: PropValue::Flag(true) });
        if let Some(buffer) = s.memory_buffer_percentage {
            props.push(PropPut { name: "TargetMemoryBuffer", value: PropValue::U32(buffer) });
        }
    }
    props
}

/// `name` is one of the properties the processor update may carry.
pub open spec fn processor_prop_allowed(s: VmSettings, name: Seq<char>) -> bool {
    ||| name == "VirtualQuantity"@
    ||| (name == "ExposeVirtualizationExtensions"@ && s.nested_virtualization)
}

/// Build the property updates for the VM's processor sub-document: the
/// processor count, and the nested-virtualization flag only when requested.
pub fn processor_settings_updates(s: &VmSettings) -> (props: Vec<PropPut>)
    ensures
        puts_unique(props@),
        puts_have_u32(props@, "VirtualQuantity"@, s.processor_count),
        s.nested_virtualization ==> puts_have_flag(
            props@,
            "ExposeVirtualizationExtensions"@,
            true,
        ),
        !s.nested_virtualization ==> !puts_have_prop(props@, "ExposeVirtualizationExtensions"@),
        forall|i: int|
            0 <= i < props@.len() ==> processor_prop_allowed(*s, (#[trigger] props@[i]).name@),
{
    broadcast use group_put_lemmas;

    proof {
        reveal_strlit("VirtualQuantity");
        reveal_strlit("ExposeVirtualizationExtensions");
        assert("VirtualQuantity"@.len() == 15);
        assert("ExposeVirtualizationExtensions"@.len() == 30);
    }
    let mut props: Vec<PropPut> = Vec::new();
    props.push(PropPut { name: "VirtualQuantity", value: PropValue::U32(s.processor_count) });
    if s.nested_virtualization {
        props.push(
            PropPut { name: "ExposeVirtualizationExtensions", value: PropValue::Flag(true) },
        );
    }
    props
}

/// `name` is one of the properties the security update may carry.
pub open spec fn security_prop_allowed(s: VmSettings, name: Seq<char>) -> bool {
    ||| name == "SecureBootEnabled"@
    ||| (name == "SecureBootTemplateId"@ && s.secure_boot_template is Some)
    ||| (name == "TpmEnabled"@ && s.tpm_enabled)
}

/// Build the property updates for the VM's security sub-document: the
/// secure-boot flag, the template when given, and the TPM flag only when
/// enabled.
pub fn security_settings_updates(s: &VmSettings) -> (props: Vec<PropPut>)
    ensures
        puts_unique(props@),
        puts_have_flag(props@, "SecureBootEnabled"@, s.secure_boot),
        s.secure_boot_template matches Some(t) ==> puts_have_text(
            props@,
            "SecureBootTemplateId"@,
            t@,
        ),
        s.tpm_enabled ==> puts_have_flag(props@, "TpmEnabled"@, true),
        !s.tpm_enabled ==> !puts_have_prop(props@, "TpmEnabled"@),
        forall|i: int|
            0 <= i < props@.len() ==> security_prop_allowed(*s, (#[trigger] props@[i]).name@),
{
    broadcast use group_put_lemmas;

    proof {
        reveal_strlit("SecureBootEnabled");
        reveal_strlit("SecureBootTemplateId");
        reveal_strlit("TpmEnabled");
        assert("SecureBootEnabled"@.len() == 17);
        assert("SecureBootTemplateId"@.len() == 20);
        assert("TpmEnabled"@.len() == 10);
    }
    let mut props: Vec<PropPut> = Vec::new();
    props.push(PropPut { name: "SecureBootEnabled", value: PropValue::Flag(s.secure_boot) });
    if let Some(template) = &s.secure_boot_template {
        props.push(
            PropPut { name: "SecureBootTemplateId", value: PropValue::Text(template.clone()) },
        );
    }
    if s.tpm_enabled {
        props.push(PropPut { name: "TpmEnabled", value: PropValue::Flag(true) });
    }
    props
}

/// The UEFI-capable generation gets its security document configured exactly
/// when secure boot was requested.
pub fn needs_secure_boot_config(s: &VmSettings) -> (r: bool)
    ensures
        r == (s.generation is Gen2 && s.secure_boot),
{
    matches!(s.generation, Generation::Gen2) && s.secure_boot
}

/// The UEFI-capable generation gets a default synthetic controller added at
/// creation.
pub fn needs_default_scsi_controller(s: &VmSettings) -> (r: bool)
    ensures
        r == (s.generation is Gen2),
{
    matches!(s.generation, Generation::Gen2)
}

// ---------------------------------------------------------------------------
// Storage resources
// ---------------------------------------------------------------------------

/// Build the resource document of a synthetic SCSI controller.
pub fn scsi_controller_document() -> (d: ResourceDocument)
    ensures
        d.class@ == "Msvm_ResourceAllocationSettingData"@,
        puts_unique(d.props@),
        puts_have_text(d.props@, "ResourceType"@, "6"@),
        puts_have_text(d.props@, "ResourceSubType"@, "Microsoft:Hyper-V:Synthetic SCSI Controller"@),
        d.props@.len() == 2,
{
    broadcast use group_put_lemmas;

    proof {
        reveal_strlit("ResourceType");
        reveal_strlit("ResourceSubType");
        assert("ResourceType"@.len() == 12);
        assert("ResourceSubType"@.len() == 15);
    }
    let mut props: Vec<PropPut> = Vec::new();
    props.push(PropPut { name: "ResourceType", value: PropValue::Text(String::from_str("6")) });
    props.push(
        PropPut {
            name: "ResourceSubType",
            value: PropValue::Text(
                String::from_str("Microsoft:Hyper-V:Synthetic SCSI Controller"),
            ),
        },
    );
    ResourceDocument { class: "Msvm_ResourceAllocationSettingData", props }
}

/// Resource-type code string of a drive kind.
pub open spec fn spec_drive_resource_type(kind: DriveKind) -> Seq<char> {
    match kind {
        DriveKind::Disk => "22"@,
        DriveKind::Dvd => "16"@,
    }
}

/// Resource subtype string of a drive kind.
pub open spec fn spec_drive_resource_subtype(kind: DriveKind) -> Seq<char> {
    match kind {
        DriveKind::Disk => "Microsoft:Hyper-V:Synthetic Disk Drive"@,
        DriveKind::Dvd => "Microsoft:Hyper-V:Synthetic DVD Drive"@,
    }
}

/// Build the drive resource of the first attach phase: a synthetic disk or
/// DVD drive parented to the controller at the requested location.
pub fn drive_document(kind: DriveKind, controller_path: &str, location: u32) -> (d:
    ResourceDocument)
    ensures
        d.class@ == "Msvm_ResourceAllocationSettingData"@,
        puts_unique(d.props@),
        puts_have_text(d.props@, "ResourceType"@, spec_drive_resource_type(kind)),
        puts_have_text(d.props@, "ResourceSubType"@, spec_drive_resource_subtype(kind)),
        puts_have_text(d.props@, "Parent"@, controller_path@),
        puts_have_u32(d.props@, "AddressOnParent"@, location),
        d.props@.len() == 4,
{
    broadcast use group_put_lemmas;

    proof {
        reveal_strlit("ResourceType");
        reveal_strlit("ResourceSubType");
        reveal_strlit("Parent");
        reveal_strlit("AddressOnParent");
        assert("ResourceType"@.len() == 12);
        assert("ResourceSubType"@.len() == 15);
        assert("Parent"@.len() == 6);
        assert("AddressOnParent"@.len() == 15);
        assert("ResourceSubType"@[0] == 'R' && "AddressOnParent"@[0] == 'A');
    }
    let mut props: Vec<PropPut> = Vec::new();
    match kind {
        DriveKind::Disk => {
            props.push(
                PropPut { name: "ResourceType", value: PropValue::Text(String::from_str("22")) },
            );
            props.push(
                PropPut {
                    name: "ResourceSubType",
                    value: PropValue::Text(
                        String::from_str("Microsoft:Hyper-V:Synthetic Disk Drive"),
                    ),
                },
            );
        },
        DriveKind::Dvd => {
            props.push(
                PropPut { name: "ResourceType", value: PropValue::Text(String::from_str("16")) },
            );
            props.push(
                PropPut {
                    name: "ResourceSubType",
                    value: PropValue::Text(
                        String::from_str("Microsoft:Hyper-V:Synthetic DVD Drive"),
                    ),
                },
            );
        },
    }
    props.push(PropPut { name: "Parent", value: PropValue::Text(String::from_str(controller_path)) });
    props.push(PropPut { name: "AddressOnParent", value: PropValue::U32(location) });
    ResourceDocument { class: "Msvm_ResourceAllocationSettingData", props }
}

/// Build the storage-allocation resource of the second attach phase: it is
/// parented to the freshly found drive and references the media path as its
/// host resource.  This phase must not run when the first phase failed, so
/// no orphaned allocation is ever defined.
pub fn storage_allocation_document(drive_path: &str, media_path: &str) -> (d: ResourceDocument)
    ensures
        d.class@ == "Msvm_StorageAllocationSettingData"@,
        puts_unique(d.props@),
        puts_have_text(d.props@, "Parent"@, drive_path@),
        puts_have_text_list1(d.props@, "HostResource"@, media_path@),
        d.props@.len() == 2,
{
    broadcast use group_put_lemmas;

    proof {
        reveal_strlit("Parent");
        reveal_strlit("HostResource");
        assert("Parent"@.len() == 6);
        assert("HostResource"@.len() == 12);
    }
    let mut props: Vec<PropPut> = Vec::new();
    props.push(PropPut { name: "Parent", value: PropValue::Text(String::from_str(drive_path)) });
    let mut host: Vec<String> = Vec::new();
    host.push(String::from_str(media_path));
    props.push(PropPut { name: "HostResource", value: PropValue::TextList(host) });
    ResourceDocument { class: "Msvm_StorageAllocationSettingData", props }
}

// ---------------------------------------------------------------------------
// Network resources
// ---------------------------------------------------------------------------

/// `name` is one of the properties the adapter document may carry.
pub open spec fn adapter_prop_allowed(s: NetworkAdapterSettings, name: Seq<char>) -> bool {
    ||| (name == "ElementName"@ && s.name is Some)
    ||| name == "StaticMacAddress"@
    ||| (name == "Address"@ && s.mac_address is Some)
}

/// Build the synthetic adapter resource: optional display name, the
/// static-MAC flag (the negation of a dynamic MAC), and the address when a
/// static MAC was given.  The adapter has no parent; connecting it to a
/// switch is a separate step.
pub fn adapter_document(s: &NetworkAdapterSettings) -> (d: ResourceDocument)
    ensures
        d.class@ == "Msvm_SyntheticEthernetPortSettingData"@,
        puts_unique(d.props@),
        s.name matches Some(n) ==> puts_have_text(d.props@, "ElementName"@, n@),
        s.name is None ==> !puts_have_prop(d.props@, "ElementName"@),
        puts_have_flag(d.props@, "StaticMacAddress"@, !s.dynamic_mac),
        s.mac_address matches Some(m) ==> puts_have_text(d.props@, "Address"@, m@),
        s.mac_address is None ==> !puts_have_prop(d.props@, "Address"@),
        forall|i: int|
            0 <= i < d.props@.len() ==> adapter_prop_allowed(*s, (#[trigger] d.props@[i]).name@),
{
    broadcast use group_put_lemmas;

    proof {
        reveal_strlit("ElementName");
        reveal_strlit("StaticMacAddress");
        reveal_strlit("Address");
        assert("ElementName"@.len() == 11);
        assert("StaticMacAddress"@.len() == 16);
        assert("Address"@.len() == 7);
    }
    let mut props: Vec<PropPut> = Vec::new();
    if let Some(name) = &s.name {
        props.push(PropPut { name: "ElementName", value: PropValue::Text(name.clone()) });
    }
    props.push(PropPut { name: "StaticMacAddress", value: PropValue::Flag(!s.dynamic_mac) });
    if let Some(mac) = &s.mac_address {
        props.push(PropPut { name: "Address", value: PropValue::Text(mac.clone()) });
    }
    ResourceDocument { class: "Msvm_SyntheticEthernetPortSettingData", props }
}

/// Build the port-allocation resource that connects an adapter to a switch:
/// it is parented to the adapter and references the switch's settings path
/// as its host resource.
pub fn port_allocation_document(adapter_path: &str, switch_path: &str) -> (d: ResourceDocument)
    ensures
        d.class@ == "Msvm_EthernetPortAllocationSettingData"@,
        puts_unique(d.props@),
        puts_have_text(d.props@, "Parent"@, adapter_path@),
        puts_have_text_list1(d.props@, "HostResource"@, switch_path@),
        d.props@.len() == 2,
{
    broadcast use group_put_lemmas;

    proof {
        reveal_strlit("Parent");
        reveal_strlit("HostResource");
        assert("Parent"@.len() == 6);
        assert("HostResource"@.len() == 12);
    }
    let mut props: Vec<PropPut> = Vec::new();
    props.push(PropPut { name: "Parent", value: PropValue::Text(String::from_str(adapter_path)) });
    let mut host: Vec<String> = Vec::new();
    host.push(String::from_str(switch_path));
    props.push(PropPut { name: "HostResource", value: PropValue::TextList(host) });
    ResourceDocument { class: "Msvm_EthernetPortAllocationSettingData", props }
}

// ---------------------------------------------------------------------------
// Checkpoints
// ---------------------------------------------------------------------------

/// `name` is one of the properties the snapshot-settings document may
/// carry.
pub open spec fn snapshot_prop_allowed(s: CheckpointSettings, name: Seq<char>) -> bool {
    ||| name == "ElementName"@
    ||| (name == "Notes"@ && s.notes is Some)
    ||| name == "ConsistencyLevel"@
}

/// Build the snapshot-settings document of a checkpoint creation: the name,
/// optional notes, and the consistency level.
pub fn snapshot_settings_document(s: &CheckpointSettings) -> (d: ResourceDocument)
    ensures
        d.class@ == "Msvm_VirtualSystemSnapshotSettingData"@,
        puts_unique(d.props@),
        puts_have_text(d.props@, "ElementName"@, s.name@),
        s.notes matches Some(n) ==> puts_have_text(d.props@, "Notes"@, n@),
        s.notes is None ==> !puts_have_prop(d.props@, "Notes"@),
        puts_have_u16(d.props@, "ConsistencyLevel"@, s.consistency_level.spec_to_value()),
        forall|i: int|
            0 <= i < d.props@.len() ==> snapshot_prop_allowed(*s, (#[trigger] d.props@[i]).name@),
{
    broadcast use group_put_lemmas;

    proof {
        reveal_strlit("ElementName");
        reveal_strlit("Notes");
        reveal_strlit("ConsistencyLevel");
        assert("ElementName"@.len() == 11);
        assert("Notes"@.len() == 5);
        assert("ConsistencyLevel"@.len() == 16);
    }
    let mut props: Vec<PropPut> = Vec::new();
    props.push(PropPut { name: "ElementName", value: PropValue::Text(s.name.clone()) });
    if let Some(notes) = &s.notes {
        props.push(PropPut { name: "Notes", value: PropValue::Text(notes.clone()) });
    }
    props.push(
        PropPut { name: "ConsistencyLevel", value: PropValue::U16(s.consistency_level.to_value()) },
    );
    ResourceDocument { class: "Msvm_VirtualSystemSnapshotSettingData", props }
}

// ---------------------------------------------------------------------------
// Virtual hard disks
// ---------------------------------------------------------------------------

/// Numeric format code of a disk format in the image-management schema.
pub open spec fn spec_vhd_format_code(f: VhdFormat) -> u16 {
    match f {
        VhdFormat::Vhdx => 3,
        VhdFormat::Vhd => 2,
    }
}

/// `name` is one of the properties the disk-settings document may carry.
pub open spec fn vhd_prop_allowed(s: VhdSettings, name: Seq<char>) -> bool {
    ||| name == "Path"@
    ||| name == "Type"@
    ||| name == "Format"@
    ||| name == "MaxInternalSize"@
    ||| (name == "BlockSize"@ && s.block_size_bytes is Some)
    ||| (name == "LogicalSectorSize"@ && s.logical_sector_size is Some)
    ||| (name == "PhysicalSectorSize"@ && s.physical_sector_size is Some)
    ||| (name == "ParentPath"@ && s.parent_path is Some)
}

/// Build the disk-settings document that creates a virtual hard disk: path,
/// type and format codes, the maximum size, and the optional block, sector
/// and parent settings.
pub fn vhd_settings_document(s: &VhdSettings) -> (d: ResourceDocument)
    ensures
        d.class@ == "Msvm_VirtualHardDiskSettingData"@,
        puts_unique(d.props@),
        puts_have_text(d.props@, "Path"@, s.path@),
        puts_have_u16(d.props@, "Type"@, s.disk_type.spec_to_wmi_value()),
        puts_have_u16(d.props@, "Format"@, spec_vhd_format_code(s.format)),
        puts_have_u64(d.props@, "MaxInternalSize"@, s.size_bytes),
        s.block_size_bytes matches Some(b) ==> puts_have_u32(d.props@, "BlockSize"@, b),
        s.logical_sector_size matches Some(l) ==> puts_have_u32(d.props@, "LogicalSectorSize"@, l),
        s.physical_sector_size matches Some(p) ==> puts_have_u32(
            d.props@,
            "PhysicalSectorSize"@,
            p,
        ),
        s.parent_path matches Some(p) ==> puts_have_text(d.props@, "ParentPath"@, p@),
        forall|i: int|
            0 <= i < d.props@.len() ==> vhd_prop_allowed(*s, (#[trigger] d.props@[i]).name@),
{
    broadcast use group_put_lemmas;

    proof {
        reveal_strlit("Path");
        reveal_strlit("Type");
        reveal_strlit("Format");
        reveal_strlit("MaxInternalSize");
        reveal_strlit("BlockSize");
        reveal_strlit("LogicalSectorSize");
        reveal_strlit("PhysicalSectorSize");
        reveal_strlit("ParentPath");
        assert("Path"@.len() == 4);
        assert("Type"@.len() == 4);
        assert("Format"@.len() == 6);
        assert("MaxInternalSize"@.len() == 15);
        assert("BlockSize"@.len() == 9);
        assert("LogicalSectorSize"@.len() == 17);
        assert("PhysicalSectorSize"@.len() == 18);
        assert("ParentPath"@.len() == 10);
        assert("Path"@[0] == 'P' && "Type"@[0] == 'T');
    }
    let mut props: Vec<PropPut> = Vec::new();
    props.push(PropPut { name: "Path", value: PropValue::Text(s.path.clone()) });
    props.push(PropPut { name: "Type", value: PropValue::U16(s.disk_type.to_wmi_value()) });
    let format_code: u16 = if matches!(s.format, VhdFormat::Vhdx) {
        3
    } else {
        2
    };
    props.push(PropPut { name: "Format", value: PropValue::U16(format_code) });
    props.push(PropPut { name: "MaxInternalSize", value: PropValue::U64(s.size_bytes) });
    if let Some(block_size) = s.block_size_bytes {
        props.push(PropPut { name: "BlockSize", value: PropValue::U32(block_size) });
    }
    if let Some(logical) = s.logical_sector_size {
        props.push(PropPut { name: "LogicalSectorSize", value: PropValue::U32(logical) });
    }
    if let Some(physical) = s.physical_sector_size {
        props.push(PropPut { name: "PhysicalSectorSize", value: PropValue::U32(physical) });
    }
    if let Some(parent) = &s.parent_path {
        props.push(PropPut { name: "ParentPath", value: PropValue::Text(parent.clone()) });
    }
    ResourceDocument { class: "Msvm_VirtualHardDiskSettingData", props }
}

// ---------------------------------------------------------------------------
// Results that operations must hand back
// ---------------------------------------------------------------------------

/// The defined system returned by a successful VM definition; a definition
/// that returned none fails the operation.
pub fn resolve_resulting_system(resulting: Option<String>) -> (r: Result<String, Error>)
    ensures
        r is Ok <==> resulting is Some,
        r matches Ok(p) ==> p == resulting->0,
        r matches Err(e) ==> e matches Error::OperationFailed { operation, return_value, message }
            && operation@ == "DefineSystem"@ && return_value == 0
            && message@ == "No ResultingSystem returned"@,
{
    match resulting {
        Some(p) => Ok(p),
        None => Err(
            Error::OperationFailed {
                operation: "DefineSystem",
                return_value: 0,
                message: String::from_str("No ResultingSystem returned"),
            },
        ),
    }
}

/// The snapshot returned by a successful checkpoint creation; a creation
/// that returned none fails the operation.
pub fn resolve_resulting_snapshot(resulting: Option<String>) -> (r: Result<String, Error>)
    ensures
        r is Ok <==> resulting is Some,
        r matches Ok(p) ==> p == resulting->0,
        r matches Err(e) ==> e matches Error::OperationFailed { operation, return_value, message }
            && operation@ == "CreateSnapshot"@ && return_value == 0
            && message@ == "No ResultingSnapshot returned"@,
{
    match resulting {
        Some(p) => Ok(p),
        None => Err(
            Error::OperationFailed {
                operation: "CreateSnapshot",
                return_value: 0,
                message: String::from_str("No ResultingSnapshot returned"),
            },
        ),
    }
}

} // verus!
