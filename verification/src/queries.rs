//! The declarative query surface of the management service.
//!
//! Flat lookups are `SELECT * FROM <Class> WHERE <predicate>` queries;
//! graph traversal uses `ASSOCIATORS OF {<path>}` with an association and a
//! result class.  Name arguments supplied by callers are embedded with their
//! single quotes doubled, so a name can never break out of its quoted
//! position; identifiers and document paths produced by the service itself
//! are embedded as they came.

use vstd::prelude::*;
use vstd::string::StrSliceExecFns;
use vstd::string::StringExecFns;

verus! {

/// `s` with every single quote doubled.
pub open spec fn escaped_quotes(s: Seq<char>) -> Seq<char>
    decreases s.len(),
{
    if s.len() == 0 {
        Seq::empty()
    } else {
        escaped_quotes(s.drop_last()) + if s.last() == '\'' {
            seq!['\'', '\'']
        } else {
            seq![s.last()]
        }
    }
}

/// Double every single quote of `s`.
pub fn escape_single_quotes(s: &str) -> (r: String)
    ensures
        r@ == escaped_quotes(s@),
{
    let n = s.unicode_len();
    let mut out = String::new();
    let mut i: usize = 0;
    while i < n
        invariant
            n == s@.len(),
            i <= n,
            out@ == escaped_quotes(s@.subrange(0, i as int)),
        decreases n - i,
    {
        proof {
            assert(s@.subrange(0, i + 1).drop_last() =~= s@.subrange(0, i as int));
            assert(s@.subrange(0, i + 1).last() == s@[i as int]);
        }
        let c = s.get_char(i);
        if c == '\'' {
            out.append("''");
            proof {
                reveal_strlit("''");
                assert("''"@ =~= seq!['\'', '\'']);
            }
        } else {
            let piece = s.substring_char(i, i + 1);
            proof {
                assert(piece@ =~= seq![s@[i as int]]);
            }
            out.append(piece);
        }
        i += 1;
    }
    proof {
        assert(s@.subrange(0, n as int) =~= s@);
    }
    out
}

/// Query for all virtual machines.
pub fn list_vms_query() -> (r: &'static str)
    ensures
        r@ == "SELECT * FROM Msvm_ComputerSystem WHERE Caption = 'Virtual Machine'"@,
{
    "SELECT * FROM Msvm_ComputerSystem WHERE Caption = 'Virtual Machine'"
}

/// Query for the VM with the given display name (escaped).
pub fn vm_by_name_query(name: &str) -> (r: String)
    ensures
        r@ == "SELECT * FROM Msvm_ComputerSystem WHERE Caption = 'Virtual Machine' AND ElementName = '"@
            + escaped_quotes(name@) + "'"@,
{
    let mut q = String::from_str(
        "SELECT * FROM Msvm_ComputerSystem WHERE Caption = 'Virtual Machine' AND ElementName = '",
    );
    let escaped = escape_single_quotes(name);
    q.append(escaped.as_str());
    q.append("'");
    q
}

/// Query for the VM with the given unique identifier (escaped).
pub fn vm_by_id_query(id: &str) -> (r: String)
    ensures
        r@ == "SELECT * FROM Msvm_ComputerSystem WHERE Caption = 'Virtual Machine' AND Name = '"@
            + escaped_quotes(id@) + "'"@,
{
    let mut q = String::from_str(
        "SELECT * FROM Msvm_ComputerSystem WHERE Caption = 'Virtual Machine' AND Name = '",
    );
    let escaped = escape_single_quotes(id);
    q.append(escaped.as_str());
    q.append("'");
    q
}

/// Query for the management service object.
pub fn management_service_query() -> (r: &'static str)
    ensures
        r@ == "SELECT * FROM Msvm_VirtualSystemManagementService"@,
{
    "SELECT * FROM Msvm_VirtualSystemManagementService"
}

/// Query for the image management service object.
pub fn image_service_query() -> (r: &'static str)
    ensures
        r@ == "SELECT * FROM Msvm_ImageManagementService"@,
{
    "SELECT * FROM Msvm_ImageManagementService"
}

/// Query for all virtual switches.
pub fn list_switches_query() -> (r: &'static str)
    ensures
        r@ == "SELECT * FROM Msvm_VirtualEthernetSwitch"@,
{
    "SELECT * FROM Msvm_VirtualEthernetSwitch"
}

/// Query for the switch with the given display name (escaped).
pub fn switch_by_name_query(name: &str) -> (r: String)
    ensures
        r@ == "SELECT * FROM Msvm_VirtualEthernetSwitch WHERE ElementName = '"@ + escaped_quotes(
            name@,
        ) + "'"@,
{
    let mut q = String::from_str("SELECT * FROM Msvm_VirtualEthernetSwitch WHERE ElementName = '");
    let escaped = escape_single_quotes(name);
    q.append(escaped.as_str());
    q.append("'");
    q
}

/// Query for the settings document of the switch with the given identifier.
pub fn switch_settings_query(switch_id: &str) -> (r: String)
    ensures
        r@ == "SELECT * FROM Msvm_VirtualEthernetSwitchSettingData WHERE VirtualSystemIdentifier = '"@
            + switch_id@ + "'"@,
{
    let mut q = String::from_str(
        "SELECT * FROM Msvm_VirtualEthernetSwitchSettingData WHERE VirtualSystemIdentifier = '",
    );
    q.append(switch_id);
    q.append("'");
    q
}

/// Object reference of the VM with the given identifier, as operations and
/// traversals name it.
pub fn vm_reference(vm_id: &str) -> (r: String)
    ensures
        r@ == "Msvm_ComputerSystem.CreationClassName='Msvm_ComputerSystem',Name='"@ + vm_id@
            + "'"@,
{
    let mut q = String::from_str("Msvm_ComputerSystem.CreationClassName='Msvm_ComputerSystem',Name='");
    q.append(vm_id);
    q.append("'");
    q
}

/// Traversal from a VM to its settings document.
pub fn vm_settings_query(vm_id: &str) -> (r: String)
    ensures
        r@ == "ASSOCIATORS OF {Msvm_ComputerSystem.CreationClassName='Msvm_ComputerSystem',Name='"@
            + vm_id@
            + "'} WHERE AssocClass=Msvm_SettingsDefineState ResultClass=Msvm_VirtualSystemSettingData"@,
{
    let mut q = String::from_str(
        "ASSOCIATORS OF {Msvm_ComputerSystem.CreationClassName='Msvm_ComputerSystem',Name='",
    );
    q.append(vm_id);
    q.append(
        "'} WHERE AssocClass=Msvm_SettingsDefineState ResultClass=Msvm_VirtualSystemSettingData",
    );
    q
}

/// Traversal from a settings document to its memory sub-document.
pub fn memory_settings_query(settings_path: &str) -> (r: String)
    ensures
        r@ == "ASSOCIATORS OF {"@ + settings_path@
            + "} WHERE ResultClass=Msvm_MemorySettingData"@,
{
    let mut q = String::from_str("ASSOCIATORS OF {");
    q.append(settings_path);
    q.append("} WHERE ResultClass=Msvm_MemorySettingData");
    q
}

/// Traversal from a settings document to its processor sub-document.
pub fn processor_settings_query(settings_path: &str) -> (r: String)
    ensures
        r@ == "ASSOCIATORS OF {"@ + settings_path@
            + "} WHERE ResultClass=Msvm_ProcessorSettingData"@,
{
    let mut q = String::from_str("ASSOCIATORS OF {");
    q.append(settings_path);
    q.append("} WHERE ResultClass=Msvm_ProcessorSettingData");
    q
}

/// Traversal from a settings document to its security sub-document.
pub fn security_settings_query(settings_path: &str) -> (r: String)
    ensures
        r@ == "ASSOCIATORS OF {"@ + settings_path@
            + "} WHERE ResultClass=Msvm_SecuritySettingData"@,
{
    let mut q = String::from_str("ASSOCIATORS OF {");
    q.append(settings_path);
    q.append("} WHERE ResultClass=Msvm_SecuritySettingData");
    q
}

/// Traversal from a settings document to the VM's resource list.
pub fn resources_query(settings_path: &str) -> (r: String)
    ensures
        r@ == "ASSOCIATORS OF {"@ + settings_path@
            + "} WHERE ResultClass=Msvm_ResourceAllocationSettingData"@,
{
    let mut q = String::from_str("ASSOCIATORS OF {");
    q.append(settings_path);
    q.append("} WHERE ResultClass=Msvm_ResourceAllocationSettingData");
    q
}

/// Query for the realized checkpoints of the VM with the given identifier.
pub fn checkpoints_query(vm_id: &str) -> (r: String)
    ensures
        r@ == "SELECT * FROM Msvm_VirtualSystemSettingData WHERE VirtualSystemType = 'Microsoft:Hyper-V:Snapshot:Realized' AND VirtualSystemIdentifier = '"@
            + vm_id@ + "'"@,
{
    let mut q = String::from_str(
        "SELECT * FROM Msvm_VirtualSystemSettingData WHERE VirtualSystemType = 'Microsoft:Hyper-V:Snapshot:Realized' AND VirtualSystemIdentifier = '",
    );
    q.append(vm_id);
    q.append("'");
    q
}

/// Traversal from a VM to its synthetic network adapters.
pub fn adapters_query(vm_id: &str) -> (r: String)
    ensures
        r@ == "ASSOCIATORS OF {Msvm_ComputerSystem.CreationClassName='Msvm_ComputerSystem',Name='"@
            + vm_id@
            + "'} WHERE AssocClass=Msvm_SystemDevice ResultClass=Msvm_SyntheticEthernetPortSettingData"@,
{
    let mut q = String::from_str(
        "ASSOCIATORS OF {Msvm_ComputerSystem.CreationClassName='Msvm_ComputerSystem',Name='",
    );
    q.append(vm_id);
    q.append(
        "'} WHERE AssocClass=Msvm_SystemDevice ResultClass=Msvm_SyntheticEthernetPortSettingData",
    );
    q
}

/// Query for the in-guest shutdown capability of the VM with the given
/// identifier.
pub fn shutdown_component_query(vm_id: &str) -> (r: String)
    ensures
        r@ == "SELECT * FROM Msvm_ShutdownComponent WHERE SystemName='"@ + vm_id@ + "'"@,
{
    let mut q = String::from_str("SELECT * FROM Msvm_ShutdownComponent WHERE SystemName='");
    q.append(vm_id);
    q.append("'");
    q
}

} // verus!
