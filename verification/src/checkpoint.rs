//! Checkpoints (snapshots): the checkpoint entity, its creation settings,
//! and the consistency level of production checkpoints.
//!
//! Checkpoints form an implicit tree via the parent ID; the root has none.

use vstd::prelude::*;
use vstd::string::StrSliceExecFns;
use vstd::string::StringExecFns;
use crate::error::Error;
use crate::settings::MAX_NAME_CHARS;
use crate::state::CheckpointType;

verus! {

/// A VM checkpoint (snapshot).
#[derive(Debug)]
pub struct Checkpoint {
    /// Checkpoint display name.
    pub name: String,
    /// Checkpoint unique ID.
    pub id: String,
    /// Associated VM ID.
    pub vm_id: String,
    /// Parent checkpoint ID; the root of the tree has none.
    pub parent_id: Option<String>,
    /// Creation time, as reported by the service.
    pub creation_time: String,
    /// Notes/description.
    pub notes: Option<String>,
    /// Document path of the checkpoint object.
    pub path: String,
}

impl Checkpoint {
    /// Assemble a checkpoint from the properties of its document,
    /// all-or-nothing: display name, instance ID and path are required; the
    /// VM ID and creation time default to empty, parent and notes stay
    /// optional.
    pub fn from_properties(
        name: Option<String>,
        id: Option<String>,
        vm_id: Option<String>,
        parent_id: Option<String>,
        creation_time: Option<String>,
        notes: Option<String>,
        path: Option<String>,
    ) -> (r: Result<Checkpoint, Error>)
        ensures
            r is Ok <==> name is Some && id is Some && path is Some,
            r matches Ok(c) ==> {
                &&& c.name == name->0
                &&& c.id == id->0
                &&& (vm_id matches Some(v) ==> c.vm_id == v)
                &&& (vm_id is None ==> c.vm_id@.len() == 0)
                &&& c.parent_id == parent_id
                &&& (creation_time matches Some(t) ==> c.creation_time == t)
                &&& (creation_time is None ==> c.creation_time@.len() == 0)
                &&& c.notes == notes
                &&& c.path == path->0
            },
            name is None ==> (r matches Err(e) && (e matches Error::MissingRequired(f)
                && f@ == "ElementName"@)),
            name is Some && id is None ==> (r matches Err(e)
                && (e matches Error::MissingRequired(f) && f@ == "InstanceID"@)),
            name is Some && id is Some && path is None ==> (r matches Err(e)
                && (e matches Error::MissingRequired(f) && f@ == "__PATH"@)),
    {
        let name = match name {
            Some(n) => n,
            None => {
                return Err(Error::MissingRequired("ElementName"));
            },
        };
        let id = match id {
            Some(i) => i,
            None => {
                return Err(Error::MissingRequired("InstanceID"));
            },
        };
        let path = match path {
            Some(p) => p,
            None => {
                return Err(Error::MissingRequired("__PATH"));
            },
        };
        let vm_id = match vm_id {
            Some(v) => v,
            None => String::new(),
        };
        let creation_time = match creation_time {
            Some(t) => t,
            None => String::new(),
        };
        Ok(Checkpoint { name, id, vm_id, parent_id, creation_time, notes, path })
    }

    /// Get the checkpoint name.
    pub fn name(&self) -> (r: &str)
        ensures
            r@ == self.name@,
    {
        self.name.as_str()
    }

    /// Get the checkpoint ID.
    pub fn id(&self) -> (r: &str)
        ensures
            r@ == self.id@,
    {
        self.id.as_str()
    }

    /// Get the document path of the checkpoint object.
    pub fn path(&self) -> (r: &str)
        ensures
            r@ == self.path@,
    {
        self.path.as_str()
    }
}

/// Consistency level for production checkpoints.
#[derive(Debug, Clone, Copy, PartialEq, Eq, Structural)]
pub enum ConsistencyLevel {
    /// Application-consistent (requires guest support).
    ApplicationConsistent,
    /// Crash-consistent (fallback when application consistency fails).
    CrashConsistent,
}

impl ConsistencyLevel {
    /// Numeric code of this consistency level.
    pub open spec fn spec_to_value(self) -> u16 {
        match self {
            ConsistencyLevel::ApplicationConsistent => 1,
            ConsistencyLevel::CrashConsistent => 2,
        }
    }

    /// Numeric code of this consistency level.
    pub fn to_value(&self) -> (v: u16)
        ensures
            v == self.spec_to_value(),
    {
        match self {
            ConsistencyLevel::ApplicationConsistent => 1,
            ConsistencyLevel::CrashConsistent => 2,
        }
    }
}

impl Default for ConsistencyLevel {
    /// Application consistency is the default.
    fn default() -> (r: Self)
        ensures
            r == ConsistencyLevel::ApplicationConsistent,
    {
        ConsistencyLevel::ApplicationConsistent
    }
}

/// Settings for creating a checkpoint.
#[derive(Debug, Clone)]
pub struct CheckpointSettings {
    /// Checkpoint name.
    pub name: String,
    /// Notes/description.
    pub notes: Option<String>,
    /// Checkpoint type.
    pub checkpoint_type: CheckpointType,
    /// Consistency level (for production checkpoints).
    pub consistency_level: ConsistencyLevel,
}

impl CheckpointSettings {
    /// The settings are legal: the name is nonempty and at most 100
    /// characters.
    pub open spec fn spec_valid(self) -> bool {
        0 < self.name@.len() <= MAX_NAME_CHARS
    }

    /// Field and message of the first validation check that fails.
    pub open spec fn spec_validation_error(self) -> (Seq<char>, Seq<char>) {
        if self.name@.len() == 0 {
            ("name"@, "Checkpoint name cannot be empty"@)
        } else if self.name@.len() > MAX_NAME_CHARS {
            ("name"@, "Checkpoint name cannot exceed 100 characters"@)
        } else {
            (Seq::empty(), Seq::empty())
        }
    }

    /// Create a new builder.
    pub fn builder() -> (b: CheckpointSettingsBuilder)
        ensures
            b == CheckpointSettingsBuilder::spec_empty(),
    {
        CheckpointSettingsBuilder::new()
    }

    /// Validate the settings: succeeds exactly on legal settings, and
    /// otherwise reports the first violated rule as a validation error.
    pub fn validate(&self) -> (r: Result<(), Error>)
        ensures
            r is Ok <==> self.spec_valid(),
            r matches Err(e) ==> e matches Error::Validation { field, message }
                && field@ == self.spec_validation_error().0
                && message@ == self.spec_validation_error().1,
    {
        let name_len = self.name.as_str().unicode_len();
        if name_len == 0 {
            return Err(Error::Validation {
                field: "name",
                message: String::from_str("Checkpoint name cannot be empty"),
            });
        }
        if name_len > MAX_NAME_CHARS {
            return Err(Error::Validation {
                field: "name",
                message: String::from_str("Checkpoint name cannot exceed 100 characters"),
            });
        }
        Ok(())
    }
}

/// Builder for [`CheckpointSettings`].
#[derive(Debug)]
pub struct CheckpointSettingsBuilder {
    pub name: Option<String>,
    pub notes: Option<String>,
    pub checkpoint_type: CheckpointType,
    pub consistency_level: ConsistencyLevel,
}

impl CheckpointSettingsBuilder {
    /// The builder with nothing set.
    pub open spec fn spec_empty() -> CheckpointSettingsBuilder {
        CheckpointSettingsBuilder {
            name: None,
            notes: None,
            checkpoint_type: CheckpointType::Production,
            consistency_level: ConsistencyLevel::ApplicationConsistent,
        }
    }

    /// Start from an empty builder.
    pub fn new() -> (b: Self)
        ensures
            b == Self::spec_empty(),
    {
        CheckpointSettingsBuilder {
            name: None,
            notes: None,
            checkpoint_type: CheckpointType::Production,
            consistency_level: ConsistencyLevel::ApplicationConsistent,
        }
    }

    /// Set the checkpoint name (required).
    pub fn name(self, name: &str) -> (r: Self)
        ensures
            r.name matches Some(n) && n@ == name@,
            r == (CheckpointSettingsBuilder { name: r.name, ..self }),
    {
        CheckpointSettingsBuilder { name: Some(String::from_str(name)), ..self }
    }

    /// Set the notes/description.
    pub fn notes(self, notes: &str) -> (r: Self)
        ensures
            r.notes matches Some(n) && n@ == notes@,
            r == (CheckpointSettingsBuilder { notes: r.notes, ..self }),
    {
        CheckpointSettingsBuilder { notes: Some(String::from_str(notes)), ..self }
    }

    /// Set the checkpoint type.
    pub fn checkpoint_type(self, checkpoint_type: CheckpointType) -> (r: Self)
        ensures
            r == (CheckpointSettingsBuilder { checkpoint_type: checkpoint_type, ..self }),
    {
        CheckpointSettingsBuilder { checkpoint_type, ..self }
    }

    /// Set the consistency level.
    pub fn consistency_level(self, level: ConsistencyLevel) -> (r: Self)
        ensures
            r == (CheckpointSettingsBuilder { consistency_level: level, ..self }),
    {
        CheckpointSettingsBuilder { consistency_level: level, ..self }
    }

    /// The settings value this builder assembles, once the name is present.
    pub open spec fn spec_settings(self) -> CheckpointSettings {
        CheckpointSettings {
            name: self.name->0,
            notes: self.notes,
            checkpoint_type: self.checkpoint_type,
            consistency_level: self.consistency_level,
        }
    }

    /// Build and validate the settings.  Fails with `MissingRequired` when
    /// no name was set, and with the validation error of the assembled
    /// settings when they are not legal; otherwise returns exactly the
    /// assembled settings.
    pub fn build(self) -> (r: Result<CheckpointSettings, Error>)
        ensures
            r is Ok <==> self.name is Some && self.spec_settings().spec_valid(),
            r matches Ok(s) ==> s == self.spec_settings(),
            self.name is None
                ==> (r matches Err(e) && (e matches Error::MissingRequired(g) && g@ == "name"@)),
            self.name is Some && !self.spec_settings().spec_valid()
                ==> (r matches Err(e) && (e matches Error::Validation { field, message }
                    && field@ == self.spec_settings().spec_validation_error().0
                    && message@ == self.spec_settings().spec_validation_error().1)),
    {
        let name = match self.name {
            Some(n) => n,
            None => {
                return Err(Error::MissingRequired("name"));
            },
        };
        let settings = CheckpointSettings {
            name,
            notes: self.notes,
            checkpoint_type: self.checkpoint_type,
            consistency_level: self.consistency_level,
        };
        match settings.validate() {
            Ok(()) => Ok(settings),
            Err(e) => Err(e),
        }
    }
}

} // verus!
