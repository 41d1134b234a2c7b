//! Deciding what to do with the manifest that is already in the bucket.
//!
//! Two manifests describe the same build when their hashes are equal. The
//! version only tells an update from a mistake: a binary that changed under
//! an unchanged version is refused.

use crate::manifest::{Manifest, ManifestView};
use vstd::prelude::*;

verus! {

/// What a run does with the manifest file of a package.
#[derive(Clone, Copy, Debug, PartialEq, Eq, Structural)]
pub enum Action {
    /// No usable manifest is there: write a new one.
    Create,
    /// The binary and its version both changed: overwrite the manifest.
    Update,
    /// The binary is the one the manifest already describes: write nothing.
    NoOp,
    /// The binary changed under an unchanged version: refuse to write.
    Conflict,
}

/// Why a manifest was not reconciled.
#[derive(Clone, Copy, Debug, PartialEq, Eq, Structural)]
pub enum ReconcileError {
    /// The hashes differ, yet the version is the one already published.
    VersionNotBumped,
}

/// How a run that went through ended.
#[derive(Clone, Copy, Debug, PartialEq, Eq, Structural)]
pub enum Report {
    /// The manifest was overwritten.
    Updated,
    /// The manifest was written anew.
    Created,
    /// The manifest was written for inspection, whatever was there.
    CreatedForDebugging,
    /// Nothing called for a write.
    Undetermined,
}

/// What a run found where the manifest of the package is kept.
#[derive(Debug, PartialEq, Eq)]
pub enum Persisted {
    /// No file is there.
    Missing,
    /// A file is there that could not be read.
    Unreadable,
    /// A file is there that is not a manifest.
    Corrupt,
    /// The manifest that is there.
    Found(Manifest),
}

/// The persisted manifest, for the rules that need one.
pub open spec fn value_of(existing: Option<&Manifest>) -> Option<ManifestView> {
    match existing {
        Some(manifest) => Some(manifest@),
        None => None,
    }
}

impl Persisted {
    /// The manifest that was found, if one was: a file that is missing,
    /// unreadable or corrupt counts as none.
    pub open spec fn spec_manifest(&self) -> Option<&Manifest> {
        match self {
            Persisted::Found(manifest) => Some(manifest),
            _ => None,
        }
    }

    /// The value of the manifest that was found, if one was.
    pub open spec fn found(&self) -> Option<ManifestView> {
        value_of(self.spec_manifest())
    }

    /// The manifest that was found, if one was.
    #[verifier::when_used_as_spec(spec_manifest)]
    pub fn manifest(&self) -> (manifest: Option<&Manifest>)
        ensures
            manifest == self.spec_manifest(),
    {
        match self {
            Persisted::Found(manifest) => Some(manifest),
            Persisted::Missing | Persisted::Unreadable | Persisted::Corrupt => None,
        }
    }
}

/// The action that a fresh manifest calls for, given the persisted one.
pub open spec fn decision(fresh: ManifestView, existing: Option<ManifestView>) -> Action {
    match existing {
        None => Action::Create,
        Some(persisted) => if persisted.hash == fresh.hash {
            Action::NoOp
        } else if persisted.version == fresh.version {
            Action::Conflict
        } else {
            Action::Update
        },
    }
}

/// The action of a run: a debugging run creates, whatever is persisted.
pub open spec fn planned(
    fresh: ManifestView,
    existing: Option<ManifestView>,
    debug: bool,
) -> Action {
    if debug {
        Action::Create
    } else {
        decision(fresh, existing)
    }
}

/// How a check that comes to `action` ends: a conflict is the one error.
pub open spec fn outcome_of(action: Action) -> Result<(), ReconcileError> {
    if action is Conflict {
        Err(ReconcileError::VersionNotBumped)
    } else {
        Ok(())
    }
}

/// What is persisted once `action` has been carried out for `fresh`.
pub open spec fn persisted_after(
    action: Action,
    fresh: ManifestView,
    existing: Option<ManifestView>,
) -> Option<ManifestView> {
    match action {
        Action::Create | Action::Update => Some(fresh),
        Action::NoOp | Action::Conflict => existing,
    }
}

impl Action {
    /// Whether the action writes the manifest file.
    pub open spec fn spec_writes(self) -> bool {
        self is Create || self is Update
    }

    /// Whether the action writes the manifest file.
    #[verifier::when_used_as_spec(spec_writes)]
    pub fn writes(self) -> (writes: bool)
        ensures
            writes == self.spec_writes(),
    {
        match self {
            Action::Create | Action::Update => true,
            Action::NoOp | Action::Conflict => false,
        }
    }

    /// The exit code of a run that ends in this action: zero unless the
    /// action is a conflict.
    pub fn exit_code(self) -> (code: u8)
        ensures
            code == (if self is Conflict { 1u8 } else { 0u8 }),
    {
        match self {
            Action::Conflict => 1,
            Action::Create | Action::Update | Action::NoOp => 0,
        }
    }
}

impl ReconcileError {
    /// The one-line cause, as the operator reads it.
    pub fn message(&self) -> (text: String)
        ensures
            text@
                == "Unable to update manifest. Hashes don't match, yet, app's version wasn't changed. \nPlease, update your app's version."@,
    {
        "Unable to update manifest. Hashes don't match, yet, app's version wasn't changed. \nPlease, update your app's version.".to_owned()
    }
}

/// Decides what to do with a fresh manifest, given the persisted one.
pub fn decide(fresh: &Manifest, existing: Option<&Manifest>) -> (action: Action)
    ensures
        action == decision(fresh@, value_of(existing)),
{
    match existing {
        None => Action::Create,
        Some(persisted) => {
            if persisted.hash == fresh.hash {
                Action::NoOp
            } else if persisted.version == fresh.version {
                Action::Conflict
            } else {
                Action::Update
            }
        },
    }
}

/// Decides what a run does: a debugging run creates without looking at what
/// is persisted.
pub fn plan(fresh: &Manifest, existing: Option<&Manifest>, debug: bool) -> (action: Action)
    ensures
        action == planned(fresh@, value_of(existing), debug),
{
    if debug {
        Action::Create
    } else {
        decide(fresh, existing)
    }
}

/// Should manifest be updated?
#[derive(Clone, Copy, Debug, PartialEq, Eq, Structural)]
pub struct Status {
    pub update: bool,
    pub create: bool,
}

impl Status {
    /// A status with neither flag raised.
    pub fn new() -> (status: Self)
        ensures
            !status.update,
            !status.create,
    {
        Self { update: false, create: false }
    }

    /// The status once `action` is noted: the flag of a write that is due is
    /// raised, and a flag that is up stays up.
    pub open spec fn noting(self, action: Action) -> Status {
        Status {
            update: self.update || action is Update,
            create: self.create || action is Create,
        }
    }

    /// Checks whether the persisted manifest needs updating, and raises the
    /// flag of the write that is due. A conflict is the one error.
    pub fn check(
        &mut self,
        new_manifest: &Manifest,
        persisted: &Persisted,
    ) -> (checked: Result<(), ReconcileError>)
        ensures
            *final(self) == old(self).noting(decision(new_manifest@, persisted.found())),
            checked == outcome_of(decision(new_manifest@, persisted.found())),
    {
        match decide(new_manifest, persisted.manifest()) {
            Action::Create => {
                self.create = true;
                Ok(())
            },
            Action::Update => {
                self.update = true;
                Ok(())
            },
            Action::NoOp => Ok(()),
            Action::Conflict => Err(ReconcileError::VersionNotBumped),
        }
    }

    /// How the run ended: a raised `update` is reported before a raised
    /// `create`, and a debugging run that raised neither still wrote.
    pub open spec fn spec_report(self, debug: bool) -> Report {
        if self.update {
            Report::Updated
        } else if self.create {
            Report::Created
        } else if debug {
            Report::CreatedForDebugging
        } else {
            Report::Undetermined
        }
    }

    /// How the run ended.
    #[verifier::when_used_as_spec(spec_report)]
    pub fn report(self, debug: bool) -> (report: Report)
        ensures
            report == self.spec_report(debug),
    {
        if self.update {
            Report::Updated
        } else if self.create {
            Report::Created
        } else if debug {
            Report::CreatedForDebugging
        } else {
            Report::Undetermined
        }
    }

    /// Whether the manifest is to be written.
    pub fn should_write(self, debug: bool) -> (write: bool)
        ensures
            write == (self.update || self.create || debug),
            write == !(self.spec_report(debug) is Undetermined),
    {
        self.update || self.create || debug
    }
}

/// A binary whose digest is the persisted one needs no write, whatever else
/// differs between the two manifests.
pub proof fn unchanged_digest_needs_no_write(fresh: ManifestView, persisted: ManifestView)
    requires
        persisted.hash == fresh.hash,
    ensures
        decision(fresh, Some(persisted)) == Action::NoOp,
{
}

/// A changed digest under a changed version is an update.
pub proof fn changed_digest_and_version_update(fresh: ManifestView, persisted: ManifestView)
    requires
        persisted.hash != fresh.hash,
        persisted.version != fresh.version,
    ensures
        decision(fresh, Some(persisted)) == Action::Update,
{
}

/// A changed digest under an unchanged version is a conflict.
pub proof fn changed_digest_same_version_conflicts(fresh: ManifestView, persisted: ManifestView)
    requires
        persisted.hash != fresh.hash,
        persisted.version == fresh.version,
    ensures
        decision(fresh, Some(persisted)) == Action::Conflict,
{
}

/// Without a persisted manifest the fresh one is created: where the file
/// is missing, where it cannot be read and where it is not a manifest.
pub proof fn nothing_persisted_creates(fresh: ManifestView, persisted: Persisted)
    requires
        !(persisted is Found),
    ensures
        decision(fresh, None) == Action::Create,
        decision(fresh, persisted.found()) == Action::Create,
{
}

/// Running again on the same build writes nothing: once the action of a run
/// has been carried out, the same fresh manifest calls for `NoOp`, unless
/// the run ended in a conflict, which then comes again.
pub proof fn second_run_is_idle(fresh: ManifestView, existing: Option<ManifestView>)
    ensures
        ({
            let first = decision(fresh, existing);
            let second = decision(fresh, persisted_after(first, fresh, existing));
            if first is Conflict {
                second is Conflict
            } else {
                second is NoOp
            }
        }),
{
}

/// A debugging run always creates.
pub proof fn debugging_run_creates(fresh: ManifestView, existing: Option<ManifestView>)
    ensures
        planned(fresh, existing, true) == Action::Create,
        planned(fresh, existing, false) == decision(fresh, existing),
{
}

/// A run that starts with no flag raised writes exactly if the action it
/// notes is a write, and its report names that write.
pub proof fn unraised_status_follows_the_action(action: Action)
    ensures
        ({
            let status = (Status { update: false, create: false }).noting(action);
            &&& (status.update || status.create) == action.spec_writes()
            &&& status.spec_report(false) == match action {
                Action::Update => Report::Updated,
                Action::Create => Report::Created,
                Action::NoOp | Action::Conflict => Report::Undetermined,
            }
        }),
{
}

} // verus!
