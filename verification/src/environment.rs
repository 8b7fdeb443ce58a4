//! Restricted desktop environments need a compatible clipboard backend,
//! selected once and before the clipboard is opened. This module keeps track
//! of where the process is in that sequence; the host applies the selection.

use vstd::prelude::*;

verus! {

/// The signs of a sandbox that the process finds around itself.
#[derive(Clone, Copy, Debug, PartialEq, Eq, Structural)]
pub struct SandboxMarkers {
    /// The process runs inside a Flatpak.
    pub flatpak: bool,
    /// The process runs inside a Snap.
    pub snap: bool,
    /// The process runs from an AppImage.
    pub app_image: bool,
}

/// An environment is restricted if any sign of a sandbox is present.
pub open spec fn spec_is_restricted(markers: SandboxMarkers) -> bool {
    markers.flatpak || markers.snap || markers.app_image
}

/// Whether the environment is restricted.
pub fn detect_restricted_environment(markers: SandboxMarkers) -> (r: bool)
    ensures
        r == spec_is_restricted(markers),
{
    markers.flatpak || markers.snap || markers.app_image
}

/// How far the process has got with its clipboard backend.
#[derive(Clone, Copy, Debug, PartialEq, Eq, Structural)]
pub enum BackendPhase {
    /// Nothing was selected and the clipboard is not open.
    Untouched,
    /// The compatible backend was selected; the clipboard is not open.
    Configured,
    /// The clipboard was opened; a selection would come too late.
    AccessorBuilt,
}

/// Whether a call to configure has effect: only in a restricted environment
/// and only while nothing was selected and the clipboard is not open.
pub open spec fn spec_takes_effect(phase: BackendPhase, restricted: bool) -> bool {
    restricted && phase == BackendPhase::Untouched
}

/// The phase after a call to configure.
pub open spec fn spec_after_configure(phase: BackendPhase, restricted: bool) -> BackendPhase {
    if spec_takes_effect(phase, restricted) {
        BackendPhase::Configured
    } else {
        phase
    }
}

/// Tracks the selection of the clipboard backend.
#[derive(Clone, Copy, Debug, PartialEq, Eq, Structural)]
pub struct EnvironmentAdapter {
    pub phase: BackendPhase,
}

impl EnvironmentAdapter {
    /// The adapter of a process that has not touched the clipboard.
    pub fn new() -> (r: EnvironmentAdapter)
        ensures
            r.phase == BackendPhase::Untouched,
    {
        EnvironmentAdapter { phase: BackendPhase::Untouched }
    }

    /// Asks for the compatible backend. `restricted` says whether the
    /// environment is restricted. The result tells the host whether to apply
    /// the selection now; it is `true` at most once.
    pub fn configure_compatible_backend(&mut self, restricted: bool) -> (apply: bool)
        ensures
            apply == spec_takes_effect(old(self).phase, restricted),
            final(self).phase == spec_after_configure(old(self).phase, restricted),
    {
        let apply = restricted && self.phase == BackendPhase::Untouched;
        if apply {
            self.phase = BackendPhase::Configured;
        }
        apply
    }

    /// Records that the clipboard was opened.
    pub fn accessor_constructed(&mut self)
        ensures
            final(self).phase == BackendPhase::AccessorBuilt,
    {
        self.phase = BackendPhase::AccessorBuilt;
    }
}

/// Configuring is idempotent: whatever the first call did, a second call in
/// the same environment changes nothing and asks the host for nothing.
pub proof fn lemma_configure_once(phase: BackendPhase, restricted: bool)
    ensures
        !spec_takes_effect(spec_after_configure(phase, restricted), restricted),
        spec_after_configure(spec_after_configure(phase, restricted), restricted)
            == spec_after_configure(phase, restricted),
{
}

/// Once the clipboard is open, configuring has no effect.
pub proof fn lemma_configure_after_accessor(restricted: bool)
    ensures
        !spec_takes_effect(BackendPhase::AccessorBuilt, restricted),
        spec_after_configure(BackendPhase::AccessorBuilt, restricted)
            == BackendPhase::AccessorBuilt,
{
}

} // verus!
