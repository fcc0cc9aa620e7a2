//! The runtime check of a feature against the manifest.
use vstd::prelude::*;
use crate::manifest::{AppManifest, AppManifestView, spec_has_permission};

verus! {

/// A feature was used that `app.toml` does not declare.
pub struct PermissionDenied {
    pub feature: String,
}

impl PermissionDenied {
    /// The message shown for the refusal:
    /// `permission denied: <feature> is not declared in app.toml`.
    pub fn message(&self) -> (r: String)
        ensures
            r@ == "permission denied: "@ + self.feature@ + " is not declared in app.toml"@,
    {
        let mut s = "permission denied: ".to_string();
        s.append(self.feature.as_str());
        s.append(" is not declared in app.toml");
        s
    }
}

/// Grants or refuses features by the manifest.
pub struct PermissionGuard {
    manifest: AppManifest,
}

impl PermissionGuard {
    pub closed spec fn view(&self) -> AppManifestView {
        self.manifest.view()
    }

    /// A guard over `manifest`.
    pub fn new(manifest: AppManifest) -> (r: PermissionGuard)
        ensures
            r.view() == manifest.view(),
    {
        PermissionGuard { manifest }
    }

    /// `Ok` exactly when the manifest grants `feature`; otherwise the
    /// refusal names the feature.
    pub fn check(&self, feature: &str) -> (r: Result<(), PermissionDenied>)
        ensures
            r is Ok <==> spec_has_permission(self.view(), feature@),
            r matches Err(d) ==> d.feature@ == feature@,
    {
        if self.manifest.has_permission(feature) {
            Ok(())
        } else {
            Err(PermissionDenied { feature: feature.to_owned() })
        }
    }

    /// The manifest the guard decides by.
    pub fn manifest(&self) -> (r: &AppManifest)
        ensures
            r.view() == self.view(),
    {
        &self.manifest
    }
}

} // verus!
