//! The runtime context of an application: its name, its permissions and its
//! private directories, all derived from its manifest.
use vstd::prelude::*;
use crate::manifest::{AppManifest, AppManifestView, ManifestError, spec_manifest_result};
use crate::path::path_join;
use crate::permissions::PermissionGuard;
use crate::scope::AppScope;

verus! {

/// What the runtime knows of the running application.
pub struct AppContext {
    pub permissions: PermissionGuard,
    pub scope: AppScope,
    pub app_name: String,
}

impl AppContext {
    /// The context of the app that `manifest` describes: named after it,
    /// guarded by it, with its private directories named after the app.
    pub fn from_manifest(manifest: AppManifest) -> (r: AppContext)
        ensures
            r.app_name@ == manifest.app.name@,
            r.permissions.view() == manifest.view(),
            exists|b: Seq<char>| r.scope.view().data == path_join(b, manifest.app.name@),
            exists|b: Seq<char>| r.scope.view().config == path_join(b, manifest.app.name@),
            exists|b: Seq<char>| r.scope.view().cache == path_join(b, manifest.app.name@),
    {
        let app_name = manifest.app.name.clone();
        let scope = AppScope::new(app_name.as_str());
        let permissions = PermissionGuard::new(manifest);
        AppContext { permissions, scope, app_name }
    }

    /// The context of the app whose manifest file was read with the given
    /// outcome: the error of [`AppManifest::from_file`] unchanged (a failed
    /// read is [`ManifestError::Io`], text that is not a manifest is
    /// [`ManifestError::Parse`] with its message), or the context that
    /// [`AppContext::from_manifest`] gives for the manifest read.
    pub fn from_manifest_file(contents: Result<String, String>) -> (r: Result<AppContext, ManifestError>)
        ensures
            match contents {
                Err(msg) => r matches Err(ManifestError::Io(m)) && m@ == msg@,
                Ok(text) => match r {
                    Ok(c) => spec_manifest_result(text@) == Ok::<AppManifestView, Seq<char>>(c.permissions.view())
                        && c.app_name@ == c.permissions.view().app.name
                        && (exists|b: Seq<char>| c.scope.view().data == path_join(b, c.app_name@))
                        && (exists|b: Seq<char>| c.scope.view().config == path_join(b, c.app_name@))
                        && (exists|b: Seq<char>| c.scope.view().cache == path_join(b, c.app_name@)),
                    Err(ManifestError::Parse(m)) => spec_manifest_result(text@) == Err::<AppManifestView, Seq<char>>(m@),
                    Err(ManifestError::Io(_)) => false,
                },
            },
    {
        match AppManifest::from_file(contents) {
            Ok(m) => Ok(AppContext::from_manifest(m)),
            Err(e) => Err(e),
        }
    }

    /// The app's data directory.
    pub fn data_dir(&self) -> (r: &str)
        ensures
            r@ == self.scope.view().data,
    {
        self.scope.data_dir()
    }

    /// The app's configuration directory.
    pub fn config_dir(&self) -> (r: &str)
        ensures
            r@ == self.scope.view().config,
    {
        self.scope.config_dir()
    }

    /// The app's cache directory.
    pub fn cache_dir(&self) -> (r: &str)
        ensures
            r@ == self.scope.view().cache,
    {
        self.scope.cache_dir()
    }
}

} // verus!
