//! Where the game writes its session keys.

use vstd::prelude::*;

verus! {

/// Who chose the sync key file.
#[derive(Debug, Clone, Copy, PartialEq, Eq, Structural)]
pub enum SyncKeySourceKind {
    ProcessEnv,
    Registry,
    AppOwned,
}

/// The sync key file in use.
#[derive(Debug, Clone, PartialEq, Eq)]
pub struct SyncKeySource {
    pub kind: SyncKeySourceKind,
    pub path: String,
}

/// What a source says.
pub struct SourceModel {
    pub kind: SyncKeySourceKind,
    pub path: Seq<char>,
}

impl View for SyncKeySource {
    type V = SourceModel;

    open spec fn view(&self) -> SourceModel {
        SourceModel { kind: self.kind, path: self.path@ }
    }
}

/// What an optional source says.
pub open spec fn opt_source(source: Option<SyncKeySource>) -> Option<SourceModel> {
    match source {
        Some(source) => Some(source@),
        None => None,
    }
}

/// What a source is called.
pub open spec fn source_label(kind: SyncKeySourceKind) -> Seq<char> {
    if kind == SyncKeySourceKind::AppOwned {
        "Launch from this app"@
    } else {
        "Sync setup ready"@
    }
}

/// A user-set override that was ignored because it cannot be a usable file.
#[derive(Debug, Clone, PartialEq, Eq)]
pub struct SkippedSyncKey {
    pub kind: SyncKeySourceKind,
    pub path: String,
}

/// The sync key file in use, and the overrides that were passed over for it.
#[derive(Debug, Clone, PartialEq, Eq)]
pub struct SyncKeyResolution {
    pub source: SyncKeySource,
    pub skipped: Vec<SkippedSyncKey>,
}

/// The launcher does not inherit the file by itself and has to be told: only
/// what stands in this process's own environment is inherited.
pub open spec fn told_to_launcher(kind: SyncKeySourceKind) -> bool {
    kind != SyncKeySourceKind::ProcessEnv
}

impl SyncKeySource {
    pub fn label(&self) -> (r: &'static str)
        ensures
            r@ == source_label(self.kind),
    {
        match self.kind {
            SyncKeySourceKind::ProcessEnv | SyncKeySourceKind::Registry => "Sync setup ready",
            SyncKeySourceKind::AppOwned => "Launch from this app",
        }
    }

    pub fn is_app_owned(&self) -> (r: bool)
        ensures
            r == (self.kind == SyncKeySourceKind::AppOwned),
    {
        self.kind == SyncKeySourceKind::AppOwned
    }

    pub fn needs_explicit_child_env(&self) -> (r: bool)
        ensures
            r == told_to_launcher(self.kind),
    {
        match self.kind {
            SyncKeySourceKind::Registry | SyncKeySourceKind::AppOwned => true,
            SyncKeySourceKind::ProcessEnv => false,
        }
    }

    /// A source that says the same.
    pub fn copy(&self) -> (r: SyncKeySource)
        ensures
            r == *self,
    {
        SyncKeySource { kind: self.kind, path: self.path.clone() }
    }
}

/// The override that is reported as passed over.
pub open spec fn skipped_override(
    kind: SyncKeySourceKind,
    path: Option<String>,
) -> Seq<SkippedSyncKey> {
    match path {
        Some(path) => seq![SkippedSyncKey { kind, path }],
        None => Seq::empty(),
    }
}

/// What `resolve_sync_key_source` may return.
pub open spec fn resolves_to<F: Fn(&String) -> bool>(
    process_env: Option<String>,
    registry_env: Option<String>,
    app_owned: String,
    is_usable_file: F,
    r: SyncKeyResolution,
) -> bool {
    match r.source.kind {
        SyncKeySourceKind::ProcessEnv => {
            &&& process_env == Some(r.source.path)
            &&& call_ensures(is_usable_file, (&process_env->0,), true)
            &&& r.skipped@ == Seq::<SkippedSyncKey>::empty()
        },
        SyncKeySourceKind::Registry => {
            &&& registry_env == Some(r.source.path)
            &&& call_ensures(is_usable_file, (&registry_env->0,), true)
            &&& process_env is Some ==> call_ensures(is_usable_file, (&process_env->0,), false)
            &&& r.skipped@ == skipped_override(SyncKeySourceKind::ProcessEnv, process_env)
        },
        SyncKeySourceKind::AppOwned => {
            &&& r.source.path == app_owned
            &&& process_env is Some ==> call_ensures(is_usable_file, (&process_env->0,), false)
            &&& registry_env is Some ==> call_ensures(is_usable_file, (&registry_env->0,), false)
            &&& r.skipped@ == skipped_override(SyncKeySourceKind::ProcessEnv, process_env)
                + skipped_override(SyncKeySourceKind::Registry, registry_env)
        },
    }
}

/// Picks the sync key path: the first usable user override (process
/// environment, then registry), otherwise the path of the program's own. An
/// unusable override is reported in `skipped` instead of standing in the way.
pub fn resolve_sync_key_source<F: Fn(&String) -> bool>(
    process_env: Option<String>,
    registry_env: Option<String>,
    app_owned: String,
    is_usable_file: F,
) -> (r: SyncKeyResolution)
    requires
        forall|path: String| call_requires(is_usable_file, (&path,)),
    ensures
        resolves_to(process_env, registry_env, app_owned, is_usable_file, r),
{
    let mut skipped: Vec<SkippedSyncKey> = Vec::new();
    if let Some(path) = process_env {
        if is_usable_file(&path) {
            return SyncKeyResolution {
                source: SyncKeySource { kind: SyncKeySourceKind::ProcessEnv, path },
                skipped,
            };
        }
        skipped.push(SkippedSyncKey { kind: SyncKeySourceKind::ProcessEnv, path });
    }
    if let Some(path) = registry_env {
        if is_usable_file(&path) {
            return SyncKeyResolution {
                source: SyncKeySource { kind: SyncKeySourceKind::Registry, path },
                skipped,
            };
        }
        skipped.push(SkippedSyncKey { kind: SyncKeySourceKind::Registry, path });
    }
    assert(skipped@ =~= skipped_override(SyncKeySourceKind::ProcessEnv, process_env)
        + skipped_override(SyncKeySourceKind::Registry, registry_env));
    SyncKeyResolution {
        source: SyncKeySource { kind: SyncKeySourceKind::AppOwned, path: app_owned },
        skipped,
    }
}

/// The sync key file now in use; fails only where the program's own path is
/// not known.
pub fn resolve_current_sync_key_source<F: Fn(&String) -> bool>(
    app_owned: Result<String, String>,
    process_env: Option<String>,
    registry_env: Option<String>,
    is_usable_file: F,
) -> (r: Result<SyncKeyResolution, String>)
    requires
        forall|path: String| call_requires(is_usable_file, (&path,)),
    ensures
        match app_owned {
            Ok(path) => r is Ok && resolves_to(
                process_env,
                registry_env,
                path,
                is_usable_file,
                r->Ok_0,
            ),
            Err(error) => r == Err::<SyncKeyResolution, String>(error),
        },
{
    match app_owned {
        Ok(path) => Ok(resolve_sync_key_source(process_env, registry_env, path, is_usable_file)),
        Err(error) => Err(error),
    }
}

/// The file that is emptied before a launch.
pub open spec fn emptied_file(source: SyncKeySource) -> Option<String> {
    if source.kind == SyncKeySourceKind::AppOwned {
        Some(source.path)
    } else {
        None
    }
}

/// The file that is emptied before a launch, its directory made first: the
/// program's own sync key, so that secrets do not pile up over sessions. A
/// file that the user set is never touched.
pub fn prepare_sync_key_for_launch(source: &SyncKeySource) -> (r: Option<String>)
    ensures
        r == emptied_file(*source),
{
    if !source.is_app_owned() {
        return None;
    }
    Some(source.path.clone())
}

} // verus!
