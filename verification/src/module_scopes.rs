//! The scopes of the aurora example: a root module, two plasma instances in
//! it, and the two entries of its playlist.

use vstd::prelude::*;
use vstd::string::*;

use crate::panel::WireScopeRef;
use crate::text::same_text;

verus! {

/// The root module's scope path.
pub const ROOT_SCOPE: &'static str = "/aurora.module";

/// The first embedded plasma instance's scope path.
pub const PLASMA_1_SCOPE: &'static str = "/aurora.module/plasma_1.module";

/// The second embedded plasma instance's scope path.
pub const PLASMA_2_SCOPE: &'static str = "/aurora.module/plasma_2.module";

/// The scope path of the playlist's first entry.
pub const DRIFT_SCOPE: &'static str = "/aurora.module/set.playlist/drift.shader";

/// The scope path of the playlist's second entry.
pub const WHIRL_SCOPE: &'static str = "/aurora.module/set.playlist/whirl.shader";

/// The scope a path of the example stands for, if it is one of its paths.
pub open spec fn target_of(scope: Seq<char>) -> Option<WireScopeRef> {
    if scope == ROOT_SCOPE@ {
        Some(WireScopeRef::Module { owner: 1 })
    } else if scope == PLASMA_1_SCOPE@ {
        Some(WireScopeRef::Module { owner: 2 })
    } else if scope == PLASMA_2_SCOPE@ {
        Some(WireScopeRef::Module { owner: 3 })
    } else if scope == DRIFT_SCOPE@ {
        Some(WireScopeRef::Sink { owner: 4, entry: 0 })
    } else if scope == WHIRL_SCOPE@ {
        Some(WireScopeRef::Sink { owner: 4, entry: 1 })
    } else {
        None
    }
}

/// The path a scope of the example is shown by, if it is one of its scopes.
pub open spec fn display_of(target: WireScopeRef) -> Option<Seq<char>> {
    match target {
        WireScopeRef::Module { owner } => if owner == 1 {
            Some(ROOT_SCOPE@)
        } else if owner == 2 {
            Some(PLASMA_1_SCOPE@)
        } else if owner == 3 {
            Some(PLASMA_2_SCOPE@)
        } else {
            None
        },
        WireScopeRef::Sink { entry, .. } => if entry == 0 {
            Some(DRIFT_SCOPE@)
        } else {
            Some(WHIRL_SCOPE@)
        },
    }
}

/// The scope a path of the example stands for.
pub fn scope_target(scope: &str) -> (r: WireScopeRef)
    requires
        target_of(scope@) is Some,
    ensures
        target_of(scope@) == Some(r),
{
    if same_text(scope, ROOT_SCOPE) {
        WireScopeRef::Module { owner: 1 }
    } else if same_text(scope, PLASMA_1_SCOPE) {
        WireScopeRef::Module { owner: 2 }
    } else if same_text(scope, PLASMA_2_SCOPE) {
        WireScopeRef::Module { owner: 3 }
    } else if same_text(scope, DRIFT_SCOPE) {
        WireScopeRef::Sink { owner: 4, entry: 0 }
    } else {
        WireScopeRef::Sink { owner: 4, entry: 1 }
    }
}

/// The path a scope of the example is shown by.
pub fn scope_display(target: &WireScopeRef) -> (r: &'static str)
    requires
        display_of(*target) is Some,
    ensures
        display_of(*target) == Some(r@),
{
    match target {
        WireScopeRef::Module { owner } => if *owner == 1 {
            ROOT_SCOPE
        } else if *owner == 2 {
            PLASMA_1_SCOPE
        } else {
            PLASMA_2_SCOPE
        },
        WireScopeRef::Sink { entry, .. } => if *entry == 0 {
            DRIFT_SCOPE
        } else {
            WHIRL_SCOPE
        },
    }
}

/// Every path of the example is the one its scope is shown by.
pub proof fn a_scope_is_shown_by_the_path_it_stands_for(scope: Seq<char>)
    ensures
        target_of(scope) matches Some(target) ==> display_of(target) == Some(scope),
{
}

} // verus!
