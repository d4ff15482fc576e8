//! Choice between the two launch variants of the sidecar.

use crate::text::chars_of;
use vstd::prelude::*;

verus! {

/// The variant of the sidecar that a start attempt launches.
#[derive(Debug, Clone, Copy, PartialEq, Eq, Structural)]
pub enum LaunchMode {
    /// The compiled sidecar executable shipped with the application.
    CompiledBinary,
    /// The sidecar script run by its interpreter.
    InterpretedScript,
}

/// The selection policy: a development build runs the script unless the
/// production variant is forced; forcing the script wins in every build.
pub open spec fn select_mode_spec(
    development: bool,
    force_interpreted: bool,
    force_production: bool,
) -> LaunchMode {
    if (development && !force_production) || force_interpreted {
        LaunchMode::InterpretedScript
    } else {
        LaunchMode::CompiledBinary
    }
}

/// The variant tried when `mode` could not be spawned.
pub open spec fn alternate_spec(mode: LaunchMode) -> LaunchMode {
    match mode {
        LaunchMode::CompiledBinary => LaunchMode::InterpretedScript,
        LaunchMode::InterpretedScript => LaunchMode::CompiledBinary,
    }
}

/// Whether the value of an override setting switches it on: it does when
/// it is the text `1`, and an empty or any other value does not.
pub fn override_flag(value: &str) -> (on: bool)
    ensures
        on == (value@ == seq!['1']),
{
    let chars = chars_of(value);
    let on = chars.len() == 1 && chars[0] == '1';
    assert(on == (value@ =~= seq!['1']));
    on
}

/// Picks the variant to launch first from the build mode and the two
/// override flags.
pub fn select_mode(development: bool, force_interpreted: bool, force_production: bool) -> (mode:
    LaunchMode)
    ensures
        mode == select_mode_spec(development, force_interpreted, force_production),
{
    if (development && !force_production) || force_interpreted {
        LaunchMode::InterpretedScript
    } else {
        LaunchMode::CompiledBinary
    }
}

/// Returns the other variant.
pub fn alternate(mode: LaunchMode) -> (other: LaunchMode)
    ensures
        other == alternate_spec(mode),
{
    match mode {
        LaunchMode::CompiledBinary => LaunchMode::InterpretedScript,
        LaunchMode::InterpretedScript => LaunchMode::CompiledBinary,
    }
}

/// Forcing the script selects it whatever the other inputs are.
pub proof fn lemma_force_interpreted_wins(development: bool, force_production: bool)
    ensures
        select_mode_spec(development, true, force_production) == LaunchMode::InterpretedScript,
{
}

/// With no override, the build mode alone decides.
pub proof fn lemma_build_mode_decides(development: bool)
    ensures
        select_mode_spec(development, false, false) == if development {
            LaunchMode::InterpretedScript
        } else {
            LaunchMode::CompiledBinary
        },
{
}

/// The alternate of the alternate is the variant itself, and never the same
/// variant twice in a row.
pub proof fn lemma_alternate_involution(mode: LaunchMode)
    ensures
        alternate_spec(alternate_spec(mode)) == mode,
        alternate_spec(mode) != mode,
{
}

} // verus!
