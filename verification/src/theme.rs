//! The theme request and the start of the application.
//!
//! Both work on the window that the host knows as `MAIN_WINDOW`. The caller
//! looks that window up and says whether it was found; the functions here
//! answer with the writes to perform on it, in order, and with the reply to
//! the front end. The reply is fixed before any write is made, so what the
//! compositor answers to a write cannot change it.

use vstd::prelude::*;
use vstd::string::StringExecFns;
use crate::effects::{
    after_writes, dark_mode_write, enable_mica_alt, lemma_writes_idempotent, mica_alt_write,
    set_immersive_dark_mode, AttributeWrite, WindowAttribute, WindowEffects,
};
use crate::text::{contains, occurs_at};

verus! {

/// The name under which the host keeps the window that the shell dresses.
pub const MAIN_WINDOW: &'static str = "main";

/// What the front end is told when that window is not there.
pub const WINDOW_NOT_FOUND: &'static str = "未找到窗口 main";

/// The writes of a theme request on a window that was found: the dark title
/// bar first, then the backdrop material once more. Where the platform has no
/// window effects there are none.
pub open spec fn theme_writes(dark: bool, effects: WindowEffects) -> Seq<AttributeWrite> {
    match effects {
        WindowEffects::Supported => seq![dark_mode_write(dark), mica_alt_write()],
        WindowEffects::Unsupported => Seq::empty(),
    }
}

/// A theme request is refused in one case only: the platform has window
/// effects and the window is missing.
pub open spec fn theme_refused(effects: WindowEffects, window_found: bool) -> bool {
    effects is Supported && !window_found
}

/// The outcome of a theme request: the writes to perform, or the message for
/// the front end.
pub open spec fn theme_outcome(dark: bool, effects: WindowEffects, window_found: bool) -> Result<
    Seq<AttributeWrite>,
    Seq<char>,
> {
    if theme_refused(effects, window_found) {
        Err(WINDOW_NOT_FOUND@)
    } else {
        Ok(theme_writes(dark, effects))
    }
}

/// The writes made when the application starts: the backdrop material, where
/// the platform has window effects and the window is there.
pub open spec fn setup_writes(effects: WindowEffects, window_found: bool) -> Seq<AttributeWrite> {
    if effects is Supported && window_found {
        seq![mica_alt_write()]
    } else {
        Seq::empty()
    }
}

/// An outcome as contracts see it: the writes as a sequence, the message as
/// its characters.
pub open spec fn outcome_view(outcome: Result<Vec<AttributeWrite>, String>) -> Result<
    Seq<AttributeWrite>,
    Seq<char>,
> {
    match outcome {
        Ok(writes) => Ok(writes@),
        Err(message) => Err(message@),
    }
}

/// Answers a request to switch the window's theme to dark or light.
///
/// `window_found` says whether the host has a window named `MAIN_WINDOW`.
/// `Ok` carries the writes for the caller to perform on that window, in this
/// order, and stands for success whatever becomes of them. `Err` carries the
/// message for the front end, and then nothing is to be written.
pub fn set_theme(dark: bool, effects: WindowEffects, window_found: bool) -> (outcome: Result<
    Vec<AttributeWrite>,
    String,
>)
    ensures
        outcome_view(outcome) == theme_outcome(dark, effects, window_found),
        window_found ==> outcome is Ok,
        effects is Unsupported ==> outcome_view(outcome) == Ok::<Seq<AttributeWrite>, Seq<char>>(
            Seq::empty(),
        ),
        effects is Supported && !window_found ==> outcome_view(outcome) == Err::<
            Seq<AttributeWrite>,
            Seq<char>,
        >(WINDOW_NOT_FOUND@),
{
    let mut writes: Vec<AttributeWrite> = Vec::new();
    match effects {
        WindowEffects::Unsupported => {
            assert(writes@ =~= theme_writes(dark, effects));
            Ok(writes)
        },
        WindowEffects::Supported => {
            if window_found {
                writes.push(set_immersive_dark_mode(dark));
                writes.push(enable_mica_alt());
                assert(writes@ =~= theme_writes(dark, effects));
                Ok(writes)
            } else {
                Err(String::from_str(WINDOW_NOT_FOUND))
            }
        },
    }
}

/// The writes to perform when the application has been set up. There is no
/// failure to report: a missing window means that nothing is written.
pub fn setup(effects: WindowEffects, window_found: bool) -> (writes: Vec<AttributeWrite>)
    ensures
        writes@ == setup_writes(effects, window_found),
        !window_found ==> writes@.len() == 0,
        effects is Unsupported ==> writes@.len() == 0,
{
    let mut writes: Vec<AttributeWrite> = Vec::new();
    match effects {
        WindowEffects::Unsupported => {},
        WindowEffects::Supported => {
            if window_found {
                writes.push(enable_mica_alt());
            }
        },
    }
    assert(writes@ =~= setup_writes(effects, window_found));
    writes
}

/// The message of a refused theme request names the window that was looked
/// for.
pub proof fn lemma_refusal_names_window()
    ensures
        contains(WINDOW_NOT_FOUND@, MAIN_WINDOW@),
{
    reveal_strlit("未找到窗口 main");
    reveal_strlit("main");
    assert(WINDOW_NOT_FOUND@.subrange(6, 10) =~= MAIN_WINDOW@);
    assert(occurs_at(WINDOW_NOT_FOUND@, MAIN_WINDOW@, 6));
}

/// With the window there a theme request succeeds, whatever the flag and the
/// platform. Where its writes take effect, and take effect again when the
/// same request is repeated, the window is left as the first request left it.
pub proof fn lemma_theme_idempotent(
    chrome: Map<WindowAttribute, i32>,
    dark: bool,
    effects: WindowEffects,
)
    ensures
        theme_outcome(dark, effects, true) == Ok::<Seq<AttributeWrite>, Seq<char>>(
            theme_writes(dark, effects),
        ),
        after_writes(after_writes(chrome, theme_writes(dark, effects)), theme_writes(dark, effects))
            == after_writes(chrome, theme_writes(dark, effects)),
{
    lemma_writes_idempotent(chrome, theme_writes(dark, effects));
}

} // verus!
