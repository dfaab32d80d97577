//! The rendering calls into `indicatif`. Bars are shared handles whose
//! drawing state lives behind indicatif's own locks, so nothing is promised
//! about it here: the library keeps its own record of what it asked for.

use indicatif::{MultiProgress, ProgressBar, ProgressDrawTarget, ProgressStyle};
use vstd::prelude::*;

verus! {

#[verifier::external_type_specification]
#[verifier::external_body]
pub struct ExProgressBar(ProgressBar);

#[verifier::external_type_specification]
#[verifier::external_body]
pub struct ExProgressStyle(ProgressStyle);

#[verifier::external_type_specification]
#[verifier::external_body]
pub struct ExMultiProgress(MultiProgress);

#[verifier::external_type_specification]
#[verifier::external_body]
pub struct ExProgressDrawTarget(ProgressDrawTarget);

/// Relies on `ProgressBar::new`: a bar of the given length drawing to stderr.
pub assume_specification[ ProgressBar::new ](len: u64) -> ProgressBar;

/// Relies on `ProgressBar::hidden`: a bar that draws nowhere until attached.
pub assume_specification[ ProgressBar::hidden ]() -> ProgressBar;

/// Relies on `ProgressBar::with_style`: the same bar, with its style replaced.
pub assume_specification[ ProgressBar::with_style ](bar: ProgressBar, style: ProgressStyle) -> ProgressBar;

/// Relies on `ProgressBar::enable_steady_tick`: starts the background redraw.
pub assume_specification[ ProgressBar::enable_steady_tick ](bar: &ProgressBar, ms: u64);

/// Relies on `ProgressBar::reset`: clears position, elapsed time and estimate.
pub assume_specification[ ProgressBar::reset ](bar: &ProgressBar);

/// Relies on `ProgressBar::inc`: advances the drawn position.
pub assume_specification[ ProgressBar::inc ](bar: &ProgressBar, delta: u64);

/// Relies on `ProgressBar::set_position`: moves the drawn position.
pub assume_specification[ ProgressBar::set_position ](bar: &ProgressBar, pos: u64);

/// Relies on `ProgressBar::set_length`: sets the drawn length.
pub assume_specification[ ProgressBar::set_length ](bar: &ProgressBar, len: u64);

/// Relies on `ProgressBar::finish`: draws the bar in its completed state.
pub assume_specification[ ProgressBar::finish ](bar: &ProgressBar);

/// Relies on `MultiProgress::new`: an empty multi-line surface.
pub assume_specification[ MultiProgress::new ]() -> MultiProgress;

/// Relies on `MultiProgress::add`: attaches a bar below the lines already added.
pub assume_specification[ MultiProgress::add ](multi: &MultiProgress, bar: ProgressBar) -> ProgressBar;

/// Relies on `MultiProgress::set_draw_target`: where the surface draws.
pub assume_specification[ MultiProgress::set_draw_target ](multi: &MultiProgress, target: ProgressDrawTarget);

/// Relies on `ProgressDrawTarget::stderr`: a target drawing to standard error.
pub assume_specification[ ProgressDrawTarget::stderr ]() -> ProgressDrawTarget;

/// Relies on `ProgressStyle::default_bar`: the stock bar style.
pub assume_specification[ ProgressStyle::default_bar ]() -> ProgressStyle;

/// Relies on `ProgressStyle::default_spinner`: the stock spinner style.
pub assume_specification[ ProgressStyle::default_spinner ]() -> ProgressStyle;

/// Relies on `ProgressStyle::template`: the same style with its template replaced.
pub assume_specification[ ProgressStyle::template ](style: ProgressStyle, s: &str) -> ProgressStyle;

/// Relies on `ProgressStyle::progress_chars`, which panics on fewer than two
/// grapheme clusters or on clusters of unequal width: each printable ASCII
/// character is a cluster of its own, one column wide.
pub assume_specification[ ProgressStyle::progress_chars ](style: ProgressStyle, s: &str) -> ProgressStyle
    requires
        s@.len() >= 2,
        forall|i: int| 0 <= i < s@.len() ==> ' ' <= #[trigger] s@[i] <= '~',
;

/// Relies on `ProgressBar::set_prefix`: replaces the text drawn for `{prefix}`.
#[verifier::external_body]
pub(crate) fn set_bar_prefix(bar: &ProgressBar, prefix: String) {
    bar.set_prefix(prefix)
}

/// Relies on `ProgressBar::set_message`: replaces the text drawn for `{msg}`.
#[verifier::external_body]
pub(crate) fn set_bar_message(bar: &ProgressBar, message: String) {
    bar.set_message(message)
}

} // verus!
