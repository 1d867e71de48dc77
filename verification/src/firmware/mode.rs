//! What the display shows, and the fixed order in which that changes.

use vstd::prelude::*;

verus! {

/// What the display shows.
#[derive(Clone, Copy, Debug, PartialEq, Eq, Structural)]
pub enum DisplayMode {
    /// The greeting shown once after start.
    Intro,
    /// The panel with the latest readings.
    DataDisplay,
    /// The fixed picture.
    Image,
}

impl DisplayMode {
    /// The mode that follows `self`.
    pub open spec fn spec_next(self) -> DisplayMode {
        match self {
            DisplayMode::Intro => DisplayMode::DataDisplay,
            DisplayMode::DataDisplay => DisplayMode::Image,
            DisplayMode::Image => DisplayMode::DataDisplay,
        }
    }

    /// The mode reached from `self` after `n` advances.
    pub open spec fn after(self, n: nat) -> DisplayMode
        decreases n,
    {
        if n == 0 {
            self
        } else {
            self.after((n - 1) as nat).spec_next()
        }
    }

    /// The mode that follows `self`: the greeting gives way to the readings,
    /// and from then on readings and picture take turns.
    #[verifier::when_used_as_spec(spec_next)]
    pub fn next(self) -> (r: DisplayMode)
        ensures
            r == self.spec_next(),
    {
        match self {
            DisplayMode::Intro => DisplayMode::DataDisplay,
            DisplayMode::DataDisplay => DisplayMode::Image,
            DisplayMode::Image => DisplayMode::DataDisplay,
        }
    }
}

/// Every mode has a successor, and no successor is the greeting.
pub proof fn lemma_next_never_intro(m: DisplayMode)
    ensures
        m.spec_next() != DisplayMode::Intro,
{
}

/// Started at the greeting, one advance shows the readings, and every later
/// advance switches between readings and picture: after an odd number of
/// advances the readings are shown, after an even, positive number the
/// picture. The greeting is never shown again.
pub proof fn lemma_mode_cycle(n: nat)
    requires
        n >= 1,
    ensures
        DisplayMode::Intro.after(n) == (if n % 2 == 1 {
            DisplayMode::DataDisplay
        } else {
            DisplayMode::Image
        }),
        DisplayMode::Intro.after(n) != DisplayMode::Intro,
    decreases n,
{
    reveal_with_fuel(DisplayMode::after, 2);
    if n > 1 {
        lemma_mode_cycle((n - 1) as nat);
    }
}

/// Once the greeting is left, the cycle has period two and never shows the
/// greeting: from a mode other than the greeting, `n + 2` advances lead
/// where `n` advances lead, and that is not the greeting.
pub proof fn lemma_mode_period_two(m: DisplayMode, n: nat)
    requires
        m != DisplayMode::Intro,
    ensures
        m.after(n + 2) == m.after(n),
        m.after(n) != DisplayMode::Intro,
    decreases n,
{
    reveal_with_fuel(DisplayMode::after, 3);
    if n > 0 {
        lemma_mode_period_two(m, (n - 1) as nat);
    }
}

} // verus!
