//! Named colors of the theme. The mapping to concrete terminal colors is the
//! rendering layer's business; the simulation only picks names.
use vstd::prelude::*;

verus! {

/// Every color the theme distinguishes, by role.
#[derive(Copy, Clone, Debug, PartialEq, Eq, Structural)]
pub enum ColorTheme {
    Bg,
    BoardBorderFg,
    BoardTitleFg,
    ErrorBg,
    ErrorFg,
    // Actors
    AsteroidHighHpLarge,
    AsteroidHighHpMedium,
    AsteroidHighHpSmall,
    AsteroidLowHp,
    AsteroidMidHp,
    Bullet,
    ExplosionA,
    ExplosionB,
    ExplosionC,
    ExplosionD,
    Missile,
    PowerUpHealth,
    PowerUpMissile,
    Ship,
    ShipShields,
    // UI
    DisabledButton,
    GameOver,
    HealthCurrent,
    HealthHeader,
    HealthLost,
    MissileButton,
    MissileButtonActive,
    MissilesCurrent,
    MissilesHeader,
    MissilesLost,
    RewindButton,
    RewindButtonActive,
    ScoreHeader,
    ScorePoints,
    ShieldsButton,
    ShieldsButtonActive,
}

} // verus!
