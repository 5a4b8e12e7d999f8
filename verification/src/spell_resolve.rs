//! Turning a queued bag of elements into a spell, for each of the four
//! ways of releasing it: forward, as an area, at oneself, or through the
//! weapon.

use vstd::prelude::*;
use crate::element::{Element, Magnitudes};

verus! {

/// The broad families a bag of elements falls into, checked in order:
/// shield first, then solid, energy, steam, lightning, volume.
#[derive(Debug, PartialEq, Eq, Structural)]
pub enum SpellKind {
    Shield,
    Solid,
    Energy,
    Lightning,
    Volume,
    /// Only `Lok` is queued.
    Undefined,
    /// Nothing is queued.
    Empty,
}

/// A spell, as resolved from the queued elements alone.
#[derive(Debug, Clone, PartialEq, Eq, Structural)]
pub enum Spell {
    Push(RegionWithoutWeapon),
    Beam,
    Lightning(RegionWithoutWeapon),
    Spray,
    Nova,
    /// Charge up projectiles launched forward.
    ProjectileCharge,
    /// Channel to continuously fire projectiles.
    ProjectileRepeater,
    /// Immediately launch projectiles at yourself from above.
    ProjectileDrop,
    SelfDirect,
    SelfShieldToggleNeutral,
    SelfShieldSet,
    /// Channel to heal.
    SelfHeal,
    Shield(RegionWithWeapon),
    Storm(RegionWithWeapon),
    Mine(RegionWithWeapon),
    Barrier(RegionWithWeapon),
    /// Imbue the elements into the weapon.
    Imbue,
    WeaponFissure,
    WeaponRegular,
    WeaponHeavy,
}

/// The shapes a weapon-assisted release can take.
#[derive(Debug, Clone, Copy, PartialEq, Eq, Structural)]
pub enum RegionWithWeapon {
    Arc,
    Circle,
    Line,
}

/// The shapes a bare release can take.
#[derive(Debug, Clone, Copy, PartialEq, Eq, Structural)]
pub enum RegionWithoutWeapon {
    Arc,
    Circle,
}

/// Whether a solid element (earth or ice) is queued.
pub open spec fn spec_contains_solid(elements: &Magnitudes) -> bool {
    elements.spec_contains(Element::Earth) || elements.spec_contains(Element::Ice)
}

/// Whether an energy element (arcane or life) is queued.
pub open spec fn spec_contains_energy(elements: &Magnitudes) -> bool {
    elements.spec_contains(Element::Arcane) || elements.spec_contains(Element::Life)
}

/// Whether a volume-filling element is queued.
pub open spec fn spec_contains_volume(elements: &Magnitudes) -> bool {
    ||| elements.spec_contains(Element::Water)
    ||| elements.spec_contains(Element::Cold)
    ||| elements.spec_contains(Element::Fire)
    ||| elements.spec_contains(Element::Steam)
    ||| elements.spec_contains(Element::Poison)
}

/// Whether anything besides `element` is queued.
pub open spec fn spec_contains_any_except(elements: &Magnitudes, element: Element) -> bool {
    elements.spec_total() > elements.spec_get(element)
}

/// The family of a bag of elements.
pub open spec fn spec_spell_kind(elements: &Magnitudes) -> SpellKind {
    if elements.spec_total() == 0 {
        SpellKind::Empty
    } else if elements.spec_contains(Element::Shield) {
        SpellKind::Shield
    } else if spec_contains_solid(elements) {
        SpellKind::Solid
    } else if spec_contains_energy(elements) {
        SpellKind::Energy
    } else if elements.spec_contains(Element::Steam) {
        SpellKind::Volume
    } else if elements.spec_contains(Element::Lightning) {
        SpellKind::Lightning
    } else if spec_contains_volume(elements) {
        SpellKind::Volume
    } else {
        SpellKind::Undefined
    }
}

pub fn contains_solid(elements: &Magnitudes) -> (r: bool)
    requires
        elements.wf(),
    ensures
        r == spec_contains_solid(elements),
{
    elements.contains(Element::Earth) || elements.contains(Element::Ice)
}

pub fn contains_energy(elements: &Magnitudes) -> (r: bool)
    requires
        elements.wf(),
    ensures
        r == spec_contains_energy(elements),
{
    elements.contains(Element::Arcane) || elements.contains(Element::Life)
}

pub fn contains_volume(elements: &Magnitudes) -> (r: bool)
    requires
        elements.wf(),
    ensures
        r == spec_contains_volume(elements),
{
    elements.contains(Element::Water) || elements.contains(Element::Cold) || elements.contains(
        Element::Fire,
    ) || elements.contains(Element::Steam) || elements.contains(Element::Poison)
}

pub fn contains_any_except(elements: &Magnitudes, element: Element) -> (r: bool)
    requires
        elements.wf(),
    ensures
        r == spec_contains_any_except(elements, element),
{
    elements.total() > (elements.get(element) as usize)
}

/// The family of a bag of elements, checked shield-first.
pub fn spell_kind(elements: &Magnitudes) -> (r: SpellKind)
    requires
        elements.wf(),
    ensures
        r == spec_spell_kind(elements),
{
    if elements.is_empty() {
        SpellKind::Empty
    } else if elements.contains(Element::Shield) {
        SpellKind::Shield
    } else if contains_solid(elements) {
        SpellKind::Solid
    } else if contains_energy(elements) {
        SpellKind::Energy
    } else if elements.contains(Element::Steam) {
        SpellKind::Volume
    } else if elements.contains(Element::Lightning) {
        SpellKind::Lightning
    } else if contains_volume(elements) {
        SpellKind::Volume
    } else {
        SpellKind::Undefined
    }
}

impl SpellKind {
    /// The family of a bag of elements.
    pub fn from(elements: &Magnitudes) -> (r: SpellKind)
        requires
            elements.wf(),
        ensures
            r == spec_spell_kind(elements),
    {
        spell_kind(elements)
    }
}

/// The shield-family spell for a region: barrier over mine over storm
/// over a plain shield, by what else is queued.
pub open spec fn spec_shield_spell(region: RegionWithWeapon, elements: &Magnitudes) -> Spell {
    if spec_contains_solid(elements) {
        Spell::Barrier(region)
    } else if !elements.spec_contains(Element::Lightning) && spec_contains_energy(elements) {
        Spell::Mine(region)
    } else if spec_contains_any_except(elements, Element::Shield) {
        Spell::Storm(region)
    } else {
        Spell::Shield(region)
    }
}

fn shield_spell(region: RegionWithWeapon, elements: &Magnitudes) -> (r: Spell)
    requires
        elements.wf(),
    ensures
        r == spec_shield_spell(region, elements),
{
    if contains_solid(elements) {
        Spell::Barrier(region)
    } else if !elements.contains(Element::Lightning) && contains_energy(elements) {
        Spell::Mine(region)
    } else if contains_any_except(elements, Element::Shield) {
        Spell::Storm(region)
    } else {
        Spell::Shield(region)
    }
}

/// What a forward release casts.
pub open spec fn spec_spell_forward(elements: &Magnitudes) -> Spell {
    if elements.spec_contains(Element::Lok) {
        Spell::Beam
    } else {
        match spec_spell_kind(elements) {
            SpellKind::Shield => spec_shield_spell(RegionWithWeapon::Arc, elements),
            SpellKind::Solid => {
                if elements.spec_contains(Element::Ice) && !elements.spec_contains(
                    Element::Earth,
                ) {
                    Spell::ProjectileRepeater
                } else {
                    Spell::ProjectileCharge
                }
            },
            SpellKind::Energy => Spell::Beam,
            SpellKind::Lightning => Spell::Lightning(RegionWithoutWeapon::Arc),
            SpellKind::Volume => Spell::Spray,
            SpellKind::Empty => Spell::Push(RegionWithoutWeapon::Arc),
            SpellKind::Undefined => Spell::Spray,
        }
    }
}

/// Resolve a forward release.
pub fn spell_forward(elements: &Magnitudes) -> (r: Spell)
    requires
        elements.wf(),
    ensures
        r == spec_spell_forward(elements),
{
    if elements.contains(Element::Lok) {
        return Spell::Beam;
    }
    match spell_kind(elements) {
        SpellKind::Shield => shield_spell(RegionWithWeapon::Arc, elements),
        SpellKind::Solid => {
            if elements.contains(Element::Ice) && !elements.contains(Element::Earth) {
                Spell::ProjectileRepeater
            } else {
                Spell::ProjectileCharge
            }
        },
        SpellKind::Energy => Spell::Beam,
        SpellKind::Lightning => Spell::Lightning(RegionWithoutWeapon::Arc),
        SpellKind::Volume => Spell::Spray,
        SpellKind::Empty => Spell::Push(RegionWithoutWeapon::Arc),
        SpellKind::Undefined => Spell::Spray,
    }
}

/// What an area release casts.
pub open spec fn spec_spell_area(elements: &Magnitudes) -> Spell {
    match spec_spell_kind(elements) {
        SpellKind::Shield => spec_shield_spell(RegionWithWeapon::Circle, elements),
        SpellKind::Solid => Spell::Nova,
        SpellKind::Energy => Spell::Nova,
        SpellKind::Volume => Spell::Nova,
        SpellKind::Undefined => Spell::Nova,
        SpellKind::Lightning => Spell::Lightning(RegionWithoutWeapon::Circle),
        SpellKind::Empty => Spell::Push(RegionWithoutWeapon::Circle),
    }
}

/// Resolve an area release.
pub fn spell_area(elements: &Magnitudes) -> (r: Spell)
    requires
        elements.wf(),
    ensures
        r == spec_spell_area(elements),
{
    match spell_kind(elements) {
        SpellKind::Shield => shield_spell(RegionWithWeapon::Circle, elements),
        SpellKind::Solid | SpellKind::Energy | SpellKind::Volume | SpellKind::Undefined => {
            Spell::Nova
        },
        SpellKind::Lightning => Spell::Lightning(RegionWithoutWeapon::Circle),
        SpellKind::Empty => Spell::Push(RegionWithoutWeapon::Circle),
    }
}

/// What a self-directed release casts, if anything.
pub open spec fn spec_spell_self(elements: &Magnitudes) -> Option<Spell> {
    match spec_spell_kind(elements) {
        SpellKind::Shield => {
            if spec_contains_any_except(elements, Element::Shield) {
                Some(Spell::SelfShieldToggleNeutral)
            } else {
                Some(Spell::SelfShieldSet)
            }
        },
        SpellKind::Solid => Some(Spell::ProjectileDrop),
        SpellKind::Empty => None,
        _ => {
            if elements.spec_contains(Element::Life) {
                Some(Spell::SelfHeal)
            } else {
                Some(Spell::SelfDirect)
            }
        },
    }
}

/// Resolve a self-directed release.
pub fn spell_self(elements: &Magnitudes) -> (r: Option<Spell>)
    requires
        elements.wf(),
    ensures
        r == spec_spell_self(elements),
{
    match spell_kind(elements) {
        SpellKind::Shield => {
            if contains_any_except(elements, Element::Shield) {
                Some(Spell::SelfShieldToggleNeutral)
            } else {
                Some(Spell::SelfShieldSet)
            }
        },
        SpellKind::Solid => Some(Spell::ProjectileDrop),
        SpellKind::Empty => None,
        SpellKind::Energy | SpellKind::Lightning | SpellKind::Volume | SpellKind::Undefined => {
            if elements.contains(Element::Life) {
                Some(Spell::SelfHeal)
            } else {
                Some(Spell::SelfDirect)
            }
        },
    }
}

/// What a weapon-borne release casts, if anything.
pub open spec fn spec_spell_weapon(elements: &Magnitudes) -> Option<Spell> {
    match spec_spell_kind(elements) {
        SpellKind::Shield => Some(spec_shield_spell(RegionWithWeapon::Line, elements)),
        SpellKind::Solid => Some(Spell::WeaponFissure),
        SpellKind::Energy => Some(Spell::WeaponHeavy),
        SpellKind::Lightning => Some(Spell::WeaponRegular),
        SpellKind::Volume => Some(Spell::WeaponRegular),
        SpellKind::Undefined => None,
        SpellKind::Empty => None,
    }
}

/// Resolve a weapon-borne release.
pub fn spell_weapon(elements: &Magnitudes) -> (r: Option<Spell>)
    requires
        elements.wf(),
    ensures
        r == spec_spell_weapon(elements),
{
    match spell_kind(elements) {
        SpellKind::Shield => Some(shield_spell(RegionWithWeapon::Line, elements)),
        SpellKind::Solid => Some(Spell::WeaponFissure),
        SpellKind::Energy => Some(Spell::WeaponHeavy),
        SpellKind::Lightning => Some(Spell::WeaponRegular),
        SpellKind::Volume => Some(Spell::WeaponRegular),
        SpellKind::Undefined => None,
        SpellKind::Empty => None,
    }
}

} // verus!
