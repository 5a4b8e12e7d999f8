use remagic::element::{
    BaseElement, Element, HybridElement, Magnitudes, Reaction, WrongElementKind, reaction,
};
use remagic::spell_resolve::{
    RegionWithWeapon, RegionWithoutWeapon, Spell, SpellKind, spell_area, spell_forward,
    spell_self, spell_weapon,
};

fn bag(elements: &[Element]) -> Magnitudes {
    Magnitudes::from_elements(&elements.to_vec())
}

#[test]
fn all_elements_listed_once() {
    let all = Element::all();
    assert_eq!(all.len(), 12);
    for (i, a) in all.iter().enumerate() {
        for (j, b) in all.iter().enumerate() {
            assert_eq!(i == j, a == b);
        }
    }
}

#[test]
fn element_kind_conversions() {
    assert_eq!(Element::from_base(BaseElement::Fire), Element::Fire);
    assert_eq!(Element::from_hybrid(HybridElement::Ice), Element::Ice);
    assert_eq!(BaseElement::try_from(Element::Water), Ok(BaseElement::Water));
    assert_eq!(BaseElement::try_from(Element::Steam), Err(WrongElementKind));
    assert_eq!(HybridElement::try_from(Element::Poison), Ok(HybridElement::Poison));
    assert_eq!(HybridElement::try_from(Element::Fire), Err(WrongElementKind));
}

#[test]
fn opposite_pairs_cancel_both_ways() {
    assert_eq!(reaction(Element::Water, BaseElement::Lightning), Some(Reaction::Opposite));
    assert_eq!(reaction(Element::Lightning, BaseElement::Water), Some(Reaction::Opposite));
    assert_eq!(reaction(Element::Shield, BaseElement::Shield), Some(Reaction::Opposite));
    assert_eq!(reaction(Element::Cold, BaseElement::Fire), Some(Reaction::Opposite));
    assert_eq!(reaction(Element::Lightning, BaseElement::Earth), Some(Reaction::Opposite));
}

#[test]
fn combinations_fuse_both_ways() {
    assert_eq!(
        reaction(Element::Water, BaseElement::Cold),
        Some(Reaction::Combine(HybridElement::Ice))
    );
    assert_eq!(
        reaction(Element::Cold, BaseElement::Water),
        Some(Reaction::Combine(HybridElement::Ice))
    );
    assert_eq!(
        reaction(Element::Water, BaseElement::Fire),
        Some(Reaction::Combine(HybridElement::Steam))
    );
    assert_eq!(
        reaction(Element::Water, BaseElement::Arcane),
        Some(Reaction::Combine(HybridElement::Poison))
    );
}

#[test]
fn hybrids_break_down_to_water() {
    assert_eq!(
        reaction(Element::Ice, BaseElement::Fire),
        Some(Reaction::Breakdown(BaseElement::Water))
    );
    assert_eq!(
        reaction(Element::Steam, BaseElement::Cold),
        Some(Reaction::Breakdown(BaseElement::Water))
    );
    assert_eq!(
        reaction(Element::Poison, BaseElement::Life),
        Some(Reaction::Breakdown(BaseElement::Water))
    );
}

#[test]
fn unrelated_elements_coexist() {
    assert_eq!(reaction(Element::Life, BaseElement::Cold), None);
    assert_eq!(reaction(Element::Lok, BaseElement::Fire), None);
    assert_eq!(reaction(Element::Steam, BaseElement::Earth), None);
}

#[test]
fn magnitudes_count_elements() {
    let m = bag(&[Element::Water, Element::Water, Element::Fire]);
    assert_eq!(m.get(Element::Water), 2);
    assert_eq!(m.get(Element::Fire), 1);
    assert_eq!(m.get(Element::Cold), 0);
    assert!(m.contains(Element::Fire));
    assert!(!m.contains(Element::Cold));
    assert_eq!(m.total(), 3);
    assert!(!m.is_empty());
    assert!(bag(&[]).is_empty());
}

#[test]
fn magnitudes_saturate_per_element() {
    let many: Vec<Element> = std::iter::repeat(Element::Water).take(300).collect();
    let m = Magnitudes::from_elements(&many);
    assert_eq!(m.get(Element::Water), 255);
    assert_eq!(m.total(), 255);
}

#[test]
fn spell_kinds_by_family() {
    assert_eq!(SpellKind::from(&bag(&[])), SpellKind::Empty);
    assert_eq!(SpellKind::from(&bag(&[Element::Shield, Element::Fire])), SpellKind::Shield);
    assert_eq!(SpellKind::from(&bag(&[Element::Earth])), SpellKind::Solid);
    assert_eq!(SpellKind::from(&bag(&[Element::Ice])), SpellKind::Solid);
    assert_eq!(SpellKind::from(&bag(&[Element::Arcane])), SpellKind::Energy);
    assert_eq!(SpellKind::from(&bag(&[Element::Steam])), SpellKind::Volume);
    assert_eq!(SpellKind::from(&bag(&[Element::Lightning])), SpellKind::Lightning);
    assert_eq!(SpellKind::from(&bag(&[Element::Water])), SpellKind::Volume);
    assert_eq!(SpellKind::from(&bag(&[Element::Lok])), SpellKind::Undefined);
}

#[test]
fn forward_spells() {
    assert_eq!(spell_forward(&bag(&[Element::Lok])), Spell::Beam);
    assert_eq!(spell_forward(&bag(&[Element::Ice])), Spell::ProjectileRepeater);
    assert_eq!(spell_forward(&bag(&[Element::Ice, Element::Earth])), Spell::ProjectileCharge);
    assert_eq!(spell_forward(&bag(&[Element::Arcane])), Spell::Beam);
    assert_eq!(
        spell_forward(&bag(&[Element::Lightning])),
        Spell::Lightning(RegionWithoutWeapon::Arc)
    );
    assert_eq!(spell_forward(&bag(&[Element::Water])), Spell::Spray);
    assert_eq!(spell_forward(&bag(&[])), Spell::Push(RegionWithoutWeapon::Arc));
}

#[test]
fn shield_family_spells() {
    assert_eq!(spell_forward(&bag(&[Element::Shield])), Spell::Shield(RegionWithWeapon::Arc));
    assert_eq!(
        spell_forward(&bag(&[Element::Shield, Element::Earth])),
        Spell::Barrier(RegionWithWeapon::Arc)
    );
    assert_eq!(
        spell_forward(&bag(&[Element::Shield, Element::Life])),
        Spell::Mine(RegionWithWeapon::Arc)
    );
    assert_eq!(
        spell_forward(&bag(&[Element::Shield, Element::Lightning])),
        Spell::Storm(RegionWithWeapon::Arc)
    );
}

#[test]
fn area_spells() {
    assert_eq!(spell_area(&bag(&[Element::Earth])), Spell::Nova);
    assert_eq!(
        spell_area(&bag(&[Element::Lightning])),
        Spell::Lightning(RegionWithoutWeapon::Circle)
    );
    assert_eq!(spell_area(&bag(&[])), Spell::Push(RegionWithoutWeapon::Circle));
    assert_eq!(
        spell_area(&bag(&[Element::Shield])),
        Spell::Shield(RegionWithWeapon::Circle)
    );
}

#[test]
fn self_spells() {
    assert_eq!(spell_self(&bag(&[Element::Shield])), Some(Spell::SelfShieldSet));
    assert_eq!(
        spell_self(&bag(&[Element::Shield, Element::Fire])),
        Some(Spell::SelfShieldToggleNeutral)
    );
    assert_eq!(spell_self(&bag(&[Element::Earth])), Some(Spell::ProjectileDrop));
    assert_eq!(spell_self(&bag(&[Element::Life])), Some(Spell::SelfHeal));
    assert_eq!(spell_self(&bag(&[Element::Fire])), Some(Spell::SelfDirect));
    assert_eq!(spell_self(&bag(&[])), None);
}

#[test]
fn weapon_spells() {
    assert_eq!(
        spell_weapon(&bag(&[Element::Shield])),
        Some(Spell::Shield(RegionWithWeapon::Line))
    );
    assert_eq!(spell_weapon(&bag(&[Element::Earth])), Some(Spell::WeaponFissure));
    assert_eq!(spell_weapon(&bag(&[Element::Life])), Some(Spell::WeaponHeavy));
    assert_eq!(spell_weapon(&bag(&[Element::Water])), Some(Spell::WeaponRegular));
    assert_eq!(spell_weapon(&bag(&[Element::Lok])), None);
    assert_eq!(spell_weapon(&bag(&[])), None);
}
