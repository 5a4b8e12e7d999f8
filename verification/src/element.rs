//! The elements a spell is made of, and the rules for how a new base
//! element reacts with what is already queued: opposite pairs cancel,
//! some pairs fuse into a hybrid element, and a hybrid breaks down when
//! its counterpart arrives.

use vstd::prelude::*;

verus! {

/// Every element, base and hybrid alike, plus the special `Lok`.
#[derive(Debug, Clone, Copy, PartialEq, Eq, Structural, Hash)]
pub enum Element {
    Water,
    Life,
    Shield,
    Cold,
    Lightning,
    Arcane,
    Earth,
    Fire,
    Steam,
    Ice,
    Poison,
    Lok,
}

/// The eight elements that can be conjured directly.
#[derive(Debug, Clone, Copy, PartialEq, Eq, Structural, Hash)]
pub enum BaseElement {
    Water,
    Life,
    Shield,
    Cold,
    Lightning,
    Arcane,
    Earth,
    Fire,
}

/// The elements that only arise by combining base elements.
#[derive(Debug, Clone, Copy, PartialEq, Eq, Structural, Hash)]
pub enum HybridElement {
    Steam,
    Ice,
    Poison,
}

/// Conversion was asked of an element of the other kind.
#[derive(Debug, Clone, Copy, PartialEq, Eq, Structural)]
pub struct WrongElementKind;

/// The element a base element stands for.
pub open spec fn spec_base_element(value: BaseElement) -> Element {
    match value {
        BaseElement::Water => Element::Water,
        BaseElement::Life => Element::Life,
        BaseElement::Shield => Element::Shield,
        BaseElement::Cold => Element::Cold,
        BaseElement::Lightning => Element::Lightning,
        BaseElement::Arcane => Element::Arcane,
        BaseElement::Earth => Element::Earth,
        BaseElement::Fire => Element::Fire,
    }
}

/// The base element behind an element, if it is one.
pub open spec fn spec_as_base(value: Element) -> Option<BaseElement> {
    match value {
        Element::Water => Some(BaseElement::Water),
        Element::Life => Some(BaseElement::Life),
        Element::Shield => Some(BaseElement::Shield),
        Element::Cold => Some(BaseElement::Cold),
        Element::Lightning => Some(BaseElement::Lightning),
        Element::Arcane => Some(BaseElement::Arcane),
        Element::Earth => Some(BaseElement::Earth),
        Element::Fire => Some(BaseElement::Fire),
        _ => None,
    }
}

/// The element a hybrid element stands for.
pub open spec fn spec_hybrid_element(value: HybridElement) -> Element {
    match value {
        HybridElement::Steam => Element::Steam,
        HybridElement::Ice => Element::Ice,
        HybridElement::Poison => Element::Poison,
    }
}

/// The hybrid element behind an element, if it is one.
pub open spec fn spec_as_hybrid(value: Element) -> Option<HybridElement> {
    match value {
        Element::Steam => Some(HybridElement::Steam),
        Element::Ice => Some(HybridElement::Ice),
        Element::Poison => Some(HybridElement::Poison),
        _ => None,
    }
}

impl Element {
    /// Every element, in declaration order.
    pub fn all() -> (r: Vec<Element>)
        ensures
            r@ == seq![
                Element::Water,
                Element::Life,
                Element::Shield,
                Element::Cold,
                Element::Lightning,
                Element::Arcane,
                Element::Earth,
                Element::Fire,
                Element::Steam,
                Element::Ice,
                Element::Poison,
                Element::Lok,
            ],
    {
        let mut r: Vec<Element> = Vec::new();
        r.push(Element::Water);
        r.push(Element::Life);
        r.push(Element::Shield);
        r.push(Element::Cold);
        r.push(Element::Lightning);
        r.push(Element::Arcane);
        r.push(Element::Earth);
        r.push(Element::Fire);
        r.push(Element::Steam);
        r.push(Element::Ice);
        r.push(Element::Poison);
        r.push(Element::Lok);
        proof {
            assert(r@ =~= seq![
                Element::Water,
                Element::Life,
                Element::Shield,
                Element::Cold,
                Element::Lightning,
                Element::Arcane,
                Element::Earth,
                Element::Fire,
                Element::Steam,
                Element::Ice,
                Element::Poison,
                Element::Lok,
            ]);
        }
        r
    }

    /// The element a base element stands for.
    pub fn from_base(value: BaseElement) -> (r: Element)
        ensures
            r == spec_base_element(value),
    {
        match value {
            BaseElement::Water => Element::Water,
            BaseElement::Life => Element::Life,
            BaseElement::Shield => Element::Shield,
            BaseElement::Cold => Element::Cold,
            BaseElement::Lightning => Element::Lightning,
            BaseElement::Arcane => Element::Arcane,
            BaseElement::Earth => Element::Earth,
            BaseElement::Fire => Element::Fire,
        }
    }

    /// The element a hybrid element stands for.
    pub fn from_hybrid(value: HybridElement) -> (r: Element)
        ensures
            r == spec_hybrid_element(value),
    {
        match value {
            HybridElement::Steam => Element::Steam,
            HybridElement::Ice => Element::Ice,
            HybridElement::Poison => Element::Poison,
        }
    }
}

impl BaseElement {
    /// The base element behind an element, or [`WrongElementKind`].
    pub fn try_from(value: Element) -> (r: Result<BaseElement, WrongElementKind>)
        ensures
            match spec_as_base(value) {
                Some(b) => r == Ok::<BaseElement, WrongElementKind>(b),
                None => r == Err::<BaseElement, WrongElementKind>(WrongElementKind),
            },
    {
        match value {
            Element::Water => Ok(BaseElement::Water),
            Element::Life => Ok(BaseElement::Life),
            Element::Shield => Ok(BaseElement::Shield),
            Element::Cold => Ok(BaseElement::Cold),
            Element::Lightning => Ok(BaseElement::Lightning),
            Element::Arcane => Ok(BaseElement::Arcane),
            Element::Earth => Ok(BaseElement::Earth),
            Element::Fire => Ok(BaseElement::Fire),
            _ => Err(WrongElementKind),
        }
    }
}

impl HybridElement {
    /// The hybrid element behind an element, or [`WrongElementKind`].
    pub fn try_from(value: Element) -> (r: Result<HybridElement, WrongElementKind>)
        ensures
            match spec_as_hybrid(value) {
                Some(h) => r == Ok::<HybridElement, WrongElementKind>(h),
                None => r == Err::<HybridElement, WrongElementKind>(WrongElementKind),
            },
    {
        match value {
            Element::Steam => Ok(HybridElement::Steam),
            Element::Ice => Ok(HybridElement::Ice),
            Element::Poison => Ok(HybridElement::Poison),
            _ => Err(WrongElementKind),
        }
    }
}

/// What adding a base element to a queued element does.
#[derive(Debug, Clone, Copy, PartialEq, Eq, Structural)]
pub enum Reaction {
    /// The two cancel out.
    Opposite,
    /// The two fuse into a hybrid element.
    Combine(HybridElement),
    /// The hybrid breaks down, leaving a base element.
    Breakdown(BaseElement),
}

/// One direction of the opposite-pair table.
pub open spec fn spec_opposes_one(a: BaseElement, b: BaseElement) -> bool {
    ||| (a == BaseElement::Water && b == BaseElement::Lightning)
    ||| (a == BaseElement::Life && b == BaseElement::Arcane)
    ||| (a == BaseElement::Shield && b == BaseElement::Shield)
    ||| (a == BaseElement::Cold && b == BaseElement::Fire)
    ||| (a == BaseElement::Lightning && b == BaseElement::Earth)
}

/// Whether two base elements cancel each other, in either order.
pub open spec fn spec_opposes(a: BaseElement, b: BaseElement) -> bool {
    spec_opposes_one(a, b) || spec_opposes_one(b, a)
}

/// One direction of the combination table.
pub open spec fn spec_combine_one(a: BaseElement, b: BaseElement) -> Option<HybridElement> {
    if a == BaseElement::Water && b == BaseElement::Cold {
        Some(HybridElement::Ice)
    } else if a == BaseElement::Water && b == BaseElement::Fire {
        Some(HybridElement::Steam)
    } else if a == BaseElement::Water && b == BaseElement::Arcane {
        Some(HybridElement::Poison)
    } else {
        None
    }
}

/// What two base elements fuse into, in either order.
pub open spec fn spec_combine(a: BaseElement, b: BaseElement) -> Option<HybridElement> {
    match spec_combine_one(a, b) {
        Some(h) => Some(h),
        None => spec_combine_one(b, a),
    }
}

/// What a hybrid element breaks down to when `with` arrives.
pub open spec fn spec_breakdown(hybrid: HybridElement, with: BaseElement) -> Option<BaseElement> {
    if hybrid == HybridElement::Ice && with == BaseElement::Fire {
        Some(BaseElement::Water)
    } else if hybrid == HybridElement::Steam && with == BaseElement::Cold {
        Some(BaseElement::Water)
    } else if hybrid == HybridElement::Poison && with == BaseElement::Life {
        Some(BaseElement::Water)
    } else {
        None
    }
}

/// What adding `add` to a queued `into` does: cancellation first, then
/// fusion, then hybrid breakdown; `None` when they simply coexist.
pub open spec fn spec_reaction(into: Element, add: BaseElement) -> Option<Reaction> {
    match spec_as_base(into) {
        Some(into_base) => {
            if spec_opposes(into_base, add) {
                Some(Reaction::Opposite)
            } else {
                match spec_combine(into_base, add) {
                    Some(h) => Some(Reaction::Combine(h)),
                    None => None,
                }
            }
        },
        None => {
            match spec_as_hybrid(into) {
                Some(into_hybrid) => {
                    match spec_breakdown(into_hybrid, add) {
                        Some(b) => Some(Reaction::Breakdown(b)),
                        None => None,
                    }
                },
                None => None,
            }
        },
    }
}

fn opposes(a: BaseElement, b: BaseElement) -> (r: bool)
    ensures
        r == spec_opposes(a, b),
{
    opposes_one(a, b) || opposes_one(b, a)
}

fn opposes_one(a: BaseElement, b: BaseElement) -> (r: bool)
    ensures
        r == spec_opposes_one(a, b),
{
    match (a, b) {
        (BaseElement::Water, BaseElement::Lightning) => true,
        (BaseElement::Life, BaseElement::Arcane) => true,
        (BaseElement::Shield, BaseElement::Shield) => true,
        (BaseElement::Cold, BaseElement::Fire) => true,
        (BaseElement::Lightning, BaseElement::Earth) => true,
        _ => false,
    }
}

fn combine(element: BaseElement, into: BaseElement) -> (r: Option<HybridElement>)
    ensures
        r == spec_combine(element, into),
{
    match combine_one(element, into) {
        Some(h) => Some(h),
        None => combine_one(into, element),
    }
}

fn combine_one(a: BaseElement, b: BaseElement) -> (r: Option<HybridElement>)
    ensures
        r == spec_combine_one(a, b),
{
    match (a, b) {
        (BaseElement::Water, BaseElement::Cold) => Some(HybridElement::Ice),
        (BaseElement::Water, BaseElement::Fire) => Some(HybridElement::Steam),
        (BaseElement::Water, BaseElement::Arcane) => Some(HybridElement::Poison),
        _ => None,
    }
}

fn breakdown(hybrid: HybridElement, with: BaseElement) -> (r: Option<BaseElement>)
    ensures
        r == spec_breakdown(hybrid, with),
{
    match (hybrid, with) {
        (HybridElement::Ice, BaseElement::Fire) => Some(BaseElement::Water),
        (HybridElement::Steam, BaseElement::Cold) => Some(BaseElement::Water),
        (HybridElement::Poison, BaseElement::Life) => Some(BaseElement::Water),
        _ => None,
    }
}

/// How a newly conjured base element reacts with a queued element.
pub fn reaction(into: Element, add: BaseElement) -> (r: Option<Reaction>)
    ensures
        r == spec_reaction(into, add),
{
    match BaseElement::try_from(into) {
        Ok(into_base) => {
            if opposes(into_base, add) {
                Some(Reaction::Opposite)
            } else {
                match combine(into_base, add) {
                    Some(hybrid) => Some(Reaction::Combine(hybrid)),
                    None => None,
                }
            }
        },
        Err(_) => {
            match HybridElement::try_from(into) {
                Ok(into_hybrid) => {
                    match breakdown(into_hybrid, add) {
                        Some(result) => Some(Reaction::Breakdown(result)),
                        None => None,
                    }
                },
                Err(_) => None,
            }
        },
    }
}

/// The position of an element in the fixed count table.
pub open spec fn spec_element_index(e: Element) -> int {
    match e {
        Element::Water => 0,
        Element::Life => 1,
        Element::Shield => 2,
        Element::Cold => 3,
        Element::Lightning => 4,
        Element::Arcane => 5,
        Element::Earth => 6,
        Element::Fire => 7,
        Element::Steam => 8,
        Element::Ice => 9,
        Element::Poison => 10,
        Element::Lok => 11,
    }
}

fn element_index(e: Element) -> (r: usize)
    ensures
        r == spec_element_index(e),
{
    match e {
        Element::Water => 0,
        Element::Life => 1,
        Element::Shield => 2,
        Element::Cold => 3,
        Element::Lightning => 4,
        Element::Arcane => 5,
        Element::Earth => 6,
        Element::Fire => 7,
        Element::Steam => 8,
        Element::Ice => 9,
        Element::Poison => 10,
        Element::Lok => 11,
    }
}

/// The sum of the counts from position `i` on.
pub open spec fn spec_sum_from(s: Seq<u8>, i: int) -> int
    decreases s.len() - i,
{
    if i < 0 || i >= s.len() {
        0
    } else {
        s[i] + spec_sum_from(s, i + 1)
    }
}

/// How many of the first `i` elements of `s` equal `e`, each count
/// saturating at 255.
pub open spec fn spec_occurrences_to(s: Seq<Element>, i: int, e: Element) -> int
    decreases i,
{
    if i <= 0 {
        0
    } else {
        spec_occurrences_to(s, i - 1, e) + if 0 <= i - 1 < s.len() && s[i - 1] == e {
            1int
        } else {
            0int
        }
    }
}

/// A count capped at 255, the widest a slot holds.
pub open spec fn spec_saturate(v: int) -> int {
    if v > 255 {
        255
    } else {
        v
    }
}

/// An unordered bag of element magnitudes; adding saturates at 255 per
/// element.
#[derive(Debug, Clone, PartialEq, Eq)]
pub struct Magnitudes {
    counts: Vec<u8>,
}

impl Magnitudes {
    /// One count slot per element.
    pub closed spec fn wf(&self) -> bool {
        self.counts@.len() == 12
    }

    /// The magnitude of one element.
    pub closed spec fn spec_get(&self, element: Element) -> u8 {
        self.counts@[spec_element_index(element)]
    }

    /// Whether any of the element is present.
    pub open spec fn spec_contains(&self, element: Element) -> bool {
        self.spec_get(element) > 0
    }

    /// The total of all magnitudes.
    pub closed spec fn spec_total(&self) -> int {
        spec_sum_from(self.counts@, 0)
    }

    /// An empty bag.
    pub fn new() -> (r: Magnitudes)
        ensures
            r.wf(),
            forall|e: Element| r.spec_get(e) == 0,
            r.spec_total() == 0,
    {
        let mut counts: Vec<u8> = Vec::new();
        let mut i: usize = 0;
        while i < 12
            invariant
                counts@.len() == i,
                i <= 12,
                forall|j: int| 0 <= j < i ==> counts@[j] == 0,
            decreases 12 - i,
        {
            counts.push(0);
            i = i + 1;
        }
        let r = Magnitudes { counts };
        proof {
            assert forall|e: Element| r.spec_get(e) == 0 by {
                assert(0 <= spec_element_index(e) < 12);
            }
            lemma_sum_from_zero(r.counts@, 0);
        }
        r
    }

    /// Add one of an element, saturating at 255.
    pub fn add_element(&mut self, element: Element)
        requires
            old(self).wf(),
        ensures
            final(self).wf(),
            final(self).spec_get(element) == spec_saturate(old(self).spec_get(element) + 1),
            forall|e: Element|
                e != element ==> final(self).spec_get(e) == old(self).spec_get(e),
    {
        let i = element_index(element);
        let v = self.counts[i];
        self.counts[i] = v.saturating_add(1);
        proof {
            assert forall|e: Element|
                e != element implies self.spec_get(e) == old(self).spec_get(e) by {
                assert(spec_element_index(e) != spec_element_index(element));
            }
        }
    }

    /// Build a bag from a sequence of elements.
    pub fn from_elements(elements: &Vec<Element>) -> (r: Magnitudes)
        ensures
            r.wf(),
            forall|e: Element|
                r.spec_get(e) == spec_saturate(
                    spec_occurrences_to(elements@, elements@.len() as int, e),
                ),
    {
        let mut r = Magnitudes::new();
        let mut i: usize = 0;
        while i < elements.len()
            invariant
                r.wf(),
                i <= elements@.len(),
                forall|e: Element|
                    r.spec_get(e) == spec_saturate(spec_occurrences_to(elements@, i as int, e)),
            decreases elements@.len() - i,
        {
            r.add_element(elements[i]);
            i = i + 1;
        }
        r
    }

    /// The magnitude of one element; zero when absent.
    pub fn get(&self, element: Element) -> (r: u8)
        requires
            self.wf(),
        ensures
            r == self.spec_get(element),
    {
        self.counts[element_index(element)]
    }

    /// Whether any of the element is present.
    pub fn contains(&self, element: Element) -> (r: bool)
        requires
            self.wf(),
        ensures
            r == self.spec_contains(element),
    {
        self.get(element) > 0
    }

    /// The total of all magnitudes.
    pub fn total(&self) -> (r: usize)
        requires
            self.wf(),
        ensures
            r == self.spec_total(),
    {
        let mut acc: usize = 0;
        let mut i: usize = 0;
        while i < self.counts.len()
            invariant
                self.wf(),
                i <= 12,
                acc <= 255 * i,
                acc + spec_sum_from(self.counts@, i as int) == spec_sum_from(self.counts@, 0),
            decreases 12 - i,
        {
            acc = acc + self.counts[i] as usize;
            i = i + 1;
        }
        acc
    }

    /// Whether nothing at all is queued.
    pub fn is_empty(&self) -> (r: bool)
        requires
            self.wf(),
        ensures
            r == (self.spec_total() == 0),
    {
        let r = self.total() == 0;
        proof {
            lemma_sum_from_bounds(self.counts@, 0);
        }
        r
    }
}

/// A sum of zero slots is zero.
proof fn lemma_sum_from_zero(s: Seq<u8>, i: int)
    requires
        forall|j: int| 0 <= j < s.len() ==> s[j] == 0,
    ensures
        spec_sum_from(s, i) == 0,
    decreases s.len() - i,
{
    if 0 <= i < s.len() {
        lemma_sum_from_zero(s, i + 1);
    }
}

/// A sum of byte counts is never negative.
proof fn lemma_sum_from_bounds(s: Seq<u8>, i: int)
    ensures
        spec_sum_from(s, i) >= 0,
    decreases s.len() - i,
{
    if 0 <= i < s.len() {
        lemma_sum_from_bounds(s, i + 1);
    }
}

} // verus!
