use vstd::prelude::*;

verus! {

/// Each of the three tiers of a packed specificity saturates at this value.
pub const MAX_TIER: u32 = 1023;

/// Clamp one tier count at the 10-bit saturation point.
pub open spec fn clamp_tier(x: int) -> int {
    if x > 1023 {
        1023int
    } else {
        x
    }
}

/// The packed encoding of three tier counts: each tier is clamped at 1023,
/// then laid out as `id * 2^20 + class_like * 2^10 + element`.
pub open spec fn packed_of(id: int, class_like: int, element: int) -> int {
    clamp_tier(id) * 0x100000 + clamp_tier(class_like) * 0x400 + clamp_tier(element)
}

/// The id tier of a packed value.
pub open spec fn tier_id_of(p: int) -> int {
    p / 0x100000
}

/// The class-like tier of a packed value.
pub open spec fn tier_class_of(p: int) -> int {
    (p / 0x400) % 0x400
}

/// The element tier of a packed value.
pub open spec fn tier_element_of(p: int) -> int {
    p % 0x400
}

/// Lexicographic strict order over two tier triples: the id tier decides
/// first, then the class-like tier, then the element tier.
pub open spec fn lex_less(i1: int, c1: int, e1: int, i2: int, c2: int, e2: int) -> bool {
    i1 < i2 || (i1 == i2 && (c1 < c2 || (c1 == c2 && e1 < e2)))
}

/// The packed specificity whose tiers encode the three given counts,
/// each clamped at 1023.
pub closed spec fn packed_from(id: int, class_like: int, element: int) -> Specificity {
    Specificity(packed_of(id, class_like, element) as u32)
}

/// Two packings are the same value exactly when their packed encodings
/// agree.
pub proof fn lemma_packed_from_eq(i1: int, c1: int, e1: int, i2: int, c2: int, e2: int)
    requires
        packed_of(i1, c1, e1) == packed_of(i2, c2, e2),
    ensures
        packed_from(i1, c1, e1) == packed_from(i2, c2, e2),
{
}

/// The tiers of a packed encoding of three nonnegative counts are the
/// counts clamped at 1023, and such a value is well-formed.
pub proof fn lemma_packed_from_tiers(i: int, c: int, e: int)
    requires
        0 <= i,
        0 <= c,
        0 <= e,
    ensures
        packed_from(i, c, e).wf(),
        packed_from(i, c, e).id_tier() == clamp_tier(i),
        packed_from(i, c, e).class_tier() == clamp_tier(c),
        packed_from(i, c, e).element_tier() == clamp_tier(e),
{
    lemma_extract(clamp_tier(i), clamp_tier(c), clamp_tier(e));
    assert(0 <= packed_of(i, c, e) < 0x40000000);
}

/// A selector specificity, packed as three saturating 10-bit tiers in one
/// `u32`. The derived ordering compares the packed integers, which (for
/// well-formed values) is the lexicographic order over
/// (id, class-like, element); see `lemma_specificity_order_lexicographic`.
#[derive(Clone, Copy, Debug, Eq, Hash, Ord, PartialEq, PartialOrd, Structural)]
pub struct Specificity(u32);

impl Specificity {
    /// The raw packed integer.
    pub closed spec fn packed(self) -> u32 {
        self.0
    }

    /// The id tier of this specificity.
    pub open spec fn id_tier(self) -> int {
        tier_id_of(self.packed() as int)
    }

    /// The class-like tier of this specificity.
    pub open spec fn class_tier(self) -> int {
        tier_class_of(self.packed() as int)
    }

    /// The element tier of this specificity.
    pub open spec fn element_tier(self) -> int {
        tier_element_of(self.packed() as int)
    }

    /// A well-formed packed value is exactly the encoding of its own three
    /// tiers, each below the saturation point.
    pub open spec fn wf(self) -> bool {
        self.id_tier() < 1024 && self.packed() as int == packed_of(
            self.id_tier(),
            self.class_tier(),
            self.element_tier(),
        )
    }

    /// Combine two packed specificities by unpacking both, adding the raw
    /// counters elementwise, and packing the sum with per-tier saturation.
    /// Adding the packed integers directly would let a carry from one tier
    /// corrupt its neighbour, so the round trip through the unpacked form
    /// is required.
    pub fn add(self, rhs: Specificity) -> (r: Specificity)
        ensures
            r.wf(),
            r.id_tier() == clamp_tier(self.id_tier() + rhs.id_tier()),
            r.class_tier() == clamp_tier(self.class_tier() + rhs.class_tier()),
            r.element_tier() == clamp_tier(self.element_tier() + rhs.element_tier()),
    {
        let a = UnpackedSpecificity::from(self);
        let b = UnpackedSpecificity::from(rhs);
        Specificity::from(a.add(b))
    }
}

impl Default for Specificity {
    /// The zero specificity.
    fn default() -> (r: Specificity)
        ensures
            r.wf(),
            r.id_tier() == 0,
            r.class_tier() == 0,
            r.element_tier() == 0,
    {
        Specificity(0)
    }
}

/// The three tier counters of a specificity as plain unsaturated integers,
/// used as the accumulator while a selector tree is walked. The derived
/// ordering is lexicographic over (id, class-like, element).
#[derive(Clone, Copy, Debug, Eq, Hash, Ord, PartialEq, PartialOrd, Structural)]
pub struct UnpackedSpecificity {
    pub id_selectors: u32,
    pub class_like_selectors: u32,
    pub element_selectors: u32,
}

impl UnpackedSpecificity {
    pub fn new(id_selectors: u32, class_like_selectors: u32, element_selectors: u32) -> (r:
        UnpackedSpecificity)
        ensures
            r.id_selectors == id_selectors,
            r.class_like_selectors == class_like_selectors,
            r.element_selectors == element_selectors,
    {
        UnpackedSpecificity { id_selectors, class_like_selectors, element_selectors }
    }

    /// Elementwise sum of the three counters, without saturation.
    pub fn add(self, rhs: UnpackedSpecificity) -> (r: UnpackedSpecificity)
        requires
            self.id_selectors + rhs.id_selectors <= u32::MAX,
            self.class_like_selectors + rhs.class_like_selectors <= u32::MAX,
            self.element_selectors + rhs.element_selectors <= u32::MAX,
        ensures
            r.id_selectors == self.id_selectors + rhs.id_selectors,
            r.class_like_selectors == self.class_like_selectors + rhs.class_like_selectors,
            r.element_selectors == self.element_selectors + rhs.element_selectors,
    {
        UnpackedSpecificity {
            id_selectors: self.id_selectors + rhs.id_selectors,
            class_like_selectors: self.class_like_selectors + rhs.class_like_selectors,
            element_selectors: self.element_selectors + rhs.element_selectors,
        }
    }
}

impl Default for UnpackedSpecificity {
    /// The zero accumulator.
    fn default() -> (r: UnpackedSpecificity)
        ensures
            r.id_selectors == 0,
            r.class_like_selectors == 0,
            r.element_selectors == 0,
    {
        UnpackedSpecificity { id_selectors: 0, class_like_selectors: 0, element_selectors: 0 }
    }
}

/// Extracting the tiers out of an in-range packed encoding yields the
/// encoded counts back.
proof fn lemma_extract(i: int, c: int, e: int)
    requires
        0 <= i < 1024,
        0 <= c < 1024,
        0 <= e < 1024,
    ensures
        tier_id_of(i * 0x100000 + c * 0x400 + e) == i,
        tier_class_of(i * 0x100000 + c * 0x400 + e) == c,
        tier_element_of(i * 0x100000 + c * 0x400 + e) == e,
{
    let p = i * 0x100000 + c * 0x400 + e;
    assert(i * 0x100000 + c * 0x400 + e == 0x100000 * i + (c * 0x400 + e)) by (nonlinear_arith);
    vstd::arithmetic::div_mod::lemma_div_multiples_vanish_fancy(i, c * 0x400 + e, 0x100000);
    assert(tier_id_of(p) == i);
    let q = i * 0x400 + c;
    assert(i * 0x100000 + c * 0x400 + e == 0x400 * (i * 0x400 + c) + e) by (nonlinear_arith);
    vstd::arithmetic::div_mod::lemma_div_multiples_vanish_fancy(q, e, 0x400);
    vstd::arithmetic::div_mod::lemma_fundamental_div_mod(p, 0x400);
    assert(tier_element_of(p) == e);
    assert(p / 0x400 == q);
    assert(i * 0x400 + c == 0x400 * i + c) by (nonlinear_arith);
    vstd::arithmetic::div_mod::lemma_div_multiples_vanish_fancy(i, c, 0x400);
    vstd::arithmetic::div_mod::lemma_fundamental_div_mod(q, 0x400);
    assert(tier_class_of(p) == c);
}

/// Packing any three nonnegative counts and reading the tiers back yields
/// each count clamped at 1023, each tier independently of the other two:
/// within the unsaturated range the round trip is lossless, and a count
/// beyond 1023 clamps its own tier without altering its neighbours.
pub proof fn lemma_pack_then_extract(i: int, c: int, e: int)
    requires
        0 <= i,
        0 <= c,
        0 <= e,
    ensures
        tier_id_of(packed_of(i, c, e)) == clamp_tier(i),
        tier_class_of(packed_of(i, c, e)) == clamp_tier(c),
        tier_element_of(packed_of(i, c, e)) == clamp_tier(e),
{
    lemma_extract(clamp_tier(i), clamp_tier(c), clamp_tier(e));
}

/// Re-packing the three tiers of a well-formed specificity yields its
/// packed value back: unpack followed by pack is lossless.
pub proof fn lemma_extract_then_pack(s: Specificity)
    requires
        s.wf(),
    ensures
        packed_of(s.id_tier(), s.class_tier(), s.element_tier()) == s.packed() as int,
{
}

/// The packed-integer order over well-formed specificities is exactly the
/// lexicographic order over the tier triples (id, class-like, element).
pub proof fn lemma_specificity_order_lexicographic(a: Specificity, b: Specificity)
    requires
        a.wf(),
        b.wf(),
    ensures
        a.packed() < b.packed() <==> lex_less(
            a.id_tier(),
            a.class_tier(),
            a.element_tier(),
            b.id_tier(),
            b.class_tier(),
            b.element_tier(),
        ),
{
    assert(0 <= a.class_tier() < 1024 && 0 <= a.element_tier() < 1024);
    assert(0 <= b.class_tier() < 1024 && 0 <= b.element_tier() < 1024);
}

impl From<UnpackedSpecificity> for Specificity {
    /// Pack three raw counters, saturating each tier at 1023 independently.
    fn from(u: UnpackedSpecificity) -> (r: Specificity)
        ensures
            r == packed_from(
                u.id_selectors as int,
                u.class_like_selectors as int,
                u.element_selectors as int,
            ),
            r.wf(),
            r.id_tier() == clamp_tier(u.id_selectors as int),
            r.class_tier() == clamp_tier(u.class_like_selectors as int),
            r.element_tier() == clamp_tier(u.element_selectors as int),
    {
        let i = if u.id_selectors > MAX_TIER {
            MAX_TIER
        } else {
            u.id_selectors
        };
        let c = if u.class_like_selectors > MAX_TIER {
            MAX_TIER
        } else {
            u.class_like_selectors
        };
        let e = if u.element_selectors > MAX_TIER {
            MAX_TIER
        } else {
            u.element_selectors
        };
        proof {
            lemma_extract(i as int, c as int, e as int);
        }
        Specificity(i * 0x100000 + c * 0x400 + e)
    }
}

impl vstd::std_specs::convert::FromSpecImpl<UnpackedSpecificity> for Specificity {
    open spec fn obeys_from_spec() -> bool {
        true
    }

    closed spec fn from_spec(u: UnpackedSpecificity) -> Specificity {
        packed_from(u.id_selectors as int, u.class_like_selectors as int, u.element_selectors as int)
    }
}

impl From<Specificity> for UnpackedSpecificity {
    /// Unpack the three tiers into plain counters.
    fn from(s: Specificity) -> (r: UnpackedSpecificity)
        ensures
            r.id_selectors as int == s.id_tier(),
            r.class_like_selectors as int == s.class_tier(),
            r.element_selectors as int == s.element_tier(),
    {
        UnpackedSpecificity {
            id_selectors: s.0 / 0x100000,
            class_like_selectors: (s.0 / 0x400) % 0x400,
            element_selectors: s.0 % 0x400,
        }
    }
}

impl vstd::std_specs::convert::FromSpecImpl<Specificity> for UnpackedSpecificity {
    open spec fn obeys_from_spec() -> bool {
        true
    }

    open spec fn from_spec(s: Specificity) -> UnpackedSpecificity {
        UnpackedSpecificity {
            id_selectors: s.id_tier() as u32,
            class_like_selectors: s.class_tier() as u32,
            element_selectors: s.element_tier() as u32,
        }
    }
}

/// The bounds of a given value: a `[min, max]` pair tracked while a
/// selector's exact shape is not yet known.
#[derive(Clone, Copy, Debug, Default, Eq, Hash, PartialEq, Structural)]
pub struct Bounds<T> {
    pub min: T,
    pub max: T,
}

/// The smaller of two counters.
pub open spec fn min_u32(a: u32, b: u32) -> u32 {
    if a <= b {
        a
    } else {
        b
    }
}

/// The larger of two counters.
pub open spec fn max_u32(a: u32, b: u32) -> u32 {
    if a <= b {
        b
    } else {
        a
    }
}

/// Elementwise min of two unpacked specificities, per tier.
pub open spec fn tiers_min(a: UnpackedSpecificity, b: UnpackedSpecificity) -> UnpackedSpecificity {
    UnpackedSpecificity {
        id_selectors: min_u32(a.id_selectors, b.id_selectors),
        class_like_selectors: min_u32(a.class_like_selectors, b.class_like_selectors),
        element_selectors: min_u32(a.element_selectors, b.element_selectors),
    }
}

/// Elementwise max of two unpacked specificities, per tier.
pub open spec fn tiers_max(a: UnpackedSpecificity, b: UnpackedSpecificity) -> UnpackedSpecificity {
    UnpackedSpecificity {
        id_selectors: max_u32(a.id_selectors, b.id_selectors),
        class_like_selectors: max_u32(a.class_like_selectors, b.class_like_selectors),
        element_selectors: max_u32(a.element_selectors, b.element_selectors),
    }
}

/// The union of two bounds: the elementwise min of the two mins and the
/// elementwise max of the two maxes.
pub open spec fn widened(a: Bounds<UnpackedSpecificity>, b: Bounds<UnpackedSpecificity>) -> Bounds<
    UnpackedSpecificity,
> {
    Bounds { min: tiers_min(a.min, b.min), max: tiers_max(a.max, b.max) }
}

impl Bounds<Specificity> {
    /// Merge two packed ranges: unpack, take the elementwise min of the
    /// mins and max of the maxes per tier, and pack again. Lossless for
    /// well-formed endpoints, whose tiers sit below the saturation point.
    pub fn widen(self, other: Self) -> (r: Self)
        requires
            self.min.wf(),
            self.max.wf(),
            other.min.wf(),
            other.max.wf(),
        ensures
            r.min == packed_from(
                vstd::math::min(self.min.id_tier(), other.min.id_tier()),
                vstd::math::min(self.min.class_tier(), other.min.class_tier()),
                vstd::math::min(self.min.element_tier(), other.min.element_tier()),
            ),
            r.max == packed_from(
                vstd::math::max(self.max.id_tier(), other.max.id_tier()),
                vstd::math::max(self.max.class_tier(), other.max.class_tier()),
                vstd::math::max(self.max.element_tier(), other.max.element_tier()),
            ),
            r.min.wf(),
            r.max.wf(),
    {
        let r = self.unpack().widen(other.unpack()).pack();
        proof {
            lemma_packed_from_tiers(
                vstd::math::min(self.min.id_tier(), other.min.id_tier()),
                vstd::math::min(self.min.class_tier(), other.min.class_tier()),
                vstd::math::min(self.min.element_tier(), other.min.element_tier()),
            );
            lemma_packed_from_tiers(
                vstd::math::max(self.max.id_tier(), other.max.id_tier()),
                vstd::math::max(self.max.class_tier(), other.max.class_tier()),
                vstd::math::max(self.max.element_tier(), other.max.element_tier()),
            );
        }
        r
    }

    /// Unpack both ends of the range.
    pub fn unpack(self) -> (r: Bounds<UnpackedSpecificity>)
        ensures
            r.min.id_selectors as int == self.min.id_tier(),
            r.min.class_like_selectors as int == self.min.class_tier(),
            r.min.element_selectors as int == self.min.element_tier(),
            r.max.id_selectors as int == self.max.id_tier(),
            r.max.class_like_selectors as int == self.max.class_tier(),
            r.max.element_selectors as int == self.max.element_tier(),
    {
        Bounds { min: UnpackedSpecificity::from(self.min), max: UnpackedSpecificity::from(self.max) }
    }
}

impl Bounds<UnpackedSpecificity> {
    /// Pack both ends of the range, saturating each tier at 1023.
    pub fn pack(self) -> (r: Bounds<Specificity>)
        ensures
            r.min == packed_from(
                self.min.id_selectors as int,
                self.min.class_like_selectors as int,
                self.min.element_selectors as int,
            ),
            r.max == packed_from(
                self.max.id_selectors as int,
                self.max.class_like_selectors as int,
                self.max.element_selectors as int,
            ),
            r.min.wf(),
            r.max.wf(),
            r.min.id_tier() == clamp_tier(self.min.id_selectors as int),
            r.min.class_tier() == clamp_tier(self.min.class_like_selectors as int),
            r.min.element_tier() == clamp_tier(self.min.element_selectors as int),
            r.max.id_tier() == clamp_tier(self.max.id_selectors as int),
            r.max.class_tier() == clamp_tier(self.max.class_like_selectors as int),
            r.max.element_tier() == clamp_tier(self.max.element_selectors as int),
    {
        Bounds { min: Specificity::from(self.min), max: Specificity::from(self.max) }
    }

    /// A fragment definitely contributes one element selector: both ends of
    /// the range move up together.
    pub fn incr_element_selectors(&mut self)
        requires
            old(self).min.element_selectors < u32::MAX,
            old(self).max.element_selectors < u32::MAX,
        ensures
            final(self).min == (UnpackedSpecificity {
                element_selectors: (old(self).min.element_selectors + 1) as u32,
                ..old(self).min
            }),
            final(self).max == (UnpackedSpecificity {
                element_selectors: (old(self).max.element_selectors + 1) as u32,
                ..old(self).max
            }),
    {
        self.min.element_selectors = self.min.element_selectors + 1;
        self.max.element_selectors = self.max.element_selectors + 1;
    }

    /// A fragment definitely contributes one id selector.
    pub fn incr_id_selectors(&mut self)
        requires
            old(self).min.id_selectors < u32::MAX,
            old(self).max.id_selectors < u32::MAX,
        ensures
            final(self).min == (UnpackedSpecificity {
                id_selectors: (old(self).min.id_selectors + 1) as u32,
                ..old(self).min
            }),
            final(self).max == (UnpackedSpecificity {
                id_selectors: (old(self).max.id_selectors + 1) as u32,
                ..old(self).max
            }),
    {
        self.min.id_selectors = self.min.id_selectors + 1;
        self.max.id_selectors = self.max.id_selectors + 1;
    }

    /// A fragment definitely contributes one class-like selector.
    pub fn incr_class_like_selectors(&mut self)
        requires
            old(self).min.class_like_selectors < u32::MAX,
            old(self).max.class_like_selectors < u32::MAX,
        ensures
            final(self).min == (UnpackedSpecificity {
                class_like_selectors: (old(self).min.class_like_selectors + 1) as u32,
                ..old(self).min
            }),
            final(self).max == (UnpackedSpecificity {
                class_like_selectors: (old(self).max.class_like_selectors + 1) as u32,
                ..old(self).max
            }),
    {
        self.min.class_like_selectors = self.min.class_like_selectors + 1;
        self.max.class_like_selectors = self.max.class_like_selectors + 1;
    }

    /// Merge two alternative ranges: the result admits every specificity
    /// that either range admits, by taking the elementwise min of the mins
    /// and the elementwise max of the maxes.
    pub fn widen(self, other: Self) -> (r: Self)
        ensures
            r == widened(self, other),
    {
        Bounds {
            min: UnpackedSpecificity {
                id_selectors: if self.min.id_selectors <= other.min.id_selectors {
                    self.min.id_selectors
                } else {
                    other.min.id_selectors
                },
                class_like_selectors: if self.min.class_like_selectors
                    <= other.min.class_like_selectors {
                    self.min.class_like_selectors
                } else {
                    other.min.class_like_selectors
                },
                element_selectors: if self.min.element_selectors <= other.min.element_selectors {
                    self.min.element_selectors
                } else {
                    other.min.element_selectors
                },
            },
            max: UnpackedSpecificity {
                id_selectors: if self.max.id_selectors <= other.max.id_selectors {
                    other.max.id_selectors
                } else {
                    self.max.id_selectors
                },
                class_like_selectors: if self.max.class_like_selectors
                    <= other.max.class_like_selectors {
                    other.max.class_like_selectors
                } else {
                    self.max.class_like_selectors
                },
                element_selectors: if self.max.element_selectors <= other.max.element_selectors {
                    other.max.element_selectors
                } else {
                    self.max.element_selectors
                },
            },
        }
    }

    /// Move a whole range by one known contribution: add the value to
    /// both ends.
    pub fn add_value(self, v: UnpackedSpecificity) -> (r: Self)
        requires
            self.min.id_selectors + v.id_selectors <= u32::MAX,
            self.min.class_like_selectors + v.class_like_selectors <= u32::MAX,
            self.min.element_selectors + v.element_selectors <= u32::MAX,
            self.max.id_selectors + v.id_selectors <= u32::MAX,
            self.max.class_like_selectors + v.class_like_selectors <= u32::MAX,
            self.max.element_selectors + v.element_selectors <= u32::MAX,
        ensures
            r.min.id_selectors == self.min.id_selectors + v.id_selectors,
            r.min.class_like_selectors == self.min.class_like_selectors + v.class_like_selectors,
            r.min.element_selectors == self.min.element_selectors + v.element_selectors,
            r.max.id_selectors == self.max.id_selectors + v.id_selectors,
            r.max.class_like_selectors == self.max.class_like_selectors + v.class_like_selectors,
            r.max.element_selectors == self.max.element_selectors + v.element_selectors,
    {
        Bounds { min: self.min.add(v), max: self.max.add(v) }
    }

    /// Add two ranges elementwise: min with min, max with max.
    pub fn add(self, other: Self) -> (r: Self)
        requires
            self.min.id_selectors + other.min.id_selectors <= u32::MAX,
            self.min.class_like_selectors + other.min.class_like_selectors <= u32::MAX,
            self.min.element_selectors + other.min.element_selectors <= u32::MAX,
            self.max.id_selectors + other.max.id_selectors <= u32::MAX,
            self.max.class_like_selectors + other.max.class_like_selectors <= u32::MAX,
            self.max.element_selectors + other.max.element_selectors <= u32::MAX,
        ensures
            r.min.id_selectors == self.min.id_selectors + other.min.id_selectors,
            r.min.class_like_selectors == self.min.class_like_selectors
                + other.min.class_like_selectors,
            r.min.element_selectors == self.min.element_selectors + other.min.element_selectors,
            r.max.id_selectors == self.max.id_selectors + other.max.id_selectors,
            r.max.class_like_selectors == self.max.class_like_selectors
                + other.max.class_like_selectors,
            r.max.element_selectors == self.max.element_selectors + other.max.element_selectors,
    {
        Bounds { min: self.min.add(other.min), max: self.max.add(other.max) }
    }
}

/// Widening a range with itself changes nothing.
pub proof fn lemma_widen_self(a: Bounds<UnpackedSpecificity>)
    ensures
        widened(a, a) == a,
{
}

/// Widening is commutative.
pub proof fn lemma_widen_commutative(a: Bounds<UnpackedSpecificity>, b: Bounds<UnpackedSpecificity>)
    ensures
        widened(a, b) == widened(b, a),
{
}

/// Widening is associative.
pub proof fn lemma_widen_associative(
    a: Bounds<UnpackedSpecificity>,
    b: Bounds<UnpackedSpecificity>,
    c: Bounds<UnpackedSpecificity>,
)
    ensures
        widened(widened(a, b), c) == widened(a, widened(b, c)),
{
}

/// One triple is at or below another in every tier.
pub open spec fn tiers_le(a: UnpackedSpecificity, b: UnpackedSpecificity) -> bool {
    a.id_selectors <= b.id_selectors && a.class_like_selectors <= b.class_like_selectors
        && a.element_selectors <= b.element_selectors
}

/// The widened range contains both inputs: its min is at or below either
/// input's min in every tier, and its max at or above either input's max.
pub proof fn lemma_widen_contains(a: Bounds<UnpackedSpecificity>, b: Bounds<UnpackedSpecificity>)
    ensures
        tiers_le(widened(a, b).min, a.min),
        tiers_le(widened(a, b).min, b.min),
        tiers_le(a.max, widened(a, b).max),
        tiers_le(b.max, widened(a, b).max),
{
}

} // verus!
