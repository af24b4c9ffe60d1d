//! Feature words: 64-bit words in which bit `n` stands for feature number `n`.
use vstd::prelude::*;

verus! {

/// The ring feature by which either side asks for notification at a given index.
pub const VIRTIO_RING_F_EVENT_IDX: u32 = 29;

/// The device feature that stands for protocol features being negotiable.
pub const F_PROTOCOL_FEATURES: u32 = 30;

/// The device feature of conforming to version 1 of the virtio specification.
pub const VIRTIO_F_VERSION_1: u32 = 32;

/// The device feature of packed rings.
pub const F_RING_PACKED: u32 = 34;

/// The protocol feature of several queues.
pub const PROTOCOL_F_MQ: u32 = 0;

/// The protocol feature of acknowledged requests.
pub const PROTOCOL_F_REPLY_ACK: u32 = 3;

/// The protocol feature of a configuration space that the back end keeps.
pub const PROTOCOL_F_CONFIG: u32 = 9;

/// The protocol feature of a device status that the back end keeps.
pub const PROTOCOL_F_STATUS: u32 = 16;

/// The protocol feature of the discovery requests.
pub const PROTOCOL_F_DISCOVERY: u32 = 40;

/// Whether `word` holds feature `n`.
pub open spec fn has(word: u64, n: u64) -> bool {
    (word >> n) & 1 == 1
}

/// The numbers of the features in `word`.
pub open spec fn features(word: u64) -> Set<int> {
    Set::new(|n: int| 0 <= n < 64 && has(word, n as u64))
}

proof fn lemma_contains(word: u64, n: int)
    ensures
        features(word).contains(n) <==> 0 <= n < 64 && has(word, n as u64),
{
}

/// The joined bits of two words hold the features of both.
pub proof fn lemma_union(a: u64, b: u64)
    ensures
        features(a | b) == features(a).union(features(b)),
{
    assert forall|n: int| #[trigger] features(a | b).contains(n) == features(a).union(
        features(b),
    ).contains(n) by {
        if 0 <= n < 64 {
            let m: u64 = n as u64;
            assert(((a | b) >> m) & 1 == 1 <==> (a >> m) & 1 == 1 || (b >> m) & 1 == 1)
                by (bit_vector);
        }
    }
    assert(features(a | b) =~= features(a).union(features(b)));
}

/// A feature is in a word exactly when its bit is set there, and nothing else is a feature. The
/// bits that two words share are the features of both, and their joined bits are the features of
/// either.
pub proof fn law_feature_is_its_bit(word: u64, other: u64, n: int)
    ensures
        features(word).contains(n) ==> 0 <= n < 64,
        0 <= n < 64 ==> (features(word).contains(n) <==> word & (1u64 << n as u64) != 0),
        features(word & other).contains(n) <==> features(word).contains(n) && features(
            other,
        ).contains(n),
        features(word | other).contains(n) <==> features(word).contains(n) || features(
            other,
        ).contains(n),
{
    lemma_contains(word, n);
    lemma_contains(other, n);
    lemma_contains(word & other, n);
    lemma_contains(word | other, n);
    if 0 <= n < 64 {
        let m: u64 = n as u64;
        assert(m < 64 ==> ((word >> m) & 1 == 1 <==> word & (1u64 << m) != 0)) by (bit_vector);
        assert((((word & other) >> m) & 1 == 1 <==> (word >> m) & 1 == 1 && (other >> m) & 1 == 1)
            && (((word | other) >> m) & 1 == 1 <==> (word >> m) & 1 == 1 || (other >> m) & 1 == 1))
            by (bit_vector);
    }
}

/// The word in which bit `n` alone is set holds feature `n` alone.
pub proof fn lemma_single(n: u32)
    requires
        n < 64,
    ensures
        features(1u64 << n) == set![n as int],
{
    assert forall|k: int| #[trigger] features(1u64 << n).contains(k) == set![n as int].contains(
        k,
    ) by {
        if 0 <= k < 64 {
            let m: u64 = k as u64;
            assert(((1u64 << n) >> m) & 1 == 1 <==> m == n) by (bit_vector)
                requires
                    n < 64,
                    m < 64,
            ;
        }
    }
    assert(features(1u64 << n) =~= set![n as int]);
}

/// No feature is in the zero word.
pub proof fn lemma_no_features()
    ensures
        features(0) == Set::<int>::empty(),
{
    assert forall|n: int| !features(0).contains(n) by {
        if 0 <= n < 64 {
            let m: u64 = n as u64;
            assert((0u64 >> m) & 1 == 0) by (bit_vector);
        }
    }
    assert(features(0) =~= Set::<int>::empty());
}

/// A word is known by its features: no two words hold the same ones.
pub proof fn law_features_determine_word(a: u64, b: u64)
    requires
        features(a) == features(b),
    ensures
        a == b,
    decreases a,
{
    lemma_contains(a, 0);
    lemma_contains(b, 0);
    assert((a >> 0u64) & 1 == a % 2 && (b >> 0u64) & 1 == b % 2) by (bit_vector);
    if a == 0 {
        lemma_no_features();
        if b != 0 {
            lemma_some_feature(b);
        }
    } else {
        let c: u64 = a / 2;
        let d: u64 = b / 2;
        assert forall|n: int| #[trigger] features(c).contains(n) == features(d).contains(n) by {
            if 0 <= n < 63 {
                let m: u64 = n as u64;
                let k: u64 = (n + 1) as u64;
                lemma_contains(a, n + 1);
                lemma_contains(b, n + 1);
                assert(((a / 2) >> m) & 1 == (a >> k) & 1 && ((b / 2) >> m) & 1 == (b >> k) & 1)
                    by (bit_vector)
                    requires
                        m < 63,
                        k == m + 1,
                ;
            } else if n == 63 {
                assert(((a / 2) >> 63u64) & 1 == 0 && ((b / 2) >> 63u64) & 1 == 0)
                    by (bit_vector);
            }
        }
        assert(features(c) =~= features(d));
        law_features_determine_word(c, d);
    }
}

proof fn lemma_some_feature(a: u64)
    requires
        a != 0,
    ensures
        exists|n: int| features(a).contains(n),
    decreases a,
{
    if a % 2 == 1 {
        assert((a >> 0u64) & 1 == a % 2) by (bit_vector);
        assert(features(a).contains(0));
    } else {
        let c: u64 = a / 2;
        lemma_some_feature(c);
        let n: int = choose|n: int| features(c).contains(n);
        let m: u64 = n as u64;
        if n < 63 {
            let k: u64 = (n + 1) as u64;
            assert(((a / 2) >> m) & 1 == (a >> k) & 1) by (bit_vector)
                requires
                    m < 63,
                    k == m + 1,
            ;
            assert(features(a).contains(n + 1));
        } else {
            assert(((a / 2) >> 63u64) & 1 == 0) by (bit_vector);
        }
    }
}

/// Whether `word` holds feature `n`.
pub fn has_feature(word: u64, n: u32) -> (held: bool)
    requires
        n < 64,
    ensures
        held == features(word).contains(n as int),
{
    (word >> (n as u64)) & 1 == 1
}

/// `word` with feature `n` put in.
pub fn with_feature(word: u64, n: u32) -> (out: u64)
    requires
        n < 64,
    ensures
        features(out) == features(word).insert(n as int),
{
    proof {
        lemma_union(word, 1u64 << n);
        lemma_single(n);
        assert(features(word).union(set![n as int]) =~= features(word).insert(n as int));
    }
    word | (1u64 << n)
}

/// `word` with feature `n` taken out.
pub fn without_feature(word: u64, n: u32) -> (out: u64)
    requires
        n < 64,
    ensures
        features(out) == features(word).remove(n as int),
{
    let out: u64 = word & !(1u64 << n);
    proof {
        assert forall|k: int| #[trigger] features(out).contains(k) == features(word).remove(
            n as int,
        ).contains(k) by {
            if 0 <= k < 64 {
                let m: u64 = k as u64;
                assert(((word & !(1u64 << n)) >> m) & 1 == 1 <==> (word >> m) & 1 == 1 && m != n)
                    by (bit_vector)
                    requires
                        n < 64,
                        m < 64,
                ;
            }
        }
        assert(features(out) =~= features(word).remove(n as int));
    }
    out
}

/// The features of either word.
pub fn union(a: u64, b: u64) -> (out: u64)
    ensures
        features(out) == features(a).union(features(b)),
{
    proof {
        lemma_union(a, b);
    }
    a | b
}

/// What the handler of a device's connection is created with.
#[derive(Clone, Copy, Debug, PartialEq, Eq, Structural)]
pub struct HandlerConfig {
    /// How many queues the device may have.
    pub queues_num: u64,
    /// The device features that may be offered to the driver.
    pub allow_features: u64,
    /// The device features that are acknowledged from the start.
    pub init_features: u64,
    /// The protocol features that may be used.
    pub allow_protocol_features: u64,
}

impl HandlerConfig {
    /// Whatever is acknowledged from the start may also be offered.
    pub open spec fn coherent(self) -> bool {
        features(self.init_features).subset_of(features(self.allow_features))
    }
}

/// A configuration is coherent exactly when no bit of what is acknowledged from the start is
/// missing from what may be offered.
pub proof fn law_coherent_by_bits(config: HandlerConfig)
    ensures
        config.coherent() <==> config.init_features & !config.allow_features == 0,
{
    let init: u64 = config.init_features;
    let allow: u64 = config.allow_features;
    let missing: u64 = init & !allow;
    lemma_no_features();
    assert forall|n: int| #[trigger] features(missing).contains(n) <==> features(init).contains(n)
        && !features(allow).contains(n) by {
        lemma_contains(missing, n);
        lemma_contains(init, n);
        lemma_contains(allow, n);
        if 0 <= n < 64 {
            let m: u64 = n as u64;
            assert(((init & !allow) >> m) & 1 == 1 <==> (init >> m) & 1 == 1 && !((allow >> m) & 1
                == 1)) by (bit_vector)
                requires
                    m < 64,
            ;
        }
    }
    if missing == 0 {
        assert forall|n: int| features(init).contains(n) implies features(allow).contains(n) by {
            assert(!features(missing).contains(n));
        }
    }
    if config.coherent() {
        assert(features(missing) =~= Set::<int>::empty());
        law_features_determine_word(missing, 0);
    }
}

/// A word whose features are those of `base` and the bits of `mask` is the two joined.
pub proof fn lemma_joined(word: u64, base: u64, mask: u64)
    requires
        forall|n: int| #[trigger]
            features(word).contains(n) <==> features(base).contains(n) || features(mask).contains(
                n,
            ),
    ensures
        word == base | mask,
{
    lemma_union(base, mask);
    assert(features(word) =~= features(base | mask));
    law_features_determine_word(word, base | mask);
}

/// What asking for, adding and taking out a feature, and joining two words, do to the bits of a
/// word.
pub proof fn law_feature_words(
    word: u64,
    other: u64,
    n: u32,
    held: bool,
    with: u64,
    without: u64,
    joined: u64,
)
    requires
        n < 64,
        call_ensures(has_feature, (word, n), held),
        call_ensures(with_feature, (word, n), with),
        call_ensures(without_feature, (word, n), without),
        call_ensures(union, (word, other), joined),
    ensures
        held <==> word & (1u64 << n) != 0,
        with == word | (1u64 << n),
        without == word & !(1u64 << n),
        joined == word | other,
{
    let bit: u64 = 1u64 << n;
    let rest: u64 = word & !bit;
    lemma_single(n);
    lemma_joined(with, word, bit);
    lemma_joined(joined, word, other);
    law_feature_is_its_bit(word, bit, n as int);
    assert(word & (1u64 << n) != 0 <==> word & (1u64 << n as u64) != 0);
    assert forall|k: int| #[trigger] features(rest).contains(k) <==> features(word).contains(k)
        && k != n by {
        law_feature_is_its_bit(rest, bit, k);
        law_feature_is_its_bit(word, bit, k);
        if 0 <= k < 64 {
            let m: u64 = k as u64;
            assert((word & !(1u64 << n)) & (1u64 << m) != 0 <==> word & (1u64 << m) != 0 && m != n)
                by (bit_vector)
                requires
                    m < 64,
                    n < 64,
            ;
        }
    }
    assert(features(without) =~= features(rest));
    law_features_determine_word(without, rest);
}

} // verus!
