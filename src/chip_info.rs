//! Decoding of the chip's identity report: model, features, cores, revision.
use vstd::prelude::*;

verus! {

/// A chip model.
#[derive(Clone, Copy, Debug, PartialEq, Eq, Structural)]
pub enum Model {
    Esp32,
    Esp32c3,
    Esp32s2,
    Esp32s3,
}

/// The model that the identity report numbers `repr`, if it is one.
pub open spec fn model_of(repr: usize) -> Option<Model> {
    if repr == 1 {
        Some(Model::Esp32)
    } else if repr == 5 {
        Some(Model::Esp32c3)
    } else if repr == 2 {
        Some(Model::Esp32s2)
    } else if repr == 9 {
        Some(Model::Esp32s3)
    } else {
        None
    }
}

impl Model {
    /// The model numbered `repr`.
    pub fn from_repr(repr: usize) -> (r: Option<Model>)
        ensures
            r == model_of(repr),
    {
        if repr == 1 {
            Some(Model::Esp32)
        } else if repr == 5 {
            Some(Model::Esp32c3)
        } else if repr == 2 {
            Some(Model::Esp32s2)
        } else if repr == 9 {
            Some(Model::Esp32s3)
        } else {
            None
        }
    }
}

/// A capability that the identity report can flag.
#[derive(Clone, Copy, Debug, PartialEq, Eq, Structural)]
pub enum Feature {
    EmbFlash,
    WifiBgn,
    Ble,
    Bt,
    EmbPsram,
}

/// The feature whose flag is `repr`, if it is one.
pub open spec fn feature_of(repr: usize) -> Option<Feature> {
    if repr == 0x01 {
        Some(Feature::EmbFlash)
    } else if repr == 0x02 {
        Some(Feature::WifiBgn)
    } else if repr == 0x10 {
        Some(Feature::Ble)
    } else if repr == 0x20 {
        Some(Feature::Bt)
    } else if repr == 0x80 {
        Some(Feature::EmbPsram)
    } else {
        None
    }
}

/// `f` where `set`, else nothing.
pub open spec fn flagged(set: bool, f: Feature) -> Seq<Feature> {
    if set {
        seq![f]
    } else {
        seq![]
    }
}

/// The features flagged in `flags`, lowest flag first; bits that flag no
/// known feature, and all bits above the lowest eight, are ignored.
pub open spec fn features_of(flags: usize) -> Seq<Feature> {
    flagged(flags & 0x01 != 0, Feature::EmbFlash) + flagged(flags & 0x02 != 0, Feature::WifiBgn)
        + flagged(flags & 0x10 != 0, Feature::Ble) + flagged(flags & 0x20 != 0, Feature::Bt)
        + flagged(flags & 0x80 != 0, Feature::EmbPsram)
}

/// The features that bits `0..n` of `flags` flag, lowest first.
pub open spec fn features_below(flags: usize, n: nat) -> Seq<Feature>
    decreases n,
{
    if n == 0 {
        seq![]
    } else {
        let bit = flags & (1usize << ((n - 1) as usize));
        features_below(flags, (n - 1) as nat) + match feature_of(bit) {
            Some(f) => seq![f],
            None => seq![],
        }
    }
}

proof fn lemma_features_below_eight(flags: usize)
    ensures
        features_below(flags, 8) == features_of(flags),
{
    reveal_with_fuel(features_below, 9);
    assert(flags & (1usize << 0usize) == flags & 0x01usize) by (bit_vector);
    assert(flags & (1usize << 1usize) == flags & 0x02usize) by (bit_vector);
    assert(flags & (1usize << 2usize) == flags & 0x04usize) by (bit_vector);
    assert(flags & (1usize << 3usize) == flags & 0x08usize) by (bit_vector);
    assert(flags & (1usize << 4usize) == flags & 0x10usize) by (bit_vector);
    assert(flags & (1usize << 5usize) == flags & 0x20usize) by (bit_vector);
    assert(flags & (1usize << 6usize) == flags & 0x40usize) by (bit_vector);
    assert(flags & (1usize << 7usize) == flags & 0x80usize) by (bit_vector);
    assert(flags & 0x01usize == 0 || flags & 0x01usize == 0x01) by (bit_vector);
    assert(flags & 0x02usize == 0 || flags & 0x02usize == 0x02) by (bit_vector);
    assert(flags & 0x04usize == 0 || flags & 0x04usize == 0x04) by (bit_vector);
    assert(flags & 0x08usize == 0 || flags & 0x08usize == 0x08) by (bit_vector);
    assert(flags & 0x10usize == 0 || flags & 0x10usize == 0x10) by (bit_vector);
    assert(flags & 0x20usize == 0 || flags & 0x20usize == 0x20) by (bit_vector);
    assert(flags & 0x40usize == 0 || flags & 0x40usize == 0x40) by (bit_vector);
    assert(flags & 0x80usize == 0 || flags & 0x80usize == 0x80) by (bit_vector);
    assert(features_below(flags, 8) =~= features_of(flags));
}

impl Feature {
    /// The feature whose flag is `repr`.
    pub fn from_repr(repr: usize) -> (r: Option<Feature>)
        ensures
            r == feature_of(repr),
    {
        if repr == 0x01 {
            Some(Feature::EmbFlash)
        } else if repr == 0x02 {
            Some(Feature::WifiBgn)
        } else if repr == 0x10 {
            Some(Feature::Ble)
        } else if repr == 0x20 {
            Some(Feature::Bt)
        } else if repr == 0x80 {
            Some(Feature::EmbPsram)
        } else {
            None
        }
    }

    /// The features flagged in the low byte of `flags`, lowest flag first.
    pub fn from(flags: usize) -> (r: Vec<Feature>)
        ensures
            r@ == features_of(flags),
    {
        let mut features: Vec<Feature> = Vec::new();
        let mut i: usize = 0;
        while i < 8
            invariant
                i <= 8,
                features@ == features_below(flags, i as nat),
            decreases 8 - i,
        {
            let mask: usize = 1usize << i;
            match Feature::from_repr(flags & mask) {
                Some(feature) => features.push(feature),
                None => {},
            }
            i = i + 1;
        }
        proof {
            lemma_features_below_eight(flags);
        }
        features
    }
}

/// The chip's identity.
#[derive(Clone, Debug, PartialEq)]
pub struct ChipInfo {
    pub model: Option<Model>,
    pub features: Vec<Feature>,
    pub cores: u8,
    pub revision: u8,
}

impl ChipInfo {
    /// Decodes the identity report's fields: the model number, the feature
    /// bitmask, the core count and the silicon revision.
    pub fn new(model: u32, features: u32, cores: u8, revision: u8) -> (r: ChipInfo)
        ensures
            r.model == model_of(model as usize),
            r.features@ == features_of(features as usize),
            r.cores == cores,
            r.revision == revision,
    {
        ChipInfo {
            model: Model::from_repr(model as usize),
            features: Feature::from(features as usize),
            cores,
            revision,
        }
    }
}

} // verus!
